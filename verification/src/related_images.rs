//! The images that go with a point cloud, and how their camera was set.

use crate::error::SchemaError;
use crate::finite::Finite;
use crate::json::{required_as, Json, JsonNumber, JsonView};
use crate::wire::{decode_member, reader, Decode};
use vstd::prelude::*;

verus! {

/// The two matrices of a camera, row by row.
#[derive(Debug, Clone, PartialEq, Eq)]
pub struct SensorsData {
    pub extrinsic_matrix: Vec<Finite>,
    pub intrinsic_matrix: Vec<Finite>,
}

/// The model of [`SensorsData`].
pub struct SensorsDataView {
    pub extrinsic_matrix: Seq<JsonNumber>,
    pub intrinsic_matrix: Seq<JsonNumber>,
}

impl DeepView for SensorsData {
    type V = SensorsDataView;

    open spec fn deep_view(&self) -> SensorsDataView {
        SensorsDataView {
            extrinsic_matrix: self.extrinsic_matrix.deep_view(),
            intrinsic_matrix: self.intrinsic_matrix.deep_view(),
        }
    }
}

impl Default for SensorsData {
    fn default() -> (r: SensorsData)
        ensures
            r.extrinsic_matrix@.len() == 0,
            r.intrinsic_matrix@.len() == 0,
    {
        SensorsData { extrinsic_matrix: Vec::new(), intrinsic_matrix: Vec::new() }
    }
}

impl Decode for SensorsData {
    open spec fn read(j: JsonView) -> Result<SensorsDataView, SchemaError> {
        let extrinsic = required_as(j.required("extrinsicMatrix"@), reader::<Vec<Finite>>());
        let intrinsic = required_as(j.required("intrinsicMatrix"@), reader::<Vec<Finite>>());
        if extrinsic is Err {
            Err(extrinsic->Err_0)
        } else if intrinsic is Err {
            Err(intrinsic->Err_0)
        } else {
            Ok(
                SensorsDataView {
                    extrinsic_matrix: extrinsic->Ok_0,
                    intrinsic_matrix: intrinsic->Ok_0,
                },
            )
        }
    }

    /// Reads the two matrices from `extrinsicMatrix` and `intrinsicMatrix`.
    fn decode(j: &Json) -> (r: Result<SensorsData, SchemaError>) {
        let extrinsic_matrix = decode_member::<Vec<Finite>>(j, "extrinsicMatrix")?;
        let intrinsic_matrix = decode_member::<Vec<Finite>>(j, "intrinsicMatrix")?;
        Ok(SensorsData { extrinsic_matrix, intrinsic_matrix })
    }
}

/// Which device took an image, when, and how its camera was set.
#[derive(Debug, Clone, PartialEq, Eq)]
pub struct Meta {
    pub device_id: String,
    pub timestamp: String,
    pub sensors_data: SensorsData,
}

/// The model of a [`Meta`].
pub struct MetaView {
    pub device_id: Seq<char>,
    pub timestamp: Seq<char>,
    pub sensors_data: SensorsDataView,
}

impl DeepView for Meta {
    type V = MetaView;

    open spec fn deep_view(&self) -> MetaView {
        MetaView {
            device_id: self.device_id@,
            timestamp: self.timestamp@,
            sensors_data: self.sensors_data.deep_view(),
        }
    }
}

impl Default for Meta {
    fn default() -> (r: Meta)
        ensures
            r.device_id@.len() == 0,
            r.timestamp@.len() == 0,
            r.sensors_data.extrinsic_matrix@.len() == 0,
            r.sensors_data.intrinsic_matrix@.len() == 0,
    {
        Meta {
            device_id: String::new(),
            timestamp: String::new(),
            sensors_data: SensorsData::default(),
        }
    }
}

impl Decode for Meta {
    open spec fn read(j: JsonView) -> Result<MetaView, SchemaError> {
        let device_id = j.req_text("deviceId"@);
        let timestamp = j.req_text("timestamp"@);
        let sensors_data = required_as(j.required("sensorsData"@), reader::<SensorsData>());
        if device_id is Err {
            Err(device_id->Err_0)
        } else if timestamp is Err {
            Err(timestamp->Err_0)
        } else if sensors_data is Err {
            Err(sensors_data->Err_0)
        } else {
            Ok(
                MetaView {
                    device_id: device_id->Ok_0,
                    timestamp: timestamp->Ok_0,
                    sensors_data: sensors_data->Ok_0,
                },
            )
        }
    }

    /// Reads the record of an image from `deviceId`, `timestamp` and
    /// `sensorsData`.
    fn decode(j: &Json) -> (r: Result<Meta, SchemaError>) {
        let device_id = j.req_text("deviceId")?;
        let timestamp = j.req_text("timestamp")?;
        let sensors_data = decode_member::<SensorsData>(j, "sensorsData")?;
        Ok(Meta { device_id, timestamp, sensors_data })
    }
}

/// An image that goes with a point cloud.
#[derive(Debug, Clone, PartialEq, Eq)]
pub struct RelatedImages {
    pub name: String,
    pub meta: Meta,
}

/// The model of [`RelatedImages`].
pub struct RelatedImagesView {
    pub name: Seq<char>,
    pub meta: MetaView,
}

impl DeepView for RelatedImages {
    type V = RelatedImagesView;

    open spec fn deep_view(&self) -> RelatedImagesView {
        RelatedImagesView { name: self.name@, meta: self.meta.deep_view() }
    }
}

impl Default for RelatedImages {
    fn default() -> (r: RelatedImages)
        ensures
            r.name@.len() == 0,
    {
        RelatedImages { name: String::new(), meta: Meta::default() }
    }
}

impl Decode for RelatedImages {
    open spec fn read(j: JsonView) -> Result<RelatedImagesView, SchemaError> {
        let name = j.req_text("name"@);
        let meta = required_as(j.required("meta"@), reader::<Meta>());
        if name is Err {
            Err(name->Err_0)
        } else if meta is Err {
            Err(meta->Err_0)
        } else {
            Ok(RelatedImagesView { name: name->Ok_0, meta: meta->Ok_0 })
        }
    }

    /// Reads a related image from `name` and `meta`.
    fn decode(j: &Json) -> (r: Result<RelatedImages, SchemaError>) {
        let name = j.req_text("name")?;
        let meta = decode_member::<Meta>(j, "meta")?;
        Ok(RelatedImages { name, meta })
    }
}

} // verus!
