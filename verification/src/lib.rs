//! Typed, validated in-memory model of a directory-structured annotation
//! dataset: the JSON tree, the geometry union with its flattened wire form,
//! the annotation documents and the directory-driven dataset resolver.

pub mod annotations;
pub mod codec;
pub mod dataset;
pub mod documents;
pub mod episode;
pub mod error;
pub mod finite;
pub mod frames;
pub mod geometry;
pub mod json;
pub mod names;
pub mod objects;
pub mod project;
pub mod project_meta;
pub mod rejection;
pub mod related_images;
pub mod round_trip;
pub mod tags;
pub mod text;
pub mod utils;
pub mod wire;
pub mod written;

pub use annotations::{
    Figure, Frame, ImageAnnotation, MediaAnnotation, PointCloudAnnotation,
    PointCloudEpisodeAnnotation, PointCloudFigure, PointCloudGeometry, PointCloudObject, Size,
    Vector3D, VideoAnnotation, VideoObject,
};
pub use codec::{decode_payload, encode_payload};
pub use dataset::{
    get_dir_name, ClassicalDataset, ClassicalMedia, Dataset, DatasetFiles, DatasetKind,
    DatasetLayout, FrameData, ImageData, ImageDataset, MediaKind, PointCloudData,
    PointCloudDataset, PointCloudEpisodeDataset, VideoData, VideoDataset,
};
pub use episode::{EpisodeAnnotation, FramePointcloudMap};
pub use error::{CodecError, FormatError, SchemaError};
pub use finite::Finite;
pub use geometry::{
    Bitmap, BitmapGeometry, Cuboid3DGeometry, Geometry, GeometryType, PointGeometry, Points,
    PolygonGeometry, PolylineGeometry, RectangleGeometry, Shape, Xyz,
};
pub use json::{Json, JsonNumber};
pub use names::ListedName;
pub use objects::Object;
pub use project::{EntryKind, Project};
pub use project_meta::{
    ClassMeta, GeometryConfig, KeyIdMap, ProjectMeta, Rgb, TagMeta, ValueType,
};
pub use related_images::{Meta, RelatedImages, SensorsData};
pub use tags::{Tag, TagValue};
pub use utils::load_json;
pub use wire::{Decode, Encode};
