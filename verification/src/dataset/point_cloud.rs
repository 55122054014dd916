//! A dataset of point clouds: the folder `pointcloud`, and one annotation file for each
//! of its items.

use super::{ClassicalDataset, DatasetKind, MediaKind};
use crate::annotations::PointCloudAnnotation;
use crate::dataset::classical::{ann_path, annotation_path, names_match};
use crate::error::FormatError;
use crate::names::{
    collect_names, find_name, first_undecodable, names_of, ListedName, ListedNameView,
};
use crate::utils::{load_json, loads_as};
use indexmap::IndexSet;
use vstd::prelude::*;
use vstd::std_specs::convert::FromSpecImpl;
use vstd::string::StringExecFns;

verus! {

/// A dataset of point clouds: where it is, and the names of its items in the
/// order of strings, each once.
#[derive(Debug, Clone)]
pub struct PointCloudDataset {
    pub dataset_dir: String,
    pub point_cloud_names: IndexSet<String>,
}

/// An item of a dataset of point clouds.
#[derive(Debug, Clone)]
pub struct PointCloudData<'a> {
    pub point_cloud_name: &'a str,
    pub dataset: &'a PointCloudDataset,
}

impl From<PointCloudDataset> for DatasetKind {
    fn from(v: PointCloudDataset) -> (r: Self) {
        DatasetKind::Classical(
            ClassicalDataset {
                dataset_dir: v.dataset_dir,
                media_kind: MediaKind::PointCloud,
                media_names: v.point_cloud_names,
            },
        )
    }
}

impl FromSpecImpl<PointCloudDataset> for DatasetKind {
    open spec fn obeys_from_spec() -> bool {
        true
    }

    open spec fn from_spec(v: PointCloudDataset) -> Self {
        DatasetKind::Classical(
            ClassicalDataset {
                dataset_dir: v.dataset_dir,
                media_kind: MediaKind::PointCloud,
                media_names: v.point_cloud_names,
            },
        )
    }
}

/// Whether `r` is what opening the dataset at `dir` gives, where `media`
/// are the entries of its folder `pointcloud`.
pub open spec fn opens_as(
    r: Result<PointCloudDataset, FormatError>,
    dir: Seq<char>,
    media: Seq<ListedNameView>,
) -> bool {
    match first_undecodable(media, 0) {
        Some(path) => r matches Err(FormatError::ExpectUtf8FileName(p)) && p@ == path,
        None => {
            &&& r matches Ok(dataset)
            &&& dataset.dataset_dir@ == dir
            &&& names_match(names_of(dataset.point_cloud_names), media)
        },
    }
}

impl PointCloudDataset {
    /// The dataset at `dir`, where `media` are the entries of its folder
    /// `pointcloud`. Fails on the first entry whose name is not valid text.
    pub fn open(dir: &str, media: &Vec<ListedName>) -> (r: Result<PointCloudDataset, FormatError>)
        ensures
            opens_as(r, dir@, media.deep_view()),
    {
        let point_cloud_names = collect_names(media)?;
        Ok(PointCloudDataset { dataset_dir: String::from_str(dir), point_cloud_names })
    }

    /// The item named `point_cloud_name`, where the dataset has one.
    pub fn get_point_cloud(&self, point_cloud_name: &str) -> (r: Option<PointCloudData<'_>>)
        ensures
            match r {
                Some(item) => {
                    &&& names_of(self.point_cloud_names).contains(point_cloud_name@)
                    &&& item.point_cloud_name@ == point_cloud_name@
                    &&& item.dataset == self
                },
                None => !names_of(self.point_cloud_names).contains(point_cloud_name@),
            },
    {
        match find_name(&self.point_cloud_names, point_cloud_name) {
            Some(name) => Some(PointCloudData { point_cloud_name: name.as_str(), dataset: self }),
            None => None,
        }
    }
}

impl<'a> PointCloudData<'a> {
    /// The path of the annotation file.
    pub fn ann_path(&self) -> (r: String)
        ensures
            r@ == annotation_path(self.dataset.dataset_dir@, self.point_cloud_name@),
    {
        ann_path(self.dataset.dataset_dir.as_str(), self.point_cloud_name)
    }

    /// The annotation of the item, read from the contents of its annotation
    /// file. Nothing is kept from one call to the next.
    pub fn ann(&self, contents: &[u8]) -> (r: Result<PointCloudAnnotation, FormatError>)
        ensures
            loads_as(
                r,
                annotation_path(self.dataset.dataset_dir@, self.point_cloud_name@),
                contents@,
            ),
    {
        let path = self.ann_path();
        load_json::<PointCloudAnnotation>(path.as_str(), contents)
    }
}

} // verus!
