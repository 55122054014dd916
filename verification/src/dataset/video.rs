//! A dataset of videos: the folder `video`, and one annotation file for each
//! of its items.

use super::{ClassicalDataset, DatasetKind, MediaKind};
use crate::annotations::VideoAnnotation;
use crate::dataset::classical::{ann_path, annotation_path, names_match};
use crate::error::FormatError;
use crate::names::{
    collect_names, find_name, first_undecodable, names_of, ListedName, ListedNameView,
};
use crate::utils::{load_json, loads_as};
use indexmap::IndexSet;
use vstd::prelude::*;
use vstd::std_specs::convert::FromSpecImpl;
use vstd::string::StringExecFns;

verus! {

/// A dataset of videos: where it is, and the names of its items in the
/// order of strings, each once.
#[derive(Debug, Clone)]
pub struct VideoDataset {
    pub dataset_dir: String,
    pub video_names: IndexSet<String>,
}

/// An item of a dataset of videos.
#[derive(Debug, Clone)]
pub struct VideoData<'a> {
    pub video_name: &'a str,
    pub dataset: &'a VideoDataset,
}

impl From<VideoDataset> for DatasetKind {
    fn from(v: VideoDataset) -> (r: Self) {
        DatasetKind::Classical(
            ClassicalDataset {
                dataset_dir: v.dataset_dir,
                media_kind: MediaKind::Video,
                media_names: v.video_names,
            },
        )
    }
}

impl FromSpecImpl<VideoDataset> for DatasetKind {
    open spec fn obeys_from_spec() -> bool {
        true
    }

    open spec fn from_spec(v: VideoDataset) -> Self {
        DatasetKind::Classical(
            ClassicalDataset {
                dataset_dir: v.dataset_dir,
                media_kind: MediaKind::Video,
                media_names: v.video_names,
            },
        )
    }
}

/// Whether `r` is what opening the dataset at `dir` gives, where `media`
/// are the entries of its folder `video`.
pub open spec fn opens_as(
    r: Result<VideoDataset, FormatError>,
    dir: Seq<char>,
    media: Seq<ListedNameView>,
) -> bool {
    match first_undecodable(media, 0) {
        Some(path) => r matches Err(FormatError::ExpectUtf8FileName(p)) && p@ == path,
        None => {
            &&& r matches Ok(dataset)
            &&& dataset.dataset_dir@ == dir
            &&& names_match(names_of(dataset.video_names), media)
        },
    }
}

impl VideoDataset {
    /// The dataset at `dir`, where `media` are the entries of its folder
    /// `video`. Fails on the first entry whose name is not valid text.
    pub fn open(dir: &str, media: &Vec<ListedName>) -> (r: Result<VideoDataset, FormatError>)
        ensures
            opens_as(r, dir@, media.deep_view()),
    {
        let video_names = collect_names(media)?;
        Ok(VideoDataset { dataset_dir: String::from_str(dir), video_names })
    }

    /// The item named `video_name`, where the dataset has one.
    pub fn get_video(&self, video_name: &str) -> (r: Option<VideoData<'_>>)
        ensures
            match r {
                Some(item) => {
                    &&& names_of(self.video_names).contains(video_name@)
                    &&& item.video_name@ == video_name@
                    &&& item.dataset == self
                },
                None => !names_of(self.video_names).contains(video_name@),
            },
    {
        match find_name(&self.video_names, video_name) {
            Some(name) => Some(VideoData { video_name: name.as_str(), dataset: self }),
            None => None,
        }
    }
}

impl<'a> VideoData<'a> {
    /// The path of the annotation file.
    pub fn ann_path(&self) -> (r: String)
        ensures
            r@ == annotation_path(self.dataset.dataset_dir@, self.video_name@),
    {
        ann_path(self.dataset.dataset_dir.as_str(), self.video_name)
    }

    /// The annotation of the item, read from the contents of its annotation
    /// file. Nothing is kept from one call to the next.
    pub fn ann(&self, contents: &[u8]) -> (r: Result<VideoAnnotation, FormatError>)
        ensures
            loads_as(
                r,
                annotation_path(self.dataset.dataset_dir@, self.video_name@),
                contents@,
            ),
    {
        let path = self.ann_path();
        load_json::<VideoAnnotation>(path.as_str(), contents)
    }
}

} // verus!
