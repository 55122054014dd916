//! A dataset of images: the folder `img`, and one annotation file for each
//! of its items.

use super::{ClassicalDataset, DatasetKind, MediaKind};
use crate::annotations::ImageAnnotation;
use crate::dataset::classical::{ann_path, annotation_path, names_match};
use crate::error::FormatError;
use crate::names::{
    collect_names, find_name, first_undecodable, names_of, ListedName, ListedNameView,
};
use crate::utils::{load_json, loads_as};
use indexmap::IndexSet;
use vstd::prelude::*;
use vstd::std_specs::convert::FromSpecImpl;
use vstd::string::StringExecFns;

verus! {

/// A dataset of images: where it is, and the names of its items in the
/// order of strings, each once.
#[derive(Debug, Clone)]
pub struct ImageDataset {
    pub dataset_dir: String,
    pub image_names: IndexSet<String>,
}

/// An item of a dataset of images.
#[derive(Debug, Clone)]
pub struct ImageData<'a> {
    pub image_name: &'a str,
    pub dataset: &'a ImageDataset,
}

impl From<ImageDataset> for DatasetKind {
    fn from(v: ImageDataset) -> (r: Self) {
        DatasetKind::Classical(
            ClassicalDataset {
                dataset_dir: v.dataset_dir,
                media_kind: MediaKind::Image,
                media_names: v.image_names,
            },
        )
    }
}

impl FromSpecImpl<ImageDataset> for DatasetKind {
    open spec fn obeys_from_spec() -> bool {
        true
    }

    open spec fn from_spec(v: ImageDataset) -> Self {
        DatasetKind::Classical(
            ClassicalDataset {
                dataset_dir: v.dataset_dir,
                media_kind: MediaKind::Image,
                media_names: v.image_names,
            },
        )
    }
}

/// Whether `r` is what opening the dataset at `dir` gives, where `media`
/// are the entries of its folder `img`.
pub open spec fn opens_as(
    r: Result<ImageDataset, FormatError>,
    dir: Seq<char>,
    media: Seq<ListedNameView>,
) -> bool {
    match first_undecodable(media, 0) {
        Some(path) => r matches Err(FormatError::ExpectUtf8FileName(p)) && p@ == path,
        None => {
            &&& r matches Ok(dataset)
            &&& dataset.dataset_dir@ == dir
            &&& names_match(names_of(dataset.image_names), media)
        },
    }
}

impl ImageDataset {
    /// The dataset at `dir`, where `media` are the entries of its folder
    /// `img`. Fails on the first entry whose name is not valid text.
    pub fn open(dir: &str, media: &Vec<ListedName>) -> (r: Result<ImageDataset, FormatError>)
        ensures
            opens_as(r, dir@, media.deep_view()),
    {
        let image_names = collect_names(media)?;
        Ok(ImageDataset { dataset_dir: String::from_str(dir), image_names })
    }

    /// The item named `image_name`, where the dataset has one.
    pub fn get_image(&self, image_name: &str) -> (r: Option<ImageData<'_>>)
        ensures
            match r {
                Some(item) => {
                    &&& names_of(self.image_names).contains(image_name@)
                    &&& item.image_name@ == image_name@
                    &&& item.dataset == self
                },
                None => !names_of(self.image_names).contains(image_name@),
            },
    {
        match find_name(&self.image_names, image_name) {
            Some(name) => Some(ImageData { image_name: name.as_str(), dataset: self }),
            None => None,
        }
    }
}

impl<'a> ImageData<'a> {
    /// The path of the annotation file.
    pub fn ann_path(&self) -> (r: String)
        ensures
            r@ == annotation_path(self.dataset.dataset_dir@, self.image_name@),
    {
        ann_path(self.dataset.dataset_dir.as_str(), self.image_name)
    }

    /// The annotation of the item, read from the contents of its annotation
    /// file. Nothing is kept from one call to the next.
    pub fn ann(&self, contents: &[u8]) -> (r: Result<ImageAnnotation, FormatError>)
        ensures
            loads_as(
                r,
                annotation_path(self.dataset.dataset_dir@, self.image_name@),
                contents@,
            ),
    {
        let path = self.ann_path();
        load_json::<ImageAnnotation>(path.as_str(), contents)
    }
}

} // verus!
