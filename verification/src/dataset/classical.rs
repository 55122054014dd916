//! A classical dataset: one folder of media, and one annotation file for
//! each of its items.

use super::{media_dir_name, single_media_kind, DatasetKind, MediaKind};
use crate::annotations::{
    ImageAnnotation, MediaAnnotation, PointCloudAnnotation, VideoAnnotation,
};
use crate::error::FormatError;
use crate::json::parsed_json;
use crate::names::{
    collect_names, find_name, first_undecodable, names_of, strictly_sorted, ListedName,
    ListedNameView,
};
use crate::text::{join_path, joined};
use crate::utils::load_json;
use crate::wire::Decode;
use indexmap::IndexSet;
use vstd::prelude::*;
use vstd::std_specs::convert::FromSpecImpl;
use vstd::string::StringExecFns;

verus! {

/// A classical dataset: where it is, what kind of media it holds, and the
/// names of its items in the order of strings, each once.
#[derive(Debug, Clone)]
pub struct ClassicalDataset {
    pub dataset_dir: String,
    pub media_kind: MediaKind,
    pub media_names: IndexSet<String>,
}

/// An item of a classical dataset.
#[derive(Debug, Clone)]
pub struct ClassicalMedia<'a> {
    pub media_name: &'a str,
    pub dataset: &'a ClassicalDataset,
}

impl From<ClassicalDataset> for DatasetKind {
    fn from(v: ClassicalDataset) -> (r: Self) {
        DatasetKind::Classical(v)
    }
}

impl FromSpecImpl<ClassicalDataset> for DatasetKind {
    open spec fn obeys_from_spec() -> bool {
        true
    }

    open spec fn from_spec(v: ClassicalDataset) -> Self {
        DatasetKind::Classical(v)
    }
}

/// Whether the names of a set are those of the entries of a media folder:
/// in the order of strings, each once, none left out and none added.
pub open spec fn names_match(names: Seq<Seq<char>>, media: Seq<ListedNameView>) -> bool {
    &&& strictly_sorted(names)
    &&& forall|name: Seq<char>|
        names.contains(name) <==> media.contains(ListedNameView::Text(name))
}

/// Whether `r` is what opening the classical dataset at `dir` gives, where
/// `children` are the names in `dir` and `media` the entries of its media
/// folder.
pub open spec fn opens_as(
    r: Result<ClassicalDataset, FormatError>,
    dir: Seq<char>,
    children: Seq<Seq<char>>,
    media: Seq<ListedNameView>,
) -> bool {
    match single_media_kind(children) {
        Some(kind) => match first_undecodable(media, 0) {
            Some(path) => r matches Err(FormatError::ExpectUtf8FileName(p)) && p@ == path,
            None => {
                &&& r matches Ok(dataset)
                &&& dataset.dataset_dir@ == dir
                &&& dataset.media_kind == kind
                &&& names_match(names_of(dataset.media_names), media)
            },
        },
        None => r matches Err(FormatError::ExpectSingleMediaDirectory(p)) && p@ == dir,
    }
}

/// The path of the annotation of the item `name` of the dataset at `dir`.
pub open spec fn annotation_path(dir: Seq<char>, name: Seq<char>) -> Seq<char> {
    joined(joined(dir, "ann"@), name + ".json"@)
}

/// The path of the annotation of the item `name` of the dataset at `dir`.
pub fn ann_path(dir: &str, name: &str) -> (r: String)
    ensures
        r@ == annotation_path(dir@, name@),
{
    let mut file = String::from_str(name);
    file.append(".json");
    let folder = join_path(dir, "ann");
    join_path(folder.as_str(), file.as_str())
}

/// Whether `r` is what loading the annotation of an item of the kind
/// `kind` gives, where the file at `path` holds `contents`.
pub open spec fn annotation_loads_as(
    r: Result<MediaAnnotation, FormatError>,
    kind: MediaKind,
    path: Seq<char>,
    contents: Seq<u8>,
) -> bool {
    match parsed_json(contents) {
        Some(tree) => match kind {
            MediaKind::Image => match ImageAnnotation::read(tree) {
                Ok(a) => r matches Ok(MediaAnnotation::Image(x)) && x.deep_view() == a,
                Err(kind) => r matches Err(FormatError::SchemaError { path: p, kind: k }) && p@
                    == path && k == kind,
            },
            MediaKind::Video => match VideoAnnotation::read(tree) {
                Ok(a) => r matches Ok(MediaAnnotation::Video(x)) && x.deep_view() == a,
                Err(kind) => r matches Err(FormatError::SchemaError { path: p, kind: k }) && p@
                    == path && k == kind,
            },
            MediaKind::PointCloud => match PointCloudAnnotation::read(tree) {
                Ok(a) => r matches Ok(MediaAnnotation::PointCloud(x)) && x.deep_view() == a,
                Err(kind) => r matches Err(FormatError::SchemaError { path: p, kind: k }) && p@
                    == path && k == kind,
            },
        },
        None => r matches Err(FormatError::ParseJsonFileError { path: p, error: _ }) && p@ == path,
    }
}

/// The annotation of an item whose media is of the kind `kind`, read from
/// the contents of its annotation file, which is at `path`.
pub fn load_annotation(kind: MediaKind, path: &str, contents: &[u8]) -> (r: Result<
    MediaAnnotation,
    FormatError,
>)
    ensures
        annotation_loads_as(r, kind, path@, contents@),
{
    match kind {
        MediaKind::Image => match load_json::<ImageAnnotation>(path, contents) {
            Ok(a) => Ok(MediaAnnotation::Image(a)),
            Err(e) => Err(e),
        },
        MediaKind::Video => match load_json::<VideoAnnotation>(path, contents) {
            Ok(a) => Ok(MediaAnnotation::Video(a)),
            Err(e) => Err(e),
        },
        MediaKind::PointCloud => match load_json::<PointCloudAnnotation>(path, contents) {
            Ok(a) => Ok(MediaAnnotation::PointCloud(a)),
            Err(e) => Err(e),
        },
    }
}

impl ClassicalDataset {
    /// The classical dataset at `dir`, where `children` are the names in
    /// `dir` and `media` the entries of its media folder. Fails where not
    /// exactly one media folder is there, and on the first entry whose name
    /// is not valid text.
    pub fn open(dir: &str, children: &Vec<String>, media: &Vec<ListedName>) -> (r: Result<
        ClassicalDataset,
        FormatError,
    >)
        ensures
            opens_as(r, dir@, children.deep_view(), media.deep_view()),
    {
        let media_kind = MediaKind::detect(dir, children)?;
        let media_names = collect_names(media)?;
        Ok(ClassicalDataset { dataset_dir: String::from_str(dir), media_kind, media_names })
    }

    /// The item named `media_name`, where the dataset has one.
    pub fn get_media(&self, media_name: &str) -> (r: Option<ClassicalMedia<'_>>)
        ensures
            match r {
                Some(media) => {
                    &&& names_of(self.media_names).contains(media_name@)
                    &&& media.media_name@ == media_name@
                    &&& media.dataset == self
                },
                None => !names_of(self.media_names).contains(media_name@),
            },
    {
        match find_name(&self.media_names, media_name) {
            Some(name) => Some(ClassicalMedia { media_name: name.as_str(), dataset: self }),
            None => None,
        }
    }
}

impl<'a> ClassicalMedia<'a> {
    /// The path of the media file.
    pub fn media_path(&self) -> (r: String)
        ensures
            r@ == joined(
                joined(self.dataset.dataset_dir@, media_dir_name(self.dataset.media_kind)),
                self.media_name@,
            ),
    {
        let folder = join_path(
            self.dataset.dataset_dir.as_str(),
            self.dataset.media_kind.dir_name(),
        );
        join_path(folder.as_str(), self.media_name)
    }

    /// The path of the annotation file.
    pub fn ann_path(&self) -> (r: String)
        ensures
            r@ == annotation_path(self.dataset.dataset_dir@, self.media_name@),
    {
        ann_path(self.dataset.dataset_dir.as_str(), self.media_name)
    }

    /// The annotation of the item, read from the contents of its annotation
    /// file as the kind of the dataset's media calls for. Nothing is kept
    /// from one call to the next.
    pub fn ann(&self, contents: &[u8]) -> (r: Result<MediaAnnotation, FormatError>)
        ensures
            annotation_loads_as(
                r,
                self.dataset.media_kind,
                annotation_path(self.dataset.dataset_dir@, self.media_name@),
                contents@,
            ),
    {
        let path = self.ann_path();
        load_annotation(self.dataset.media_kind, path.as_str(), contents)
    }
}

} // verus!
