//! Datasets: a directory whose layout says which of the four kinds it is.

pub mod classical;
pub mod image;
pub mod point_cloud;
pub mod point_cloud_episode;
pub mod video;

pub use classical::{ClassicalDataset, ClassicalMedia};
pub use image::{ImageData, ImageDataset};
pub use point_cloud::{PointCloudData, PointCloudDataset};
pub use point_cloud_episode::{FrameData, PointCloudEpisodeDataset};
pub use video::{VideoData, VideoDataset};

use crate::error::FormatError;
use crate::names::ListedName;
use crate::text::same_text;
use vstd::prelude::*;
use vstd::string::StrSliceExecFns;
use vstd::string::StringExecFns;

verus! {

/// The kind of media that a classical dataset holds.
#[derive(Debug, Clone, Copy, PartialEq, Eq, Structural)]
pub enum MediaKind {
    Image,
    Video,
    PointCloud,
}

/// The name of the folder that holds the media of a kind.
pub open spec fn media_dir_name(kind: MediaKind) -> Seq<char> {
    match kind {
        MediaKind::Image => "img"@,
        MediaKind::Video => "video"@,
        MediaKind::PointCloud => "pointcloud"@,
    }
}

impl MediaKind {
    /// The name of the folder that holds the media of this kind.
    pub fn dir_name(&self) -> (r: &'static str)
        ensures
            r@ == media_dir_name(*self),
    {
        match self {
            MediaKind::Image => "img",
            MediaKind::Video => "video",
            MediaKind::PointCloud => "pointcloud",
        }
    }
}

/// What the children of a directory say it is.
#[derive(Debug, Clone, Copy, PartialEq, Eq, Structural)]
pub enum DatasetLayout {
    PointCloudEpisode,
    Classical(MediaKind),
}

/// The one kind of media whose folder is among `children`, where exactly
/// one of the three folders is.
pub open spec fn single_media_kind(children: Seq<Seq<char>>) -> Option<MediaKind> {
    let image = children.contains("img"@);
    let video = children.contains("video"@);
    let point_cloud = children.contains("pointcloud"@);
    if image && !video && !point_cloud {
        Some(MediaKind::Image)
    } else if !image && video && !point_cloud {
        Some(MediaKind::Video)
    } else if !image && !video && point_cloud {
        Some(MediaKind::PointCloud)
    } else {
        None
    }
}

/// The layout that the children of a directory make up. The frame map of
/// an episode decides first; without it, exactly one media folder has to
/// be there.
pub open spec fn layout_of(children: Seq<Seq<char>>) -> Option<DatasetLayout> {
    if children.contains("frame_pointcloud_map.json"@) {
        Some(DatasetLayout::PointCloudEpisode)
    } else {
        match single_media_kind(children) {
            Some(kind) => Some(DatasetLayout::Classical(kind)),
            None => None,
        }
    }
}

/// Whether `name` is among `names`.
pub fn has_name(names: &Vec<String>, name: &str) -> (r: bool)
    ensures
        r == names.deep_view().contains(name@),
{
    let mut i: usize = 0;
    while i < names.len()
        invariant
            i <= names.len(),
            forall|k: int| 0 <= k < i ==> names.deep_view()[k] != name@,
        decreases names.len() - i,
    {
        assert(names.deep_view()[i as int] == names[i as int]@);
        if same_text(names[i].as_str(), name) {
            return true;
        }
        i += 1;
    }
    false
}

impl MediaKind {
    /// The kind of media of the dataset at `dir`, whose children are
    /// `children`: the one whose folder is there. Fails where none or more
    /// than one of the three folders is there.
    pub fn detect(dir: &str, children: &Vec<String>) -> (r: Result<MediaKind, FormatError>)
        ensures
            match r {
                Ok(kind) => single_media_kind(children.deep_view()) == Some(kind),
                Err(e) => {
                    &&& single_media_kind(children.deep_view()) is None
                    &&& e matches FormatError::ExpectSingleMediaDirectory(path)
                    &&& path@ == dir@
                },
            },
    {
        let image = has_name(children, MediaKind::Image.dir_name());
        let video = has_name(children, MediaKind::Video.dir_name());
        let point_cloud = has_name(children, MediaKind::PointCloud.dir_name());
        if image && !video && !point_cloud {
            Ok(MediaKind::Image)
        } else if !image && video && !point_cloud {
            Ok(MediaKind::Video)
        } else if !image && !video && point_cloud {
            Ok(MediaKind::PointCloud)
        } else {
            Err(FormatError::expect_single_media_folder(dir))
        }
    }
}

/// The length of a path without what trails its last component: slashes,
/// and components that are a single dot.
pub open spec fn trimmed_len(path: Seq<char>) -> int
    decreases path.len(),
{
    if path.len() > 0 && path.last() == '/' {
        trimmed_len(path.drop_last())
    } else if path.len() >= 2 && path.last() == '.' && path[path.len() - 2] == '/' {
        trimmed_len(path.drop_last())
    } else {
        path.len() as int
    }
}

/// Where the component that ends at `end` begins: behind the last slash
/// before `end`, or at the start of the path.
pub open spec fn component_start(path: Seq<char>, end: int) -> int
    decreases end,
{
    if end > 0 && end <= path.len() && path[end - 1] != '/' {
        component_start(path, end - 1)
    } else {
        end
    }
}

/// The name of the directory that a path leads to: its last component,
/// with trailing slashes and trailing single-dot components passed over.
/// A path that ends in no name (the root, `..`, a lone `.`, nothing at all)
/// has none.
pub open spec fn dir_name_of(path: Seq<char>) -> Option<Seq<char>> {
    let end = trimmed_len(path);
    let start = component_start(path, end);
    let name = path.subrange(start, end);
    if name.len() == 0 || name == "."@ || name == ".."@ {
        None
    } else {
        Some(name)
    }
}

proof fn lemma_component_bounds(path: Seq<char>, end: int)
    requires
        0 <= end <= path.len(),
    ensures
        0 <= component_start(path, end) <= end,
    decreases end,
{
    if end > 0 && path[end - 1] != '/' {
        lemma_component_bounds(path, end - 1);
    }
}

/// The name of the directory that `dir` leads to.
pub fn get_dir_name(dir: &str) -> (r: Option<&str>)
    ensures
        match r {
            Some(name) => dir_name_of(dir@) == Some(name@),
            None => dir_name_of(dir@) is None,
        },
{
    let mut end = dir.unicode_len();
    assert(dir@.take(end as int) =~= dir@);
    loop
        invariant
            end <= dir@.len(),
            trimmed_len(dir@) == trimmed_len(dir@.take(end as int)),
        ensures
            end <= dir@.len(),
            trimmed_len(dir@) == end,
        decreases end,
    {
        let ghost rest = dir@.take(end as int);
        if end == 0 {
            break ;
        }
        let last = dir.get_char(end - 1);
        assert(rest.last() == last);
        let trails = if last == '/' {
            true
        } else if last == '.' && end >= 2 {
            assert(rest[rest.len() - 2] == dir@[end - 2]);
            dir.get_char(end - 2) == '/'
        } else {
            false
        };
        if !trails {
            break ;
        }
        assert(rest.drop_last() =~= dir@.take(end - 1));
        end -= 1;
    }
    let mut start = end;
    while start > 0 && dir.get_char(start - 1) != '/'
        invariant
            start <= end <= dir@.len(),
            component_start(dir@, end as int) == component_start(dir@, start as int),
        decreases start,
    {
        start -= 1;
    }
    let name = dir.substring_char(start, end);
    if start == end || same_text(name, ".") || same_text(name, "..") {
        None
    } else {
        Some(name)
    }
}

/// What was read from a dataset directory: the names of its children and,
/// as its layout calls for, either the entries of its media folder or the
/// contents of the two files of an episode. What the layout does not call
/// for is left empty.
#[derive(Debug, Clone, PartialEq, Eq)]
pub struct DatasetFiles {
    pub children: Vec<String>,
    pub media: Vec<ListedName>,
    pub frame_map: Vec<u8>,
    pub annotation: Vec<u8>,
}

/// A dataset by its kind.
#[derive(Debug, Clone)]
pub enum DatasetKind {
    Classical(ClassicalDataset),
    PointCloudEpisode(PointCloudEpisodeDataset),
}

/// A dataset of a project.
#[derive(Debug, Clone)]
pub struct Dataset {
    pub name: String,
    pub kind: DatasetKind,
}

impl Dataset {
    /// The layout of the dataset at `dir`, whose children are `children`.
    /// Fails where there is no frame map and not exactly one media folder.
    pub fn classify(dir: &str, children: &Vec<String>) -> (r: Result<DatasetLayout, FormatError>)
        ensures
            match r {
                Ok(layout) => layout_of(children.deep_view()) == Some(layout),
                Err(e) => {
                    &&& layout_of(children.deep_view()) is None
                    &&& e matches FormatError::ExpectSingleMediaDirectory(path)
                    &&& path@ == dir@
                },
            },
    {
        if has_name(children, "frame_pointcloud_map.json") {
            Ok(DatasetLayout::PointCloudEpisode)
        } else {
            match MediaKind::detect(dir, children) {
                Ok(kind) => Ok(DatasetLayout::Classical(kind)),
                Err(e) => Err(e),
            }
        }
    }

    /// The dataset at `dir`, from what was read there. Its name is the name
    /// of the directory, or empty where the path ends in none; its kind is
    /// what the layout of the children says.
    pub fn open(dir: &str, files: &DatasetFiles) -> (r: Result<Dataset, FormatError>)
        ensures
            match layout_of(files.children.deep_view()) {
                Some(DatasetLayout::PointCloudEpisode) => match r {
                    Ok(dataset) => {
                        &&& dataset.kind matches DatasetKind::PointCloudEpisode(episode)
                        &&& point_cloud_episode::opens_as(
                            Ok(episode),
                            dir@,
                            files.frame_map@,
                            files.annotation@,
                        )
                        &&& dataset.name@ == dir_name_of(dir@).unwrap_or(Seq::empty())
                    },
                    Err(e) => point_cloud_episode::opens_as(
                        Err(e),
                        dir@,
                        files.frame_map@,
                        files.annotation@,
                    ),
                },
                Some(DatasetLayout::Classical(kind)) => match r {
                    Ok(dataset) => {
                        &&& dataset.kind matches DatasetKind::Classical(classical)
                        &&& classical::opens_as(
                            Ok(classical),
                            dir@,
                            files.children.deep_view(),
                            files.media.deep_view(),
                        )
                        &&& dataset.name@ == dir_name_of(dir@).unwrap_or(Seq::empty())
                    },
                    Err(e) => classical::opens_as(
                        Err(e),
                        dir@,
                        files.children.deep_view(),
                        files.media.deep_view(),
                    ),
                },
                None => r matches Err(FormatError::ExpectSingleMediaDirectory(path)) && path@
                    == dir@,
            },
    {
        let name = match get_dir_name(dir) {
            Some(name) => String::from_str(name),
            None => String::new(),
        };
        match Dataset::classify(dir, &files.children) {
            Ok(DatasetLayout::PointCloudEpisode) => {
                match PointCloudEpisodeDataset::open(dir, &files.frame_map, &files.annotation) {
                    Ok(episode) => Ok(Dataset { name, kind: DatasetKind::PointCloudEpisode(episode) }),
                    Err(e) => Err(e),
                }
            },
            Ok(DatasetLayout::Classical(_)) => {
                match ClassicalDataset::open(dir, &files.children, &files.media) {
                    Ok(classical) => Ok(Dataset { name, kind: DatasetKind::Classical(classical) }),
                    Err(e) => Err(e),
                }
            },
            Err(e) => Err(e),
        }
    }
}

/// A directory that holds the frame map of an episode is an episode,
/// whatever media folders stand beside the map.
pub proof fn lemma_frame_map_decides(children: Seq<Seq<char>>)
    requires
        children.contains("frame_pointcloud_map.json"@),
    ensures
        layout_of(children) == Some(DatasetLayout::PointCloudEpisode),
{
}

/// Without a frame map, a directory that holds two of the media folders has
/// no layout.
pub proof fn lemma_two_media_folders(children: Seq<Seq<char>>, one: MediaKind, other: MediaKind)
    requires
        !children.contains("frame_pointcloud_map.json"@),
        one != other,
        children.contains(media_dir_name(one)),
        children.contains(media_dir_name(other)),
    ensures
        layout_of(children) is None,
{
}

/// Without a frame map, a directory that holds none of the media folders
/// has no layout.
pub proof fn lemma_no_media_folder(children: Seq<Seq<char>>)
    requires
        !children.contains("frame_pointcloud_map.json"@),
        !children.contains("img"@),
        !children.contains("video"@),
        !children.contains("pointcloud"@),
    ensures
        layout_of(children) is None,
{
}

/// Without a frame map, a directory that holds exactly one of the media
/// folders is a classical dataset of that kind.
pub proof fn lemma_single_media_folder(children: Seq<Seq<char>>, kind: MediaKind)
    requires
        !children.contains("frame_pointcloud_map.json"@),
        forall|k: MediaKind| children.contains(media_dir_name(k)) <==> k == kind,
    ensures
        layout_of(children) == Some(DatasetLayout::Classical(kind)),
{
    assert(children.contains(media_dir_name(MediaKind::Image)) <==> MediaKind::Image == kind);
    assert(children.contains(media_dir_name(MediaKind::Video)) <==> MediaKind::Video == kind);
    assert(children.contains(media_dir_name(MediaKind::PointCloud)) <==> MediaKind::PointCloud
        == kind);
}

} // verus!
