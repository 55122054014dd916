//! An episode of point clouds: a map from frame index to file, and one
//! annotation for the whole episode.

use super::DatasetKind;
use crate::annotations::{Frame, PointCloudEpisodeAnnotation};
use crate::error::FormatError;
use crate::frames::{
    decode_frame_map, file_of, find_frame, frame_key_at, frame_map_of_json,
    frames_of,
};
use crate::json::parsed_json;
use crate::text::{join_path, joined};
use crate::utils::{load_json, parse_json};
use crate::wire::Decode;
use indexmap::IndexMap;
use vstd::prelude::*;
use vstd::std_specs::convert::FromSpecImpl;
use vstd::string::StringExecFns;

verus! {

/// An episode: where it is, which file holds the point cloud of each frame,
/// and the annotation of the episode.
#[derive(Debug, Clone)]
pub struct PointCloudEpisodeDataset {
    pub dataset_dir: String,
    pub frame_point_map: IndexMap<u64, String>,
    pub annotation: PointCloudEpisodeAnnotation,
}

/// A frame of an episode: its index, the file of its point cloud and its
/// figures.
#[derive(Debug, Clone)]
pub struct FrameData<'a> {
    pub id: u64,
    pub file_name: &'a str,
    pub annotation: &'a Frame,
}

impl From<PointCloudEpisodeDataset> for DatasetKind {
    fn from(v: PointCloudEpisodeDataset) -> (r: Self) {
        DatasetKind::PointCloudEpisode(v)
    }
}

impl FromSpecImpl<PointCloudEpisodeDataset> for DatasetKind {
    open spec fn obeys_from_spec() -> bool {
        true
    }

    open spec fn from_spec(v: PointCloudEpisodeDataset) -> Self {
        DatasetKind::PointCloudEpisode(v)
    }
}

/// Whether `r` is what opening the episode at `dir` gives, where its two
/// files hold `frame_map` and `annotation`. The frame map is read first.
pub open spec fn opens_as(
    r: Result<PointCloudEpisodeDataset, FormatError>,
    dir: Seq<char>,
    frame_map: Seq<u8>,
    annotation: Seq<u8>,
) -> bool {
    let map_path = joined(dir, "frame_pointcloud_map.json"@);
    let annotation_path = joined(dir, "annotation.json"@);
    match parsed_json(frame_map) {
        Some(map_tree) => match frame_map_of_json(map_tree) {
            Ok(entries) => match parsed_json(annotation) {
                Some(tree) => match PointCloudEpisodeAnnotation::read(tree) {
                    Ok(document) => {
                        &&& r matches Ok(dataset)
                        &&& dataset.dataset_dir@ == dir
                        &&& frames_of(dataset.frame_point_map) == entries
                        &&& dataset.annotation.deep_view() == document
                    },
                    Err(kind) => r matches Err(FormatError::SchemaError { path: p, kind: k })
                        && p@ == annotation_path && k == kind,
                },
                None => r matches Err(FormatError::ParseJsonFileError { path: p, error: _ })
                    && p@ == annotation_path,
            },
            Err(kind) => r matches Err(FormatError::SchemaError { path: p, kind: k }) && p@
                == map_path && k == kind,
        },
        None => r matches Err(FormatError::ParseJsonFileError { path: p, error: _ }) && p@
            == map_path,
    }
}

impl PointCloudEpisodeDataset {
    /// The episode at `dir`, from the contents of its frame map and of its
    /// annotation. Both are read in full.
    pub fn open(dir: &str, frame_map: &Vec<u8>, annotation: &Vec<u8>) -> (r: Result<
        PointCloudEpisodeDataset,
        FormatError,
    >)
        ensures
            opens_as(r, dir@, frame_map@, annotation@),
    {
        let map_path = join_path(dir, "frame_pointcloud_map.json");
        let map_tree = parse_json(map_path.as_str(), frame_map.as_slice())?;
        let frame_point_map = match decode_frame_map(&map_tree) {
            Ok(map) => map,
            Err(kind) => {
                return Err(FormatError::schema_error(map_path.as_str(), kind));
            },
        };
        let annotation_path = join_path(dir, "annotation.json");
        let annotation = load_json::<PointCloudEpisodeAnnotation>(
            annotation_path.as_str(),
            annotation.as_slice(),
        )?;
        Ok(
            PointCloudEpisodeDataset {
                dataset_dir: String::from_str(dir),
                frame_point_map,
                annotation,
            },
        )
    }

    /// The indices of the frames, in the order of the frame map.
    pub fn frame_id_iter(&self) -> (r: Vec<u64>)
        ensures
            r@.len() == frames_of(self.frame_point_map).len(),
            forall|i: int| 0 <= i < r@.len() ==> r@[i] == frames_of(self.frame_point_map)[i].0,
    {
        let mut ids: Vec<u64> = Vec::new();
        let mut i: usize = 0;
        loop
            invariant
                i <= frames_of(self.frame_point_map).len(),
                ids@.len() == i,
                forall|k: int| 0 <= k < i ==> ids@[k] == frames_of(self.frame_point_map)[k].0,
            ensures
                i == frames_of(self.frame_point_map).len(),
                ids@.len() == i,
                forall|k: int| 0 <= k < i ==> ids@[k] == frames_of(self.frame_point_map)[k].0,
            decreases frames_of(self.frame_point_map).len() - i,
        {
            match frame_key_at(&self.frame_point_map, i) {
                Some(key) => {
                    ids.push(key);
                    i = ids.len();
                },
                None => {
                    break ;
                },
            }
        }
        ids
    }

    /// Whether the annotation holds the frame `id` at its own position.
    pub open spec fn holds_frame(&self, id: u64) -> bool {
        id < self.annotation.frames.len() && self.annotation.frames[id as int].index == id
    }

    /// The frame `id`: the file that the frame map gives for it, with the
    /// frame at position `id` of the annotation. `None` where the frame map
    /// does not name `id`, and where the annotation does not hold that
    /// frame at its own position.
    pub fn get_frame(&self, id: u64) -> (r: Option<FrameData<'_>>)
        ensures
            match r {
                Some(frame) => {
                    &&& file_of(frames_of(self.frame_point_map), id) == Some(frame.file_name@)
                    &&& self.holds_frame(id)
                    &&& frame.id == id
                    &&& *frame.annotation == self.annotation.frames[id as int]
                },
                None => file_of(frames_of(self.frame_point_map), id) is None || !self.holds_frame(
                    id,
                ),
            },
    {
        let file_name = match find_frame(&self.frame_point_map, id) {
            Some(file_name) => file_name,
            None => {
                return None;
            },
        };
        if id >= self.annotation.frames.len() as u64 {
            return None;
        }
        let annotation = &self.annotation.frames[id as usize];
        if annotation.index != id {
            return None;
        }
        Some(FrameData { id, file_name: file_name.as_str(), annotation })
    }
}

} // verus!
