//! The two documents of an episode in their loose form: the frame map as a
//! plain map, and the annotation with its lists left as JSON.

use crate::error::SchemaError;
use crate::frames::{
    entries_of_members, file_of, frame_map_of_json, lemma_entries_fail, lemma_with_entry,
    parse_index, with_entry,
};
use crate::json::{required_as, Json, JsonView};
use crate::wire::{decode_member, reader, Decode};
use std::collections::HashMap;
use vstd::prelude::*;

verus! {

/// Which file holds the point cloud of each frame.
#[derive(Default, Debug, Clone, PartialEq, Eq)]
pub struct FramePointcloudMap {
    pub map: HashMap<u64, String>,
}

/// Whether a map holds what the entries give: for each index the file of
/// its last entry, and nothing else.
pub open spec fn holds_entries(map: Map<u64, String>, entries: Seq<(u64, Seq<char>)>) -> bool {
    forall|key: u64| #[trigger]
        file_of(entries, key) == if map.contains_key(key) {
            Some(map[key]@)
        } else {
            None
        }
}

impl FramePointcloudMap {
    /// Reads a frame map from a JSON object: each member names a frame by
    /// its index and gives the file of its point cloud.
    pub fn decode(j: &Json) -> (r: Result<FramePointcloudMap, SchemaError>)
        ensures
            match r {
                Ok(frames) => frame_map_of_json(j.deep_view()) is Ok && holds_entries(
                    frames.map@,
                    frame_map_of_json(j.deep_view())->Ok_0,
                ),
                Err(e) => frame_map_of_json(j.deep_view()) == Err::<
                    Seq<(u64, Seq<char>)>,
                    SchemaError,
                >(e),
            },
    {
        broadcast use vstd::std_specs::hash::group_hash_axioms;

        match j {
            Json::Object(members) => {
                let ghost model = j.deep_view()->Object_0;
                let mut map: HashMap<u64, String> = HashMap::new();
                let mut i: usize = 0;
                while i < members.len()
                    invariant
                        i <= members.len(),
                        j.deep_view() == JsonView::Object(model),
                        model.len() == members.len(),
                        forall|k: int|
                            0 <= k < members.len() ==> #[trigger] model[k] == (
                                members[k].0@,
                                members[k].1.deep_view(),
                            ),
                        entries_of_members(model, i as int) is Ok,
                        holds_entries(map@, entries_of_members(model, i as int)->Ok_0),
                    decreases members.len() - i,
                {
                    assert(model[i as int] == (
                        members[i as int].0@,
                        members[i as int].1.deep_view(),
                    ));
                    let key = parse_index(members[i].0.as_str());
                    match (key, &members[i].1) {
                        (Some(key), Json::Text(file)) => {
                            let ghost before = entries_of_members(model, i as int)->Ok_0;
                            let ghost old_map = map@;
                            map.insert(key, file.clone());
                            proof {
                                assert forall|other: u64| #[trigger]
                                    file_of(with_entry(before, key, file@), other) == if map@.contains_key(
                                        other,
                                    ) {
                                        Some(map@[other]@)
                                    } else {
                                        None
                                    } by {
                                    lemma_with_entry(before, key, file@, other);
                                    assert(file_of(before, other) == if old_map.contains_key(
                                        other,
                                    ) {
                                        Some(old_map[other]@)
                                    } else {
                                        None
                                    });
                                }
                            }
                        },
                        _ => {
                            proof {
                                lemma_entries_fail(model, i as int, model.len() as int);
                            }
                            return Err(SchemaError::InvalidType);
                        },
                    }
                    i += 1;
                }
                Ok(FramePointcloudMap { map })
            },
            _ => Err(SchemaError::InvalidType),
        }
    }
}

/// The annotation of an episode with its tags, objects and frames left as
/// the JSON they are.
#[derive(Debug, Clone, PartialEq, Eq)]
pub struct EpisodeAnnotation {
    pub description: String,
    pub tags: Vec<Json>,
    pub objects: Vec<Json>,
    pub frames_count: u64,
    pub frames: Vec<Json>,
}

/// The model of an [`EpisodeAnnotation`].
pub struct EpisodeAnnotationView {
    pub description: Seq<char>,
    pub tags: Seq<JsonView>,
    pub objects: Seq<JsonView>,
    pub frames_count: u64,
    pub frames: Seq<JsonView>,
}

impl DeepView for EpisodeAnnotation {
    type V = EpisodeAnnotationView;

    open spec fn deep_view(&self) -> EpisodeAnnotationView {
        EpisodeAnnotationView {
            description: self.description@,
            tags: self.tags.deep_view(),
            objects: self.objects.deep_view(),
            frames_count: self.frames_count,
            frames: self.frames.deep_view(),
        }
    }
}

impl Default for EpisodeAnnotation {
    fn default() -> (r: EpisodeAnnotation)
        ensures
            r.description@.len() == 0,
            r.tags@.len() == 0,
            r.objects@.len() == 0,
            r.frames_count == 0,
            r.frames@.len() == 0,
    {
        EpisodeAnnotation {
            description: String::new(),
            tags: Vec::new(),
            objects: Vec::new(),
            frames_count: 0,
            frames: Vec::new(),
        }
    }
}

impl Decode for EpisodeAnnotation {
    open spec fn read(j: JsonView) -> Result<EpisodeAnnotationView, SchemaError> {
        let description = j.req_text("description"@);
        let tags = required_as(j.required("tags"@), reader::<Vec<Json>>());
        let objects = required_as(j.required("objects"@), reader::<Vec<Json>>());
        let frames_count = j.req_u64("framesCount"@);
        let frames = required_as(j.required("frames"@), reader::<Vec<Json>>());
        if description is Err {
            Err(description->Err_0)
        } else if tags is Err {
            Err(tags->Err_0)
        } else if objects is Err {
            Err(objects->Err_0)
        } else if frames_count is Err {
            Err(frames_count->Err_0)
        } else if frames is Err {
            Err(frames->Err_0)
        } else {
            Ok(
                EpisodeAnnotationView {
                    description: description->Ok_0,
                    tags: tags->Ok_0,
                    objects: objects->Ok_0,
                    frames_count: frames_count->Ok_0,
                    frames: frames->Ok_0,
                },
            )
        }
    }

    /// Reads the annotation of an episode, keeping its lists as JSON.
    fn decode(j: &Json) -> (r: Result<EpisodeAnnotation, SchemaError>) {
        let description = j.req_text("description")?;
        let tags = decode_member::<Vec<Json>>(j, "tags")?;
        let objects = decode_member::<Vec<Json>>(j, "objects")?;
        let frames_count = j.req_u64("framesCount")?;
        let frames = decode_member::<Vec<Json>>(j, "frames")?;
        Ok(EpisodeAnnotation { description, tags, objects, frames_count, frames })
    }
}

} // verus!
