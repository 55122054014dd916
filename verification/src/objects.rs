//! Objects of an image annotation: an identity with a shape, flattened into
//! one JSON object.

use crate::error::SchemaError;
use crate::geometry::{geometry_members, geometry_of_json, Geometry, GeometryView};
use crate::json::{
    built, decoded, json_of_option, json_of_usize, lemma_built, members_view, present,
    push_present, Json, JsonView,
};
use crate::wire::{Decode, Encode};
use vstd::prelude::*;

verus! {

/// A labelled object of an image: who it is, and its shape.
#[derive(Debug, Clone, PartialEq, Eq)]
pub struct Object {
    pub id: usize,
    pub class_id: Option<usize>,
    pub labeler_login: Option<String>,
    pub created_at: Option<String>,
    pub updated_at: Option<String>,
    pub geometry: Geometry,
}

/// The model of an [`Object`].
pub struct ObjectView {
    pub id: usize,
    pub class_id: Option<usize>,
    pub labeler_login: Option<Seq<char>>,
    pub created_at: Option<Seq<char>>,
    pub updated_at: Option<Seq<char>>,
    pub geometry: GeometryView,
}

impl DeepView for Object {
    type V = ObjectView;

    open spec fn deep_view(&self) -> ObjectView {
        ObjectView {
            id: self.id,
            class_id: self.class_id,
            labeler_login: self.labeler_login.deep_view(),
            created_at: self.created_at.deep_view(),
            updated_at: self.updated_at.deep_view(),
            geometry: self.geometry.deep_view(),
        }
    }
}

/// The object that a JSON object stands for. Its own members and those of
/// its shape stand side by side; the class reference is kept as it is read.
pub open spec fn object_of_json(j: JsonView) -> Result<ObjectView, SchemaError> {
    let id = j.req_usize("id"@);
    let class_id = j.opt_usize("classId"@);
    let labeler_login = j.opt_text("labelerLogin"@);
    let created_at = j.opt_text("createdAt"@);
    let updated_at = j.opt_text("updatedAt"@);
    let geometry = geometry_of_json(j);
    if id is Err {
        Err(id->Err_0)
    } else if class_id is Err {
        Err(class_id->Err_0)
    } else if labeler_login is Err {
        Err(labeler_login->Err_0)
    } else if created_at is Err {
        Err(created_at->Err_0)
    } else if updated_at is Err {
        Err(updated_at->Err_0)
    } else if geometry is Err {
        Err(geometry->Err_0)
    } else {
        Ok(
            ObjectView {
                id: id->Ok_0,
                class_id: class_id->Ok_0,
                labeler_login: labeler_login->Ok_0,
                created_at: created_at->Ok_0,
                updated_at: updated_at->Ok_0,
                geometry: geometry->Ok_0,
            },
        )
    }
}

/// The members that an object writes for itself, before those of its
/// shape: its id, and each of the other four where the object has it.
pub open spec fn object_own_members(o: ObjectView) -> Seq<(Seq<char>, JsonView)> {
    present(all_object_own_members(o))
}

/// The five members of an object's own in the order they are written,
/// those without a value as `null`.
pub open spec fn all_object_own_members(o: ObjectView) -> Seq<(Seq<char>, JsonView)> {
    seq![
        ("id"@, json_of_usize(o.id)),
        ("classId"@, json_of_option(o.class_id, |k: usize| json_of_usize(k))),
        ("labelerLogin"@, json_of_option(o.labeler_login, |s: Seq<char>| JsonView::Text(s))),
        ("createdAt"@, json_of_option(o.created_at, |s: Seq<char>| JsonView::Text(s))),
        ("updatedAt"@, json_of_option(o.updated_at, |s: Seq<char>| JsonView::Text(s))),
    ]
}

/// The members of the wire form of an object: its own, then those of its
/// shape, in one list.
pub open spec fn object_members(o: ObjectView) -> Seq<(Seq<char>, JsonView)> {
    object_own_members(o) + geometry_members(o.geometry)
}

/// Writes the shape of an object: the members that go beside the object's
/// own, the discriminator first.
pub fn serialize(geometry: &Geometry) -> (r: Vec<(String, Json)>)
    ensures
        members_view(r@) == geometry_members(geometry.deep_view()),
{
    geometry.members()
}

/// Reads the shape of an object from the JSON object that holds both.
pub fn deserialize(j: &Json) -> (r: Result<Geometry, SchemaError>)
    ensures
        decoded(r) == geometry_of_json(j.deep_view()),
{
    Geometry::decode(j)
}

impl Decode for Object {
    open spec fn read(j: JsonView) -> Result<ObjectView, SchemaError> {
        object_of_json(j)
    }

    /// Reads an object and, from the same JSON object, its shape.
    fn decode(j: &Json) -> (r: Result<Object, SchemaError>) {
        let id = j.req_usize("id")?;
        let class_id = j.opt_usize("classId")?;
        let labeler_login = j.opt_text("labelerLogin")?;
        let created_at = j.opt_text("createdAt")?;
        let updated_at = j.opt_text("updatedAt")?;
        let geometry = deserialize(j)?;
        Ok(Object { id, class_id, labeler_login, created_at, updated_at, geometry })
    }
}

impl Encode for Object {
    open spec fn write(o: ObjectView) -> JsonView {
        JsonView::Object(object_members(o))
    }

    /// Writes an object with the members of its shape merged into its own.
    fn encode(&self) -> (r: Json) {
        let mut members: Vec<(String, Json)> = Vec::new();
        assert(members_view(members@) =~= Seq::empty());
        push_present(&mut members, "id", Json::of_usize(self.id));
        push_present(&mut members, "classId", Json::of_opt_usize(self.class_id));
        push_present(&mut members, "labelerLogin", Json::of_opt_text(&self.labeler_login));
        push_present(&mut members, "createdAt", Json::of_opt_text(&self.created_at));
        push_present(&mut members, "updatedAt", Json::of_opt_text(&self.updated_at));
        proof {
            reveal_with_fuel(built, 6);
            lemma_built(all_object_own_members(self.deep_view()));
        }
        let mut shape = serialize(&self.geometry);
        let ghost own = members@;
        let ghost rest = shape@;
        members.append(&mut shape);
        assert(members@ =~= own + rest);
        assert(members_view(members@) =~= members_view(own) + members_view(rest));
        Json::object(members)
    }
}

} // verus!
