//! Writing the documents: every document that is read is written as the
//! JSON object it is read from, without the members that have no value, and
//! reading what was written gives the document back.

use crate::annotations::{
    frames_in_place, Figure, FigureView, Frame, FrameView, ImageAnnotation, ImageAnnotationView,
    MediaAnnotation, MediaAnnotationView,
    PointCloudAnnotation, PointCloudAnnotationView, PointCloudEpisodeAnnotation,
    PointCloudEpisodeAnnotationView, PointCloudFigure, PointCloudFigureView, PointCloudGeometry,
    PointCloudGeometryView, PointCloudObject, PointCloudObjectView, Size, Vector3D, Vector3DView,
    VideoAnnotation, VideoAnnotationView, VideoObject, VideoObjectView,
};
use crate::episode::{EpisodeAnnotation, EpisodeAnnotationView};
use crate::error::SchemaError;
use crate::finite::Finite;
use crate::geometry::{geometry_members, geometry_of_json, Shape};
use crate::json::{
    built, json_of_option, keys_differ, lemma_built, lemma_keys_differ, lemma_member_of_both,
    lemma_present_at, members_view, no_key_before, optional_as, present, push_present,
    required_as, Json, JsonNumber, JsonView,
};
use crate::objects::{Object, ObjectView};
use crate::project_meta::{
    each_once, hex_text, hex_triplet, ClassMeta, ClassMetaView, ProjectMeta, ProjectMetaView,
    Rgb, TagMeta, TagMetaView, ValueType,
};
use crate::related_images::{
    Meta, MetaView, RelatedImages, RelatedImagesView, SensorsData, SensorsDataView,
};
use crate::round_trip::{
    geometry_round_trips, lemma_decode_encode, lemma_geometry_keys, lemma_not_shape_member,
    lemma_object_round_trip, lemma_shape_beside, lemma_shape_round_trip,
};
use crate::tags::{lemma_tag_round_trip, tag_round_trips, Tag, TagView};
use crate::wire::{
    encode_opt, lemma_list_round_trip, reader, write_opt, Decode, Encode,
};
use vstd::prelude::*;

verus! {

impl Encode for Json {
    open spec fn write(j: JsonView) -> JsonView {
        j
    }

    /// Writes a tree as it is.
    fn encode(&self) -> (r: Json) {
        self.clone()
    }
}

impl Encode for String {
    open spec fn write(s: Seq<char>) -> JsonView {
        JsonView::Text(s)
    }

    /// Writes a string.
    fn encode(&self) -> (r: Json) {
        Json::Text(self.clone())
    }
}

impl Encode for MediaAnnotation {
    open spec fn write(v: MediaAnnotationView) -> JsonView {
        match v {
            MediaAnnotationView::Image(a) => ImageAnnotation::write(a),
            MediaAnnotationView::Video(a) => VideoAnnotation::write(a),
            MediaAnnotationView::PointCloud(a) => PointCloudAnnotation::write(a),
        }
    }

    /// Writes the annotation of an item as the document of its kind.
    fn encode(&self) -> (r: Json) {
        match self {
            MediaAnnotation::Image(a) => a.encode(),
            MediaAnnotation::Video(a) => a.encode(),
            MediaAnnotation::PointCloud(a) => a.encode(),
        }
    }
}

/// The name of a value type on the wire.
pub open spec fn name_of_value_type(v: ValueType) -> Seq<char> {
    match v {
        ValueType::Nothing => "none"@,
        ValueType::AnyNumber => "any_number"@,
        ValueType::OneOfString => "oneof_string"@,
        ValueType::AnyString => "any_string"@,
    }
}

impl Encode for ValueType {
    open spec fn write(v: ValueType) -> JsonView {
        JsonView::Text(name_of_value_type(v))
    }

    /// Writes a value type as its name.
    fn encode(&self) -> (r: Json) {
        match self {
            ValueType::Nothing => Json::of_text("none"),
            ValueType::AnyNumber => Json::of_text("any_number"),
            ValueType::OneOfString => Json::of_text("oneof_string"),
            ValueType::AnyString => Json::of_text("any_string"),
        }
    }
}

/// The name of a value type selects that value type.
pub proof fn lemma_value_type_round_trip(v: ValueType)
    ensures
        ValueType::read(ValueType::write(v)) == Ok::<ValueType, SchemaError>(v),
{
    reveal_strlit("none");
    reveal_strlit("any_number");
    reveal_strlit("oneof_string");
    reveal_strlit("any_string");
    assert("none"@.len() == 4);
    assert("any_number"@.len() == 10 && "any_number"@[4] == 'n');
    assert("oneof_string"@.len() == 12);
    assert("any_string"@.len() == 10 && "any_string"@[4] == 's');
}

/// Whether the text written for a colour is read back as that colour.
pub open spec fn rgb_round_trips(c: Rgb) -> bool {
    hex_triplet(hex_text(c.red, c.green, c.blue)) == Some((c.red, c.green, c.blue))
}

/// A list that holds nothing twice is the list of its items, each once.
pub proof fn lemma_each_once(items: Seq<Seq<char>>, n: int)
    requires
        0 <= n <= items.len(),
        items.no_duplicates(),
    ensures
        each_once(items, n) == items.take(n),
    decreases n,
{
    if n > 0 {
        lemma_each_once(items, n - 1);
        let before = items.take(n - 1);
        if before.contains(items[n - 1]) {
            let k = choose|k: int| 0 <= k < before.len() && before[k] == items[n - 1];
            assert(items[k] == items[n - 1]);
        }
        assert(before.push(items[n - 1]) =~= items.take(n));
    } else {
        assert(items.take(0) =~= Seq::<Seq<char>>::empty());
    }
}

/// The members that a figure writes for itself, before those of its shape,
/// those without a value as `null`.
pub open spec fn all_figure_own_members(v: FigureView) -> Seq<(Seq<char>, JsonView)> {
    seq![
        ("key"@, JsonView::Text(v.key)),
        ("objectKey"@, JsonView::Text(v.object_key)),
        ("classTitle"@, json_of_option(v.class_title, |s: Seq<char>| JsonView::Text(s))),
        ("labelerLogin"@, json_of_option(v.labeler_login, |s: Seq<char>| JsonView::Text(s))),
    ]
}

/// The members of the wire form of a figure: its own, then those of its
/// shape, in one list.
pub open spec fn figure_members(v: FigureView) -> Seq<(Seq<char>, JsonView)> {
    present(all_figure_own_members(v)) + geometry_members(v.geometry)
}

impl Encode for Figure {
    open spec fn write(v: FigureView) -> JsonView {
        JsonView::Object(figure_members(v))
    }

    /// Writes a figure with the members of its shape merged into its own.
    fn encode(&self) -> (r: Json) {
        let mut members: Vec<(String, Json)> = Vec::new();
        assert(members_view(members@) =~= Seq::empty());
        push_present(&mut members, "key", Json::of_text(self.key.as_str()));
        push_present(&mut members, "objectKey", Json::of_text(self.object_key.as_str()));
        push_present(&mut members, "classTitle", Json::of_opt_text(&self.class_title));
        push_present(&mut members, "labelerLogin", Json::of_opt_text(&self.labeler_login));
        proof {
            reveal_with_fuel(built, 5);
            lemma_built(all_figure_own_members(self.deep_view()));
        }
        let mut shape = self.geometry.members();
        let ghost own = members@;
        let ghost rest = shape@;
        members.append(&mut shape);
        assert(members@ =~= own + rest);
        assert(members_view(members@) =~= members_view(own) + members_view(rest));
        Json::object(members)
    }
}

/// Reading the wire form of a figure gives it back: the members of the
/// shape, merged into those of the figure, are found again beside them.
pub proof fn lemma_figure_round_trip(v: FigureView)
    requires
        geometry_round_trips(v.geometry),
    ensures
        Figure::read(Figure::write(v)) == Ok::<FigureView, SchemaError>(v),
        Figure::write(v) is Object,
{
    reveal_strlit("key");
    reveal_strlit("objectKey");
    reveal_strlit("classTitle");
    reveal_strlit("labelerLogin");
    assert("key"@.len() == 3);
    assert("objectKey"@.len() == 9);
    assert("classTitle"@.len() == 10 && "classTitle"@[0] == 'c');
    assert("labelerLogin"@.len() == 12 && "labelerLogin"@[0] == 'l');
    reveal_strlit("dimensions");
    assert("dimensions"@.len() == 10 && "dimensions"@[0] == 'd');
    lemma_geometry_keys();
    reveal_with_fuel(no_key_before, 5);
    reveal_with_fuel(keys_differ, 5);
    let all = all_figure_own_members(v);
    let own = present(all);
    let shape = geometry_members(v.geometry);
    let merged = Figure::write(v);
    let alone = JsonView::Object(shape);
    lemma_keys_differ(all, 4);
    lemma_present_at(all, "key"@, 0);
    lemma_present_at(all, "objectKey"@, 1);
    lemma_present_at(all, "classTitle"@, 2);
    lemma_present_at(all, "labelerLogin"@, 3);
    lemma_not_shape_member(v.geometry, "classTitle"@);
    lemma_not_shape_member(v.geometry, "labelerLogin"@);
    lemma_member_of_both(own, shape, "key"@);
    lemma_member_of_both(own, shape, "objectKey"@);
    lemma_member_of_both(own, shape, "classTitle"@);
    lemma_member_of_both(own, shape, "labelerLogin"@);
    assert(all[0].0 == "key"@ && all[1].0 == "objectKey"@ && all[2].0 == "classTitle"@
        && all[3].0 == "labelerLogin"@);
    lemma_shape_beside(all, v.geometry, "geometryType"@);
    lemma_shape_beside(all, v.geometry, "tags"@);
    lemma_shape_beside(all, v.geometry, "points"@);
    lemma_shape_beside(all, v.geometry, "bitmap"@);
    lemma_shape_beside(all, v.geometry, "shape"@);
    lemma_shape_beside(all, v.geometry, "position"@);
    lemma_shape_beside(all, v.geometry, "rotation"@);
    lemma_shape_beside(all, v.geometry, "dimensions"@);
    lemma_decode_encode(v.geometry);
    assert(geometry_of_json(merged) == geometry_of_json(alone));
}

/// The members of a size in the order they are written, those without a
/// value as `null`.
pub open spec fn all_size_members(v: Size) -> Seq<(Seq<char>, JsonView)> {
    seq![
        ("width"@, JsonView::Number(JsonNumber::PosInt(v.width))),
        ("height"@, JsonView::Number(JsonNumber::PosInt(v.height))),
    ]
}

/// Whether a size comes back from its wire form: what it holds does.
pub open spec fn size_round_trips(v: Size) -> bool {
    true
}

impl Encode for Size {
    open spec fn write(v: Size) -> JsonView {
        JsonView::Object(present(all_size_members(v)))
    }

    /// Writes a size as a JSON object, leaving out what has no value.
    fn encode(&self) -> (r: Json) {
        let mut members: Vec<(String, Json)> = Vec::new();
        assert(members_view(members@) =~= Seq::empty());
        push_present(&mut members, "width", Json::Number(JsonNumber::PosInt(self.width)));
        push_present(&mut members, "height", Json::Number(JsonNumber::PosInt(self.height)));
        proof {
            reveal_with_fuel(built, 3);
            lemma_built(all_size_members(self.deep_view()));
        }
        Json::object(members)
    }
}

/// Reading the wire form of a size gives it back.
pub proof fn lemma_size_round_trip(v: Size)
    requires
        size_round_trips(v),
    ensures
        Size::read(Size::write(v)) == Ok::<Size, SchemaError>(v),
        Size::write(v) is Object,
{
    reveal_strlit("width");
    reveal_strlit("height");
    assert("width"@.len() == 5 && "width"@[0] == 'w');
    assert("height"@.len() == 6 && "height"@[0] == 'h');
    reveal_with_fuel(no_key_before, 3);
    reveal_with_fuel(keys_differ, 3);
    let all = all_size_members(v);
    let j = Size::write(v);
    lemma_keys_differ(all, 2);
    lemma_present_at(all, "width"@, 0);
    lemma_present_at(all, "height"@, 1);
    assert(j.req_u64("width"@) == Ok::<u64, SchemaError>(v.width));
    assert(j.req_u64("height"@) == Ok::<u64, SchemaError>(v.height));
}

/// The members of a vector in the order they are written, those without a
/// value as `null`.
pub open spec fn all_vector3d_members(v: Vector3DView) -> Seq<(Seq<char>, JsonView)> {
    seq![
        ("x"@, Finite::write(v.x)),
        ("y"@, Finite::write(v.y)),
        ("z"@, Finite::write(v.z)),
    ]
}

/// Whether a vector comes back from its wire form: what it holds does.
pub open spec fn vector3d_round_trips(v: Vector3DView) -> bool {
    &&& v.x.is_finite()
    &&& v.y.is_finite()
    &&& v.z.is_finite()
}

impl Encode for Vector3D {
    open spec fn write(v: Vector3DView) -> JsonView {
        JsonView::Object(present(all_vector3d_members(v)))
    }

    /// Writes a vector as a JSON object, leaving out what has no value.
    fn encode(&self) -> (r: Json) {
        let mut members: Vec<(String, Json)> = Vec::new();
        assert(members_view(members@) =~= Seq::empty());
        push_present(&mut members, "x", self.x.encode());
        push_present(&mut members, "y", self.y.encode());
        push_present(&mut members, "z", self.z.encode());
        proof {
            reveal_with_fuel(built, 4);
            lemma_built(all_vector3d_members(self.deep_view()));
        }
        Json::object(members)
    }
}

/// Reading the wire form of a vector gives it back.
pub proof fn lemma_vector3d_round_trip(v: Vector3DView)
    requires
        vector3d_round_trips(v),
    ensures
        Vector3D::read(Vector3D::write(v)) == Ok::<Vector3DView, SchemaError>(v),
        Vector3D::write(v) is Object,
{
    reveal_strlit("x");
    reveal_strlit("y");
    reveal_strlit("z");
    assert("x"@.len() == 1 && "x"@[0] == 'x');
    assert("y"@.len() == 1 && "y"@[0] == 'y');
    assert("z"@.len() == 1 && "z"@[0] == 'z');
    reveal_with_fuel(no_key_before, 4);
    reveal_with_fuel(keys_differ, 4);
    let all = all_vector3d_members(v);
    let j = Vector3D::write(v);
    lemma_keys_differ(all, 3);
    lemma_present_at(all, "x"@, 0);
    lemma_present_at(all, "y"@, 1);
    lemma_present_at(all, "z"@, 2);
    assert(required_as(j.required("x"@), reader::<Finite>()) == Ok::<JsonNumber, SchemaError>(v.x));
    assert(required_as(j.required("y"@), reader::<Finite>()) == Ok::<JsonNumber, SchemaError>(v.y));
    assert(required_as(j.required("z"@), reader::<Finite>()) == Ok::<JsonNumber, SchemaError>(v.z));
}

/// The members of a box of a point cloud in the order they are written, those without a
/// value as `null`.
pub open spec fn all_point_cloud_geometry_members(v: PointCloudGeometryView) -> Seq<(Seq<char>, JsonView)> {
    seq![
        ("position"@, Vector3D::write(v.position)),
        ("rotation"@, Vector3D::write(v.rotation)),
        ("dimensions"@, Vector3D::write(v.dimensions)),
    ]
}

/// Whether a box of a point cloud comes back from its wire form: what it holds does.
pub open spec fn point_cloud_geometry_round_trips(v: PointCloudGeometryView) -> bool {
    &&& vector3d_round_trips(v.position)
    &&& vector3d_round_trips(v.rotation)
    &&& vector3d_round_trips(v.dimensions)
}

impl Encode for PointCloudGeometry {
    open spec fn write(v: PointCloudGeometryView) -> JsonView {
        JsonView::Object(present(all_point_cloud_geometry_members(v)))
    }

    /// Writes a box of a point cloud as a JSON object, leaving out what has no value.
    fn encode(&self) -> (r: Json) {
        let mut members: Vec<(String, Json)> = Vec::new();
        assert(members_view(members@) =~= Seq::empty());
        push_present(&mut members, "position", self.position.encode());
        push_present(&mut members, "rotation", self.rotation.encode());
        push_present(&mut members, "dimensions", self.dimensions.encode());
        proof {
            reveal_with_fuel(built, 4);
            lemma_built(all_point_cloud_geometry_members(self.deep_view()));
        }
        Json::object(members)
    }
}

/// Reading the wire form of a box of a point cloud gives it back.
pub proof fn lemma_point_cloud_geometry_round_trip(v: PointCloudGeometryView)
    requires
        point_cloud_geometry_round_trips(v),
    ensures
        PointCloudGeometry::read(PointCloudGeometry::write(v)) == Ok::<PointCloudGeometryView, SchemaError>(v),
        PointCloudGeometry::write(v) is Object,
{
    reveal_strlit("position");
    reveal_strlit("rotation");
    reveal_strlit("dimensions");
    assert("position"@.len() == 8 && "position"@[0] == 'p');
    assert("rotation"@.len() == 8 && "rotation"@[0] == 'r');
    assert("dimensions"@.len() == 10 && "dimensions"@[0] == 'd');
    reveal_with_fuel(no_key_before, 4);
    reveal_with_fuel(keys_differ, 4);
    let all = all_point_cloud_geometry_members(v);
    let j = PointCloudGeometry::write(v);
    lemma_keys_differ(all, 3);
    lemma_present_at(all, "position"@, 0);
    lemma_present_at(all, "rotation"@, 1);
    lemma_present_at(all, "dimensions"@, 2);
    lemma_vector3d_round_trip(v.position);
    assert(required_as(j.required("position"@), reader::<Vector3D>()) == Ok::<Vector3DView, SchemaError>(v.position));
    lemma_vector3d_round_trip(v.rotation);
    assert(required_as(j.required("rotation"@), reader::<Vector3D>()) == Ok::<Vector3DView, SchemaError>(v.rotation));
    lemma_vector3d_round_trip(v.dimensions);
    assert(required_as(j.required("dimensions"@), reader::<Vector3D>()) == Ok::<Vector3DView, SchemaError>(v.dimensions));
}

/// The members of an object of a point cloud in the order they are written, those without a
/// value as `null`.
pub open spec fn all_point_cloud_object_members(v: PointCloudObjectView) -> Seq<(Seq<char>, JsonView)> {
    seq![
        ("key"@, JsonView::Text(v.key)),
        ("classTitle"@, JsonView::Text(v.class_title)),
        ("tags"@, <Vec<Tag>>::write(v.tags)),
    ]
}

/// Whether an object of a point cloud comes back from its wire form: what it holds does.
pub open spec fn point_cloud_object_round_trips(v: PointCloudObjectView) -> bool {
    &&& (forall|i: int| 0 <= i < v.tags.len() ==> tag_round_trips((#[trigger] v.tags[i])))
}

impl Encode for PointCloudObject {
    open spec fn write(v: PointCloudObjectView) -> JsonView {
        JsonView::Object(present(all_point_cloud_object_members(v)))
    }

    /// Writes an object of a point cloud as a JSON object, leaving out what has no value.
    fn encode(&self) -> (r: Json) {
        let mut members: Vec<(String, Json)> = Vec::new();
        assert(members_view(members@) =~= Seq::empty());
        push_present(&mut members, "key", Json::of_text(self.key.as_str()));
        push_present(&mut members, "classTitle", Json::of_text(self.class_title.as_str()));
        push_present(&mut members, "tags", self.tags.encode());
        proof {
            reveal_with_fuel(built, 4);
            lemma_built(all_point_cloud_object_members(self.deep_view()));
        }
        Json::object(members)
    }
}

/// Reading the wire form of an object of a point cloud gives it back.
pub proof fn lemma_point_cloud_object_round_trip(v: PointCloudObjectView)
    requires
        point_cloud_object_round_trips(v),
    ensures
        PointCloudObject::read(PointCloudObject::write(v)) == Ok::<PointCloudObjectView, SchemaError>(v),
        PointCloudObject::write(v) is Object,
{
    reveal_strlit("key");
    reveal_strlit("classTitle");
    reveal_strlit("tags");
    assert("key"@.len() == 3 && "key"@[0] == 'k');
    assert("classTitle"@.len() == 10 && "classTitle"@[0] == 'c');
    assert("tags"@.len() == 4 && "tags"@[0] == 't');
    reveal_with_fuel(no_key_before, 4);
    reveal_with_fuel(keys_differ, 4);
    let all = all_point_cloud_object_members(v);
    let j = PointCloudObject::write(v);
    lemma_keys_differ(all, 3);
    lemma_present_at(all, "key"@, 0);
    lemma_present_at(all, "classTitle"@, 1);
    lemma_present_at(all, "tags"@, 2);
    assert(j.req_text("key"@) == Ok::<Seq<char>, SchemaError>(v.key));
    assert(j.req_text("classTitle"@) == Ok::<Seq<char>, SchemaError>(v.class_title));
    {
        assert forall|i: int| 0 <= i < v.tags.len() implies Tag::read(
            Tag::write(#[trigger] v.tags[i]),
        ) == Ok::<TagView, SchemaError>(v.tags[i]) by {
            lemma_tag_round_trip(v.tags[i]);
        }
        lemma_list_round_trip::<Tag>(v.tags);
    }
}

/// The members of a figure of a point cloud in the order they are written, those without a
/// value as `null`.
pub open spec fn all_point_cloud_figure_members(v: PointCloudFigureView) -> Seq<(Seq<char>, JsonView)> {
    seq![
        ("key"@, JsonView::Text(v.key)),
        ("objectKey"@, JsonView::Text(v.object_key)),
        ("geometryType"@, Shape::write(v.geometry_type)),
        ("geometry"@, PointCloudGeometry::write(v.geometry)),
    ]
}

/// Whether a figure of a point cloud comes back from its wire form: what it holds does.
pub open spec fn point_cloud_figure_round_trips(v: PointCloudFigureView) -> bool {
    &&& point_cloud_geometry_round_trips(v.geometry)
}

impl Encode for PointCloudFigure {
    open spec fn write(v: PointCloudFigureView) -> JsonView {
        JsonView::Object(present(all_point_cloud_figure_members(v)))
    }

    /// Writes a figure of a point cloud as a JSON object, leaving out what has no value.
    fn encode(&self) -> (r: Json) {
        let mut members: Vec<(String, Json)> = Vec::new();
        assert(members_view(members@) =~= Seq::empty());
        push_present(&mut members, "key", Json::of_text(self.key.as_str()));
        push_present(&mut members, "objectKey", Json::of_text(self.object_key.as_str()));
        push_present(&mut members, "geometryType", self.geometry_type.encode());
        push_present(&mut members, "geometry", self.geometry.encode());
        proof {
            reveal_with_fuel(built, 5);
            lemma_built(all_point_cloud_figure_members(self.deep_view()));
        }
        Json::object(members)
    }
}

/// Reading the wire form of a figure of a point cloud gives it back.
pub proof fn lemma_point_cloud_figure_round_trip(v: PointCloudFigureView)
    requires
        point_cloud_figure_round_trips(v),
    ensures
        PointCloudFigure::read(PointCloudFigure::write(v)) == Ok::<PointCloudFigureView, SchemaError>(v),
        PointCloudFigure::write(v) is Object,
{
    reveal_strlit("key");
    reveal_strlit("objectKey");
    reveal_strlit("geometryType");
    reveal_strlit("geometry");
    assert("key"@.len() == 3 && "key"@[0] == 'k');
    assert("objectKey"@.len() == 9 && "objectKey"@[0] == 'o');
    assert("geometryType"@.len() == 12 && "geometryType"@[0] == 'g');
    assert("geometry"@.len() == 8 && "geometry"@[0] == 'g');
    reveal_with_fuel(no_key_before, 5);
    reveal_with_fuel(keys_differ, 5);
    let all = all_point_cloud_figure_members(v);
    let j = PointCloudFigure::write(v);
    lemma_keys_differ(all, 4);
    lemma_present_at(all, "key"@, 0);
    lemma_present_at(all, "objectKey"@, 1);
    lemma_present_at(all, "geometryType"@, 2);
    lemma_present_at(all, "geometry"@, 3);
    assert(j.req_text("key"@) == Ok::<Seq<char>, SchemaError>(v.key));
    assert(j.req_text("objectKey"@) == Ok::<Seq<char>, SchemaError>(v.object_key));
    lemma_shape_round_trip(v.geometry_type);
    assert(required_as(j.required("geometryType"@), reader::<Shape>()) == Ok::<Shape, SchemaError>(v.geometry_type));
    lemma_point_cloud_geometry_round_trip(v.geometry);
    assert(required_as(j.required("geometry"@), reader::<PointCloudGeometry>()) == Ok::<PointCloudGeometryView, SchemaError>(v.geometry));
}

/// The members of an object of a video in the order they are written, those without a
/// value as `null`.
pub open spec fn all_video_object_members(v: VideoObjectView) -> Seq<(Seq<char>, JsonView)> {
    seq![
        ("key"@, JsonView::Text(v.key)),
        ("classTitle"@, json_of_option(v.class_title, |s: Seq<char>| JsonView::Text(s))),
        ("tags"@, write_opt::<Vec<Tag>>(v.tags)),
        ("labelerLogin"@, json_of_option(v.labeler_login, |s: Seq<char>| JsonView::Text(s))),
    ]
}

/// Whether an object of a video comes back from its wire form: what it holds does.
pub open spec fn video_object_round_trips(v: VideoObjectView) -> bool {
    &&& (v.tags is Some ==> forall|i: int| 0 <= i < v.tags->Some_0.len() ==> tag_round_trips((#[trigger] v.tags->Some_0[i])))
}

impl Encode for VideoObject {
    open spec fn write(v: VideoObjectView) -> JsonView {
        JsonView::Object(present(all_video_object_members(v)))
    }

    /// Writes an object of a video as a JSON object, leaving out what has no value.
    fn encode(&self) -> (r: Json) {
        let mut members: Vec<(String, Json)> = Vec::new();
        assert(members_view(members@) =~= Seq::empty());
        push_present(&mut members, "key", Json::of_text(self.key.as_str()));
        push_present(&mut members, "classTitle", Json::of_opt_text(&self.class_title));
        push_present(&mut members, "tags", encode_opt::<Vec<Tag>>(&self.tags));
        push_present(&mut members, "labelerLogin", Json::of_opt_text(&self.labeler_login));
        proof {
            reveal_with_fuel(built, 5);
            lemma_built(all_video_object_members(self.deep_view()));
        }
        Json::object(members)
    }
}

/// Reading the wire form of an object of a video gives it back.
pub proof fn lemma_video_object_round_trip(v: VideoObjectView)
    requires
        video_object_round_trips(v),
    ensures
        VideoObject::read(VideoObject::write(v)) == Ok::<VideoObjectView, SchemaError>(v),
        VideoObject::write(v) is Object,
{
    reveal_strlit("key");
    reveal_strlit("classTitle");
    reveal_strlit("tags");
    reveal_strlit("labelerLogin");
    assert("key"@.len() == 3 && "key"@[0] == 'k');
    assert("classTitle"@.len() == 10 && "classTitle"@[0] == 'c');
    assert("tags"@.len() == 4 && "tags"@[0] == 't');
    assert("labelerLogin"@.len() == 12 && "labelerLogin"@[0] == 'l');
    reveal_with_fuel(no_key_before, 5);
    reveal_with_fuel(keys_differ, 5);
    let all = all_video_object_members(v);
    let j = VideoObject::write(v);
    lemma_keys_differ(all, 4);
    lemma_present_at(all, "key"@, 0);
    lemma_present_at(all, "classTitle"@, 1);
    lemma_present_at(all, "tags"@, 2);
    lemma_present_at(all, "labelerLogin"@, 3);
    assert(j.req_text("key"@) == Ok::<Seq<char>, SchemaError>(v.key));
    assert(j.opt_text("classTitle"@) == Ok::<Option<Seq<char>>, SchemaError>(v.class_title));
    if v.tags is Some {
        assert forall|i: int| 0 <= i < v.tags->Some_0.len() implies Tag::read(
            Tag::write(#[trigger] v.tags->Some_0[i]),
        ) == Ok::<TagView, SchemaError>(v.tags->Some_0[i]) by {
            lemma_tag_round_trip(v.tags->Some_0[i]);
        }
        lemma_list_round_trip::<Tag>(v.tags->Some_0);
    }
    assert(j.opt_text("labelerLogin"@) == Ok::<Option<Seq<char>>, SchemaError>(v.labeler_login));
}

/// The members of a frame in the order they are written, those without a
/// value as `null`.
pub open spec fn all_frame_members(v: FrameView) -> Seq<(Seq<char>, JsonView)> {
    seq![
        ("index"@, JsonView::Number(JsonNumber::PosInt(v.index))),
        ("figures"@, <Vec<Figure>>::write(v.figures)),
    ]
}

/// Whether a frame comes back from its wire form: what it holds does.
pub open spec fn frame_round_trips(v: FrameView) -> bool {
    &&& (forall|i: int| 0 <= i < v.figures.len() ==> geometry_round_trips((#[trigger] v.figures[i]).geometry))
}

impl Encode for Frame {
    open spec fn write(v: FrameView) -> JsonView {
        JsonView::Object(present(all_frame_members(v)))
    }

    /// Writes a frame as a JSON object, leaving out what has no value.
    fn encode(&self) -> (r: Json) {
        let mut members: Vec<(String, Json)> = Vec::new();
        assert(members_view(members@) =~= Seq::empty());
        push_present(&mut members, "index", Json::Number(JsonNumber::PosInt(self.index)));
        push_present(&mut members, "figures", self.figures.encode());
        proof {
            reveal_with_fuel(built, 3);
            lemma_built(all_frame_members(self.deep_view()));
        }
        Json::object(members)
    }
}

/// Reading the wire form of a frame gives it back.
pub proof fn lemma_frame_round_trip(v: FrameView)
    requires
        frame_round_trips(v),
    ensures
        Frame::read(Frame::write(v)) == Ok::<FrameView, SchemaError>(v),
        Frame::write(v) is Object,
{
    reveal_strlit("index");
    reveal_strlit("figures");
    assert("index"@.len() == 5 && "index"@[0] == 'i');
    assert("figures"@.len() == 7 && "figures"@[0] == 'f');
    reveal_with_fuel(no_key_before, 3);
    reveal_with_fuel(keys_differ, 3);
    let all = all_frame_members(v);
    let j = Frame::write(v);
    lemma_keys_differ(all, 2);
    lemma_present_at(all, "index"@, 0);
    lemma_present_at(all, "figures"@, 1);
    assert(j.req_u64("index"@) == Ok::<u64, SchemaError>(v.index));
    {
        assert forall|i: int| 0 <= i < v.figures.len() implies Figure::read(
            Figure::write(#[trigger] v.figures[i]),
        ) == Ok::<FigureView, SchemaError>(v.figures[i]) by {
            lemma_figure_round_trip(v.figures[i]);
        }
        lemma_list_round_trip::<Figure>(v.figures);
    }
}

/// The members of the annotation of an image in the order they are written, those without a
/// value as `null`.
pub open spec fn all_image_annotation_members(v: ImageAnnotationView) -> Seq<(Seq<char>, JsonView)> {
    seq![
        ("name"@, json_of_option(v.name, |s: Seq<char>| JsonView::Text(s))),
        ("description"@, json_of_option(v.description, |s: Seq<char>| JsonView::Text(s))),
        ("size"@, Size::write(v.size)),
        ("tags"@, write_opt::<Vec<Tag>>(v.tags)),
        ("objects"@, <Vec<Object>>::write(v.objects)),
    ]
}

/// Whether the annotation of an image comes back from its wire form: what it holds does.
pub open spec fn image_annotation_round_trips(v: ImageAnnotationView) -> bool {
    &&& size_round_trips(v.size)
    &&& (v.tags is Some ==> forall|i: int| 0 <= i < v.tags->Some_0.len() ==> tag_round_trips((#[trigger] v.tags->Some_0[i])))
    &&& (forall|i: int| 0 <= i < v.objects.len() ==> geometry_round_trips((#[trigger] v.objects[i]).geometry))
}

impl Encode for ImageAnnotation {
    open spec fn write(v: ImageAnnotationView) -> JsonView {
        JsonView::Object(present(all_image_annotation_members(v)))
    }

    /// Writes the annotation of an image as a JSON object, leaving out what has no value.
    fn encode(&self) -> (r: Json) {
        let mut members: Vec<(String, Json)> = Vec::new();
        assert(members_view(members@) =~= Seq::empty());
        push_present(&mut members, "name", Json::of_opt_text(&self.name));
        push_present(&mut members, "description", Json::of_opt_text(&self.description));
        push_present(&mut members, "size", self.size.encode());
        push_present(&mut members, "tags", encode_opt::<Vec<Tag>>(&self.tags));
        push_present(&mut members, "objects", self.objects.encode());
        proof {
            reveal_with_fuel(built, 6);
            lemma_built(all_image_annotation_members(self.deep_view()));
        }
        Json::object(members)
    }
}

/// Reading the wire form of the annotation of an image gives it back.
pub proof fn lemma_image_annotation_round_trip(v: ImageAnnotationView)
    requires
        image_annotation_round_trips(v),
    ensures
        ImageAnnotation::read(ImageAnnotation::write(v)) == Ok::<ImageAnnotationView, SchemaError>(v),
        ImageAnnotation::write(v) is Object,
{
    reveal_strlit("name");
    reveal_strlit("description");
    reveal_strlit("size");
    reveal_strlit("tags");
    reveal_strlit("objects");
    assert("name"@.len() == 4 && "name"@[0] == 'n');
    assert("description"@.len() == 11 && "description"@[0] == 'd');
    assert("size"@.len() == 4 && "size"@[0] == 's');
    assert("tags"@.len() == 4 && "tags"@[0] == 't');
    assert("objects"@.len() == 7 && "objects"@[0] == 'o');
    reveal_with_fuel(no_key_before, 6);
    reveal_with_fuel(keys_differ, 6);
    let all = all_image_annotation_members(v);
    let j = ImageAnnotation::write(v);
    lemma_keys_differ(all, 5);
    lemma_present_at(all, "name"@, 0);
    lemma_present_at(all, "description"@, 1);
    lemma_present_at(all, "size"@, 2);
    lemma_present_at(all, "tags"@, 3);
    lemma_present_at(all, "objects"@, 4);
    assert(j.opt_text("name"@) == Ok::<Option<Seq<char>>, SchemaError>(v.name));
    assert(j.opt_text("description"@) == Ok::<Option<Seq<char>>, SchemaError>(v.description));
    lemma_size_round_trip(v.size);
    assert(required_as(j.required("size"@), reader::<Size>()) == Ok::<Size, SchemaError>(v.size));
    if v.tags is Some {
        assert forall|i: int| 0 <= i < v.tags->Some_0.len() implies Tag::read(
            Tag::write(#[trigger] v.tags->Some_0[i]),
        ) == Ok::<TagView, SchemaError>(v.tags->Some_0[i]) by {
            lemma_tag_round_trip(v.tags->Some_0[i]);
        }
        lemma_list_round_trip::<Tag>(v.tags->Some_0);
    }
    {
        assert forall|i: int| 0 <= i < v.objects.len() implies Object::read(
            Object::write(#[trigger] v.objects[i]),
        ) == Ok::<ObjectView, SchemaError>(v.objects[i]) by {
            lemma_object_round_trip(v.objects[i]);
        }
        lemma_list_round_trip::<Object>(v.objects);
    }
}

/// The members of the annotation of a video in the order they are written, those without a
/// value as `null`.
pub open spec fn all_video_annotation_members(v: VideoAnnotationView) -> Seq<(Seq<char>, JsonView)> {
    seq![
        ("size"@, Size::write(v.size)),
        ("description"@, JsonView::Text(v.description)),
        ("tags"@, <Vec<Tag>>::write(v.tags)),
        ("key"@, JsonView::Text(v.key)),
        ("objects"@, <Vec<VideoObject>>::write(v.objects)),
        ("frames"@, <Vec<Frame>>::write(v.frames)),
        ("framesCount"@, JsonView::Number(JsonNumber::PosInt(v.frames_count))),
    ]
}

/// Whether the annotation of a video comes back from its wire form: what it holds does.
pub open spec fn video_annotation_round_trips(v: VideoAnnotationView) -> bool {
    &&& size_round_trips(v.size)
    &&& (forall|i: int| 0 <= i < v.tags.len() ==> tag_round_trips((#[trigger] v.tags[i])))
    &&& (forall|i: int| 0 <= i < v.objects.len() ==> video_object_round_trips((#[trigger] v.objects[i])))
    &&& (forall|i: int| 0 <= i < v.frames.len() ==> frame_round_trips((#[trigger] v.frames[i])))
}

impl Encode for VideoAnnotation {
    open spec fn write(v: VideoAnnotationView) -> JsonView {
        JsonView::Object(present(all_video_annotation_members(v)))
    }

    /// Writes the annotation of a video as a JSON object, leaving out what has no value.
    fn encode(&self) -> (r: Json) {
        let mut members: Vec<(String, Json)> = Vec::new();
        assert(members_view(members@) =~= Seq::empty());
        push_present(&mut members, "size", self.size.encode());
        push_present(&mut members, "description", Json::of_text(self.description.as_str()));
        push_present(&mut members, "tags", self.tags.encode());
        push_present(&mut members, "key", Json::of_text(self.key.as_str()));
        push_present(&mut members, "objects", self.objects.encode());
        push_present(&mut members, "frames", self.frames.encode());
        push_present(&mut members, "framesCount", Json::Number(JsonNumber::PosInt(self.frames_count)));
        proof {
            reveal_with_fuel(built, 8);
            lemma_built(all_video_annotation_members(self.deep_view()));
        }
        Json::object(members)
    }
}

/// Reading the wire form of the annotation of a video gives it back.
pub proof fn lemma_video_annotation_round_trip(v: VideoAnnotationView)
    requires
        video_annotation_round_trips(v),
    ensures
        VideoAnnotation::read(VideoAnnotation::write(v)) == Ok::<VideoAnnotationView, SchemaError>(v),
        VideoAnnotation::write(v) is Object,
{
    reveal_strlit("size");
    reveal_strlit("description");
    reveal_strlit("tags");
    reveal_strlit("key");
    reveal_strlit("objects");
    reveal_strlit("frames");
    reveal_strlit("framesCount");
    assert("size"@.len() == 4 && "size"@[0] == 's');
    assert("description"@.len() == 11 && "description"@[0] == 'd');
    assert("tags"@.len() == 4 && "tags"@[0] == 't');
    assert("key"@.len() == 3 && "key"@[0] == 'k');
    assert("objects"@.len() == 7 && "objects"@[0] == 'o');
    assert("frames"@.len() == 6 && "frames"@[0] == 'f');
    assert("framesCount"@.len() == 11 && "framesCount"@[0] == 'f');
    reveal_with_fuel(no_key_before, 8);
    reveal_with_fuel(keys_differ, 8);
    let all = all_video_annotation_members(v);
    let j = VideoAnnotation::write(v);
    lemma_keys_differ(all, 7);
    lemma_present_at(all, "size"@, 0);
    lemma_present_at(all, "description"@, 1);
    lemma_present_at(all, "tags"@, 2);
    lemma_present_at(all, "key"@, 3);
    lemma_present_at(all, "objects"@, 4);
    lemma_present_at(all, "frames"@, 5);
    lemma_present_at(all, "framesCount"@, 6);
    lemma_size_round_trip(v.size);
    assert(required_as(j.required("size"@), reader::<Size>()) == Ok::<Size, SchemaError>(v.size));
    assert(j.req_text("description"@) == Ok::<Seq<char>, SchemaError>(v.description));
    {
        assert forall|i: int| 0 <= i < v.tags.len() implies Tag::read(
            Tag::write(#[trigger] v.tags[i]),
        ) == Ok::<TagView, SchemaError>(v.tags[i]) by {
            lemma_tag_round_trip(v.tags[i]);
        }
        lemma_list_round_trip::<Tag>(v.tags);
    }
    assert(j.req_text("key"@) == Ok::<Seq<char>, SchemaError>(v.key));
    {
        assert forall|i: int| 0 <= i < v.objects.len() implies VideoObject::read(
            VideoObject::write(#[trigger] v.objects[i]),
        ) == Ok::<VideoObjectView, SchemaError>(v.objects[i]) by {
            lemma_video_object_round_trip(v.objects[i]);
        }
        lemma_list_round_trip::<VideoObject>(v.objects);
    }
    {
        assert forall|i: int| 0 <= i < v.frames.len() implies Frame::read(
            Frame::write(#[trigger] v.frames[i]),
        ) == Ok::<FrameView, SchemaError>(v.frames[i]) by {
            lemma_frame_round_trip(v.frames[i]);
        }
        lemma_list_round_trip::<Frame>(v.frames);
    }
    assert(j.req_u64("framesCount"@) == Ok::<u64, SchemaError>(v.frames_count));
}

/// The members of the annotation of a point cloud in the order they are written, those without a
/// value as `null`.
pub open spec fn all_point_cloud_annotation_members(v: PointCloudAnnotationView) -> Seq<(Seq<char>, JsonView)> {
    seq![
        ("description"@, JsonView::Text(v.description)),
        ("key"@, json_of_option(v.key, |s: Seq<char>| JsonView::Text(s))),
        ("tags"@, <Vec<Tag>>::write(v.tags)),
        ("objects"@, <Vec<PointCloudObject>>::write(v.objects)),
        ("figures"@, <Vec<PointCloudFigure>>::write(v.figures)),
    ]
}

/// Whether the annotation of a point cloud comes back from its wire form: what it holds does.
pub open spec fn point_cloud_annotation_round_trips(v: PointCloudAnnotationView) -> bool {
    &&& (forall|i: int| 0 <= i < v.tags.len() ==> tag_round_trips((#[trigger] v.tags[i])))
    &&& (forall|i: int| 0 <= i < v.objects.len() ==> point_cloud_object_round_trips((#[trigger] v.objects[i])))
    &&& (forall|i: int| 0 <= i < v.figures.len() ==> point_cloud_figure_round_trips((#[trigger] v.figures[i])))
}

impl Encode for PointCloudAnnotation {
    open spec fn write(v: PointCloudAnnotationView) -> JsonView {
        JsonView::Object(present(all_point_cloud_annotation_members(v)))
    }

    /// Writes the annotation of a point cloud as a JSON object, leaving out what has no value.
    fn encode(&self) -> (r: Json) {
        let mut members: Vec<(String, Json)> = Vec::new();
        assert(members_view(members@) =~= Seq::empty());
        push_present(&mut members, "description", Json::of_text(self.description.as_str()));
        push_present(&mut members, "key", Json::of_opt_text(&self.key));
        push_present(&mut members, "tags", self.tags.encode());
        push_present(&mut members, "objects", self.objects.encode());
        push_present(&mut members, "figures", self.figures.encode());
        proof {
            reveal_with_fuel(built, 6);
            lemma_built(all_point_cloud_annotation_members(self.deep_view()));
        }
        Json::object(members)
    }
}

/// Reading the wire form of the annotation of a point cloud gives it back.
pub proof fn lemma_point_cloud_annotation_round_trip(v: PointCloudAnnotationView)
    requires
        point_cloud_annotation_round_trips(v),
    ensures
        PointCloudAnnotation::read(PointCloudAnnotation::write(v)) == Ok::<PointCloudAnnotationView, SchemaError>(v),
        PointCloudAnnotation::write(v) is Object,
{
    reveal_strlit("description");
    reveal_strlit("key");
    reveal_strlit("tags");
    reveal_strlit("objects");
    reveal_strlit("figures");
    assert("description"@.len() == 11 && "description"@[0] == 'd');
    assert("key"@.len() == 3 && "key"@[0] == 'k');
    assert("tags"@.len() == 4 && "tags"@[0] == 't');
    assert("objects"@.len() == 7 && "objects"@[0] == 'o');
    assert("figures"@.len() == 7 && "figures"@[0] == 'f');
    reveal_with_fuel(no_key_before, 6);
    reveal_with_fuel(keys_differ, 6);
    let all = all_point_cloud_annotation_members(v);
    let j = PointCloudAnnotation::write(v);
    lemma_keys_differ(all, 5);
    lemma_present_at(all, "description"@, 0);
    lemma_present_at(all, "key"@, 1);
    lemma_present_at(all, "tags"@, 2);
    lemma_present_at(all, "objects"@, 3);
    lemma_present_at(all, "figures"@, 4);
    assert(j.req_text("description"@) == Ok::<Seq<char>, SchemaError>(v.description));
    assert(j.opt_text("key"@) == Ok::<Option<Seq<char>>, SchemaError>(v.key));
    {
        assert forall|i: int| 0 <= i < v.tags.len() implies Tag::read(
            Tag::write(#[trigger] v.tags[i]),
        ) == Ok::<TagView, SchemaError>(v.tags[i]) by {
            lemma_tag_round_trip(v.tags[i]);
        }
        lemma_list_round_trip::<Tag>(v.tags);
    }
    {
        assert forall|i: int| 0 <= i < v.objects.len() implies PointCloudObject::read(
            PointCloudObject::write(#[trigger] v.objects[i]),
        ) == Ok::<PointCloudObjectView, SchemaError>(v.objects[i]) by {
            lemma_point_cloud_object_round_trip(v.objects[i]);
        }
        lemma_list_round_trip::<PointCloudObject>(v.objects);
    }
    {
        assert forall|i: int| 0 <= i < v.figures.len() implies PointCloudFigure::read(
            PointCloudFigure::write(#[trigger] v.figures[i]),
        ) == Ok::<PointCloudFigureView, SchemaError>(v.figures[i]) by {
            lemma_point_cloud_figure_round_trip(v.figures[i]);
        }
        lemma_list_round_trip::<PointCloudFigure>(v.figures);
    }
}

/// The members of the annotation of an episode in the order they are written, those without a
/// value as `null`.
pub open spec fn all_point_cloud_episode_annotation_members(v: PointCloudEpisodeAnnotationView) -> Seq<(Seq<char>, JsonView)> {
    seq![
        ("description"@, JsonView::Text(v.description)),
        ("key"@, json_of_option(v.key, |s: Seq<char>| JsonView::Text(s))),
        ("tags"@, <Vec<Tag>>::write(v.tags)),
        ("objects"@, <Vec<PointCloudObject>>::write(v.objects)),
        ("frames"@, <Vec<Frame>>::write(v.frames)),
    ]
}

/// Whether the annotation of an episode comes back from its wire form: what it holds does.
pub open spec fn point_cloud_episode_annotation_round_trips(v: PointCloudEpisodeAnnotationView) -> bool {
    &&& (forall|i: int| 0 <= i < v.tags.len() ==> tag_round_trips((#[trigger] v.tags[i])))
    &&& (forall|i: int| 0 <= i < v.objects.len() ==> point_cloud_object_round_trips((#[trigger] v.objects[i])))
    &&& (forall|i: int| 0 <= i < v.frames.len() ==> frame_round_trips((#[trigger] v.frames[i])))
    &&& frames_in_place(v.frames)
}

impl Encode for PointCloudEpisodeAnnotation {
    open spec fn write(v: PointCloudEpisodeAnnotationView) -> JsonView {
        JsonView::Object(present(all_point_cloud_episode_annotation_members(v)))
    }

    /// Writes the annotation of an episode as a JSON object, leaving out what has no value.
    fn encode(&self) -> (r: Json) {
        let mut members: Vec<(String, Json)> = Vec::new();
        assert(members_view(members@) =~= Seq::empty());
        push_present(&mut members, "description", Json::of_text(self.description.as_str()));
        push_present(&mut members, "key", Json::of_opt_text(&self.key));
        push_present(&mut members, "tags", self.tags.encode());
        push_present(&mut members, "objects", self.objects.encode());
        push_present(&mut members, "frames", self.frames.encode());
        proof {
            reveal_with_fuel(built, 6);
            lemma_built(all_point_cloud_episode_annotation_members(self.deep_view()));
        }
        Json::object(members)
    }
}

/// Reading the wire form of the annotation of an episode gives it back.
pub proof fn lemma_point_cloud_episode_annotation_round_trip(v: PointCloudEpisodeAnnotationView)
    requires
        point_cloud_episode_annotation_round_trips(v),
    ensures
        PointCloudEpisodeAnnotation::read(PointCloudEpisodeAnnotation::write(v)) == Ok::<PointCloudEpisodeAnnotationView, SchemaError>(v),
        PointCloudEpisodeAnnotation::write(v) is Object,
{
    reveal_strlit("description");
    reveal_strlit("key");
    reveal_strlit("tags");
    reveal_strlit("objects");
    reveal_strlit("frames");
    assert("description"@.len() == 11 && "description"@[0] == 'd');
    assert("key"@.len() == 3 && "key"@[0] == 'k');
    assert("tags"@.len() == 4 && "tags"@[0] == 't');
    assert("objects"@.len() == 7 && "objects"@[0] == 'o');
    assert("frames"@.len() == 6 && "frames"@[0] == 'f');
    reveal_with_fuel(no_key_before, 6);
    reveal_with_fuel(keys_differ, 6);
    let all = all_point_cloud_episode_annotation_members(v);
    let j = PointCloudEpisodeAnnotation::write(v);
    lemma_keys_differ(all, 5);
    lemma_present_at(all, "description"@, 0);
    lemma_present_at(all, "key"@, 1);
    lemma_present_at(all, "tags"@, 2);
    lemma_present_at(all, "objects"@, 3);
    lemma_present_at(all, "frames"@, 4);
    assert(j.req_text("description"@) == Ok::<Seq<char>, SchemaError>(v.description));
    assert(j.opt_text("key"@) == Ok::<Option<Seq<char>>, SchemaError>(v.key));
    {
        assert forall|i: int| 0 <= i < v.tags.len() implies Tag::read(
            Tag::write(#[trigger] v.tags[i]),
        ) == Ok::<TagView, SchemaError>(v.tags[i]) by {
            lemma_tag_round_trip(v.tags[i]);
        }
        lemma_list_round_trip::<Tag>(v.tags);
    }
    {
        assert forall|i: int| 0 <= i < v.objects.len() implies PointCloudObject::read(
            PointCloudObject::write(#[trigger] v.objects[i]),
        ) == Ok::<PointCloudObjectView, SchemaError>(v.objects[i]) by {
            lemma_point_cloud_object_round_trip(v.objects[i]);
        }
        lemma_list_round_trip::<PointCloudObject>(v.objects);
    }
    {
        assert forall|i: int| 0 <= i < v.frames.len() implies Frame::read(
            Frame::write(#[trigger] v.frames[i]),
        ) == Ok::<FrameView, SchemaError>(v.frames[i]) by {
            lemma_frame_round_trip(v.frames[i]);
        }
        lemma_list_round_trip::<Frame>(v.frames);
    }
}

/// The members of the loose annotation of an episode in the order they are written, those without a
/// value as `null`.
pub open spec fn all_episode_annotation_members(v: EpisodeAnnotationView) -> Seq<(Seq<char>, JsonView)> {
    seq![
        ("description"@, JsonView::Text(v.description)),
        ("tags"@, <Vec<Json>>::write(v.tags)),
        ("objects"@, <Vec<Json>>::write(v.objects)),
        ("framesCount"@, JsonView::Number(JsonNumber::PosInt(v.frames_count))),
        ("frames"@, <Vec<Json>>::write(v.frames)),
    ]
}

/// Whether the loose annotation of an episode comes back from its wire form: what it holds does.
pub open spec fn episode_annotation_round_trips(v: EpisodeAnnotationView) -> bool {
    true
}

impl Encode for EpisodeAnnotation {
    open spec fn write(v: EpisodeAnnotationView) -> JsonView {
        JsonView::Object(present(all_episode_annotation_members(v)))
    }

    /// Writes the loose annotation of an episode as a JSON object, leaving out what has no value.
    fn encode(&self) -> (r: Json) {
        let mut members: Vec<(String, Json)> = Vec::new();
        assert(members_view(members@) =~= Seq::empty());
        push_present(&mut members, "description", Json::of_text(self.description.as_str()));
        push_present(&mut members, "tags", self.tags.encode());
        push_present(&mut members, "objects", self.objects.encode());
        push_present(&mut members, "framesCount", Json::Number(JsonNumber::PosInt(self.frames_count)));
        push_present(&mut members, "frames", self.frames.encode());
        proof {
            reveal_with_fuel(built, 6);
            lemma_built(all_episode_annotation_members(self.deep_view()));
        }
        Json::object(members)
    }
}

/// Reading the wire form of the loose annotation of an episode gives it back.
pub proof fn lemma_episode_annotation_round_trip(v: EpisodeAnnotationView)
    requires
        episode_annotation_round_trips(v),
    ensures
        EpisodeAnnotation::read(EpisodeAnnotation::write(v)) == Ok::<EpisodeAnnotationView, SchemaError>(v),
        EpisodeAnnotation::write(v) is Object,
{
    reveal_strlit("description");
    reveal_strlit("tags");
    reveal_strlit("objects");
    reveal_strlit("framesCount");
    reveal_strlit("frames");
    assert("description"@.len() == 11 && "description"@[0] == 'd');
    assert("tags"@.len() == 4 && "tags"@[0] == 't');
    assert("objects"@.len() == 7 && "objects"@[0] == 'o');
    assert("framesCount"@.len() == 11 && "framesCount"@[0] == 'f');
    assert("frames"@.len() == 6 && "frames"@[0] == 'f');
    reveal_with_fuel(no_key_before, 6);
    reveal_with_fuel(keys_differ, 6);
    let all = all_episode_annotation_members(v);
    let j = EpisodeAnnotation::write(v);
    lemma_keys_differ(all, 5);
    lemma_present_at(all, "description"@, 0);
    lemma_present_at(all, "tags"@, 1);
    lemma_present_at(all, "objects"@, 2);
    lemma_present_at(all, "framesCount"@, 3);
    lemma_present_at(all, "frames"@, 4);
    assert(j.req_text("description"@) == Ok::<Seq<char>, SchemaError>(v.description));
    {
        assert forall|i: int| 0 <= i < v.tags.len() implies Json::read(
            Json::write(#[trigger] v.tags[i]),
        ) == Ok::<JsonView, SchemaError>(v.tags[i]) by {
            
        }
        lemma_list_round_trip::<Json>(v.tags);
    }
    {
        assert forall|i: int| 0 <= i < v.objects.len() implies Json::read(
            Json::write(#[trigger] v.objects[i]),
        ) == Ok::<JsonView, SchemaError>(v.objects[i]) by {
            
        }
        lemma_list_round_trip::<Json>(v.objects);
    }
    assert(j.req_u64("framesCount"@) == Ok::<u64, SchemaError>(v.frames_count));
    {
        assert forall|i: int| 0 <= i < v.frames.len() implies Json::read(
            Json::write(#[trigger] v.frames[i]),
        ) == Ok::<JsonView, SchemaError>(v.frames[i]) by {
            
        }
        lemma_list_round_trip::<Json>(v.frames);
    }
}

/// The members of the matrices of a camera in the order they are written, those without a
/// value as `null`.
pub open spec fn all_sensors_data_members(v: SensorsDataView) -> Seq<(Seq<char>, JsonView)> {
    seq![
        ("extrinsicMatrix"@, <Vec<Finite>>::write(v.extrinsic_matrix)),
        ("intrinsicMatrix"@, <Vec<Finite>>::write(v.intrinsic_matrix)),
    ]
}

/// Whether the matrices of a camera comes back from its wire form: what it holds does.
pub open spec fn sensors_data_round_trips(v: SensorsDataView) -> bool {
    &&& (forall|i: int| 0 <= i < v.extrinsic_matrix.len() ==> (#[trigger] v.extrinsic_matrix[i]).is_finite())
    &&& (forall|i: int| 0 <= i < v.intrinsic_matrix.len() ==> (#[trigger] v.intrinsic_matrix[i]).is_finite())
}

impl Encode for SensorsData {
    open spec fn write(v: SensorsDataView) -> JsonView {
        JsonView::Object(present(all_sensors_data_members(v)))
    }

    /// Writes the matrices of a camera as a JSON object, leaving out what has no value.
    fn encode(&self) -> (r: Json) {
        let mut members: Vec<(String, Json)> = Vec::new();
        assert(members_view(members@) =~= Seq::empty());
        push_present(&mut members, "extrinsicMatrix", self.extrinsic_matrix.encode());
        push_present(&mut members, "intrinsicMatrix", self.intrinsic_matrix.encode());
        proof {
            reveal_with_fuel(built, 3);
            lemma_built(all_sensors_data_members(self.deep_view()));
        }
        Json::object(members)
    }
}

/// Reading the wire form of the matrices of a camera gives it back.
pub proof fn lemma_sensors_data_round_trip(v: SensorsDataView)
    requires
        sensors_data_round_trips(v),
    ensures
        SensorsData::read(SensorsData::write(v)) == Ok::<SensorsDataView, SchemaError>(v),
        SensorsData::write(v) is Object,
{
    reveal_strlit("extrinsicMatrix");
    reveal_strlit("intrinsicMatrix");
    assert("extrinsicMatrix"@.len() == 15 && "extrinsicMatrix"@[0] == 'e');
    assert("intrinsicMatrix"@.len() == 15 && "intrinsicMatrix"@[0] == 'i');
    reveal_with_fuel(no_key_before, 3);
    reveal_with_fuel(keys_differ, 3);
    let all = all_sensors_data_members(v);
    let j = SensorsData::write(v);
    lemma_keys_differ(all, 2);
    lemma_present_at(all, "extrinsicMatrix"@, 0);
    lemma_present_at(all, "intrinsicMatrix"@, 1);
    {
        assert forall|i: int| 0 <= i < v.extrinsic_matrix.len() implies Finite::read(
            Finite::write(#[trigger] v.extrinsic_matrix[i]),
        ) == Ok::<JsonNumber, SchemaError>(v.extrinsic_matrix[i]) by {
            
        }
        lemma_list_round_trip::<Finite>(v.extrinsic_matrix);
    }
    {
        assert forall|i: int| 0 <= i < v.intrinsic_matrix.len() implies Finite::read(
            Finite::write(#[trigger] v.intrinsic_matrix[i]),
        ) == Ok::<JsonNumber, SchemaError>(v.intrinsic_matrix[i]) by {
            
        }
        lemma_list_round_trip::<Finite>(v.intrinsic_matrix);
    }
}

/// The members of the record of an image in the order they are written, those without a
/// value as `null`.
pub open spec fn all_meta_members(v: MetaView) -> Seq<(Seq<char>, JsonView)> {
    seq![
        ("deviceId"@, JsonView::Text(v.device_id)),
        ("timestamp"@, JsonView::Text(v.timestamp)),
        ("sensorsData"@, SensorsData::write(v.sensors_data)),
    ]
}

/// Whether the record of an image comes back from its wire form: what it holds does.
pub open spec fn meta_round_trips(v: MetaView) -> bool {
    &&& sensors_data_round_trips(v.sensors_data)
}

impl Encode for Meta {
    open spec fn write(v: MetaView) -> JsonView {
        JsonView::Object(present(all_meta_members(v)))
    }

    /// Writes the record of an image as a JSON object, leaving out what has no value.
    fn encode(&self) -> (r: Json) {
        let mut members: Vec<(String, Json)> = Vec::new();
        assert(members_view(members@) =~= Seq::empty());
        push_present(&mut members, "deviceId", Json::of_text(self.device_id.as_str()));
        push_present(&mut members, "timestamp", Json::of_text(self.timestamp.as_str()));
        push_present(&mut members, "sensorsData", self.sensors_data.encode());
        proof {
            reveal_with_fuel(built, 4);
            lemma_built(all_meta_members(self.deep_view()));
        }
        Json::object(members)
    }
}

/// Reading the wire form of the record of an image gives it back.
pub proof fn lemma_meta_round_trip(v: MetaView)
    requires
        meta_round_trips(v),
    ensures
        Meta::read(Meta::write(v)) == Ok::<MetaView, SchemaError>(v),
        Meta::write(v) is Object,
{
    reveal_strlit("deviceId");
    reveal_strlit("timestamp");
    reveal_strlit("sensorsData");
    assert("deviceId"@.len() == 8 && "deviceId"@[0] == 'd');
    assert("timestamp"@.len() == 9 && "timestamp"@[0] == 't');
    assert("sensorsData"@.len() == 11 && "sensorsData"@[0] == 's');
    reveal_with_fuel(no_key_before, 4);
    reveal_with_fuel(keys_differ, 4);
    let all = all_meta_members(v);
    let j = Meta::write(v);
    lemma_keys_differ(all, 3);
    lemma_present_at(all, "deviceId"@, 0);
    lemma_present_at(all, "timestamp"@, 1);
    lemma_present_at(all, "sensorsData"@, 2);
    assert(j.req_text("deviceId"@) == Ok::<Seq<char>, SchemaError>(v.device_id));
    assert(j.req_text("timestamp"@) == Ok::<Seq<char>, SchemaError>(v.timestamp));
    lemma_sensors_data_round_trip(v.sensors_data);
    assert(required_as(j.required("sensorsData"@), reader::<SensorsData>()) == Ok::<SensorsDataView, SchemaError>(v.sensors_data));
}

/// The members of a related image in the order they are written, those without a
/// value as `null`.
pub open spec fn all_related_images_members(v: RelatedImagesView) -> Seq<(Seq<char>, JsonView)> {
    seq![
        ("name"@, JsonView::Text(v.name)),
        ("meta"@, Meta::write(v.meta)),
    ]
}

/// Whether a related image comes back from its wire form: what it holds does.
pub open spec fn related_images_round_trips(v: RelatedImagesView) -> bool {
    &&& meta_round_trips(v.meta)
}

impl Encode for RelatedImages {
    open spec fn write(v: RelatedImagesView) -> JsonView {
        JsonView::Object(present(all_related_images_members(v)))
    }

    /// Writes a related image as a JSON object, leaving out what has no value.
    fn encode(&self) -> (r: Json) {
        let mut members: Vec<(String, Json)> = Vec::new();
        assert(members_view(members@) =~= Seq::empty());
        push_present(&mut members, "name", Json::of_text(self.name.as_str()));
        push_present(&mut members, "meta", self.meta.encode());
        proof {
            reveal_with_fuel(built, 3);
            lemma_built(all_related_images_members(self.deep_view()));
        }
        Json::object(members)
    }
}

/// Reading the wire form of a related image gives it back.
pub proof fn lemma_related_images_round_trip(v: RelatedImagesView)
    requires
        related_images_round_trips(v),
    ensures
        RelatedImages::read(RelatedImages::write(v)) == Ok::<RelatedImagesView, SchemaError>(v),
        RelatedImages::write(v) is Object,
{
    reveal_strlit("name");
    reveal_strlit("meta");
    assert("name"@.len() == 4 && "name"@[0] == 'n');
    assert("meta"@.len() == 4 && "meta"@[0] == 'm');
    reveal_with_fuel(no_key_before, 3);
    reveal_with_fuel(keys_differ, 3);
    let all = all_related_images_members(v);
    let j = RelatedImages::write(v);
    lemma_keys_differ(all, 2);
    lemma_present_at(all, "name"@, 0);
    lemma_present_at(all, "meta"@, 1);
    assert(j.req_text("name"@) == Ok::<Seq<char>, SchemaError>(v.name));
    lemma_meta_round_trip(v.meta);
    assert(required_as(j.required("meta"@), reader::<Meta>()) == Ok::<MetaView, SchemaError>(v.meta));
}

/// The members of a class in the order they are written, those without a
/// value as `null`.
pub open spec fn all_class_meta_members(v: ClassMetaView) -> Seq<(Seq<char>, JsonView)> {
    seq![
        ("title"@, JsonView::Text(v.title)),
        ("shape"@, Shape::write(v.shape)),
        ("color"@, write_opt::<Rgb>(v.color)),
        ("geometry_config"@, JsonView::Object(Seq::empty())),
    ]
}

/// Whether a class comes back from its wire form: what it holds does.
pub open spec fn class_meta_round_trips(v: ClassMetaView) -> bool {
    &&& (v.color matches Some(c) ==> rgb_round_trips(c))
}

impl Encode for ClassMeta {
    open spec fn write(v: ClassMetaView) -> JsonView {
        JsonView::Object(present(all_class_meta_members(v)))
    }

    /// Writes a class as a JSON object, leaving out what has no value.
    fn encode(&self) -> (r: Json) {
        let mut members: Vec<(String, Json)> = Vec::new();
        assert(members_view(members@) =~= Seq::empty());
        push_present(&mut members, "title", Json::of_text(self.title.as_str()));
        push_present(&mut members, "shape", self.shape.encode());
        push_present(&mut members, "color", encode_opt::<Rgb>(&self.color));
        push_present(&mut members, "geometry_config", Json::object(Vec::new()));
        proof {
            reveal_with_fuel(built, 5);
            lemma_built(all_class_meta_members(self.deep_view()));
        }
        Json::object(members)
    }
}

/// Reading the wire form of a class gives it back.
pub proof fn lemma_class_meta_round_trip(v: ClassMetaView)
    requires
        class_meta_round_trips(v),
    ensures
        ClassMeta::read(ClassMeta::write(v)) == Ok::<ClassMetaView, SchemaError>(v),
        ClassMeta::write(v) is Object,
{
    reveal_strlit("title");
    reveal_strlit("shape");
    reveal_strlit("color");
    reveal_strlit("geometry_config");
    assert("title"@.len() == 5 && "title"@[0] == 't');
    assert("shape"@.len() == 5 && "shape"@[0] == 's');
    assert("color"@.len() == 5 && "color"@[0] == 'c');
    assert("geometry_config"@.len() == 15 && "geometry_config"@[0] == 'g');
    reveal_with_fuel(no_key_before, 5);
    reveal_with_fuel(keys_differ, 5);
    let all = all_class_meta_members(v);
    let j = ClassMeta::write(v);
    lemma_keys_differ(all, 4);
    lemma_present_at(all, "title"@, 0);
    lemma_present_at(all, "shape"@, 1);
    lemma_present_at(all, "color"@, 2);
    lemma_present_at(all, "geometry_config"@, 3);
    assert(j.req_text("title"@) == Ok::<Seq<char>, SchemaError>(v.title));
    lemma_shape_round_trip(v.shape);
    assert(required_as(j.required("shape"@), reader::<Shape>()) == Ok::<Shape, SchemaError>(v.shape));
    assert(optional_as(j.optional("color"@), reader::<Rgb>()) == Ok::<Option<Rgb>, SchemaError>(v.color));
}

/// The members of a name of tags in the order they are written, those without a
/// value as `null`.
pub open spec fn all_tag_meta_members(v: TagMetaView) -> Seq<(Seq<char>, JsonView)> {
    seq![
        ("name"@, JsonView::Text(v.name)),
        ("color"@, write_opt::<Rgb>(v.color)),
        ("value_type"@, ValueType::write(v.value_type)),
        ("values"@, write_opt::<Vec<String>>(v.values)),
    ]
}

/// Whether a name of tags comes back from its wire form: what it holds does.
pub open spec fn tag_meta_round_trips(v: TagMetaView) -> bool {
    &&& (v.color matches Some(c) ==> rgb_round_trips(c))
    &&& (v.values is Some ==> v.values->Some_0.no_duplicates())
}

impl Encode for TagMeta {
    open spec fn write(v: TagMetaView) -> JsonView {
        JsonView::Object(present(all_tag_meta_members(v)))
    }

    /// Writes a name of tags as a JSON object, leaving out what has no value.
    fn encode(&self) -> (r: Json) {
        let mut members: Vec<(String, Json)> = Vec::new();
        assert(members_view(members@) =~= Seq::empty());
        push_present(&mut members, "name", Json::of_text(self.name.as_str()));
        push_present(&mut members, "color", encode_opt::<Rgb>(&self.color));
        push_present(&mut members, "value_type", self.value_type.encode());
        push_present(&mut members, "values", encode_opt::<Vec<String>>(&self.values));
        proof {
            reveal_with_fuel(built, 5);
            lemma_built(all_tag_meta_members(self.deep_view()));
        }
        Json::object(members)
    }
}

/// Reading the wire form of a name of tags gives it back.
pub proof fn lemma_tag_meta_round_trip(v: TagMetaView)
    requires
        tag_meta_round_trips(v),
    ensures
        TagMeta::read(TagMeta::write(v)) == Ok::<TagMetaView, SchemaError>(v),
        TagMeta::write(v) is Object,
{
    reveal_strlit("name");
    reveal_strlit("color");
    reveal_strlit("value_type");
    reveal_strlit("values");
    assert("name"@.len() == 4 && "name"@[0] == 'n');
    assert("color"@.len() == 5 && "color"@[0] == 'c');
    assert("value_type"@.len() == 10 && "value_type"@[0] == 'v');
    assert("values"@.len() == 6 && "values"@[0] == 'v');
    reveal_with_fuel(no_key_before, 5);
    reveal_with_fuel(keys_differ, 5);
    let all = all_tag_meta_members(v);
    let j = TagMeta::write(v);
    lemma_keys_differ(all, 4);
    lemma_present_at(all, "name"@, 0);
    lemma_present_at(all, "color"@, 1);
    lemma_present_at(all, "value_type"@, 2);
    lemma_present_at(all, "values"@, 3);
    assert(j.req_text("name"@) == Ok::<Seq<char>, SchemaError>(v.name));
    assert(optional_as(j.optional("color"@), reader::<Rgb>()) == Ok::<Option<Rgb>, SchemaError>(v.color));
    lemma_value_type_round_trip(v.value_type);
    assert(required_as(j.required("value_type"@), reader::<ValueType>()) == Ok::<ValueType, SchemaError>(v.value_type));
    if v.values is Some {
        assert forall|i: int| 0 <= i < v.values->Some_0.len() implies String::read(
            String::write(#[trigger] v.values->Some_0[i]),
        ) == Ok::<Seq<char>, SchemaError>(v.values->Some_0[i]) by {
            
        }
        lemma_list_round_trip::<String>(v.values->Some_0);
        lemma_each_once(v.values->Some_0, v.values->Some_0.len() as int);
        assert(v.values->Some_0.take(v.values->Some_0.len() as int) =~= v.values->Some_0);
    }
}

/// The members of the taxonomy of a project in the order they are written, those without a
/// value as `null`.
pub open spec fn all_project_meta_members(v: ProjectMetaView) -> Seq<(Seq<char>, JsonView)> {
    seq![
        ("classes"@, <Vec<ClassMeta>>::write(v.classes)),
        ("tags"@, <Vec<TagMeta>>::write(v.tags)),
    ]
}

/// Whether the taxonomy of a project comes back from its wire form: what it holds does.
pub open spec fn project_meta_round_trips(v: ProjectMetaView) -> bool {
    &&& (forall|i: int| 0 <= i < v.classes.len() ==> class_meta_round_trips((#[trigger] v.classes[i])))
    &&& (forall|i: int| 0 <= i < v.tags.len() ==> tag_meta_round_trips((#[trigger] v.tags[i])))
}

impl Encode for ProjectMeta {
    open spec fn write(v: ProjectMetaView) -> JsonView {
        JsonView::Object(present(all_project_meta_members(v)))
    }

    /// Writes the taxonomy of a project as a JSON object, leaving out what has no value.
    fn encode(&self) -> (r: Json) {
        let mut members: Vec<(String, Json)> = Vec::new();
        assert(members_view(members@) =~= Seq::empty());
        push_present(&mut members, "classes", self.classes.encode());
        push_present(&mut members, "tags", self.tags.encode());
        proof {
            reveal_with_fuel(built, 3);
            lemma_built(all_project_meta_members(self.deep_view()));
        }
        Json::object(members)
    }
}

/// Reading the wire form of the taxonomy of a project gives it back.
pub proof fn lemma_project_meta_round_trip(v: ProjectMetaView)
    requires
        project_meta_round_trips(v),
    ensures
        ProjectMeta::read(ProjectMeta::write(v)) == Ok::<ProjectMetaView, SchemaError>(v),
        ProjectMeta::write(v) is Object,
{
    reveal_strlit("classes");
    reveal_strlit("tags");
    assert("classes"@.len() == 7 && "classes"@[0] == 'c');
    assert("tags"@.len() == 4 && "tags"@[0] == 't');
    reveal_with_fuel(no_key_before, 3);
    reveal_with_fuel(keys_differ, 3);
    let all = all_project_meta_members(v);
    let j = ProjectMeta::write(v);
    lemma_keys_differ(all, 2);
    lemma_present_at(all, "classes"@, 0);
    lemma_present_at(all, "tags"@, 1);
    {
        assert forall|i: int| 0 <= i < v.classes.len() implies ClassMeta::read(
            ClassMeta::write(#[trigger] v.classes[i]),
        ) == Ok::<ClassMetaView, SchemaError>(v.classes[i]) by {
            lemma_class_meta_round_trip(v.classes[i]);
        }
        lemma_list_round_trip::<ClassMeta>(v.classes);
    }
    {
        assert forall|i: int| 0 <= i < v.tags.len() implies TagMeta::read(
            TagMeta::write(#[trigger] v.tags[i]),
        ) == Ok::<TagMetaView, SchemaError>(v.tags[i]) by {
            lemma_tag_meta_round_trip(v.tags[i]);
        }
        lemma_list_round_trip::<TagMeta>(v.tags);
    }
}

} // verus!
