//! Writing a shape and reading it back gives the same shape.

use crate::error::SchemaError;
use crate::finite::Finite;
use crate::geometry::{
    all_bitmap_geometry_members, all_cuboid_members, all_outline_members, bitmap_members,
    geometry_members, geometry_of_json, geometry_type_of_name, name_of_geometry_type,
    name_of_shape, outline_members, outline_of_json, points_members, shape_of_name, xyz_members,
    Bitmap, BitmapView, Geometry, GeometryType, GeometryView, OutlineView, Points, PointsView,
    Shape, Xyz, XyzView,
};
use crate::json::{
    keys_differ, lemma_keys_differ, lemma_member_absent, lemma_member_at, lemma_member_of_both,
    lemma_present_at, lemma_present_members, no_key_before, JsonNumber, JsonView,
};
use crate::objects::{
    all_object_own_members, object_members, object_own_members, Object, ObjectView,
};
use crate::tags::{lemma_tag_round_trip, tag_round_trips, Tag, TagView};
use crate::wire::{lemma_list_round_trip, Decode, Encode};
use vstd::prelude::*;

verus! {

/// Both numbers of a point are finite.
pub open spec fn point_is_finite(p: (JsonNumber, JsonNumber)) -> bool {
    p.0.is_finite() && p.1.is_finite()
}

/// Every point of a line is finite.
pub open spec fn line_is_finite(line: Seq<(JsonNumber, JsonNumber)>) -> bool {
    forall|i: int| 0 <= i < line.len() ==> point_is_finite(#[trigger] line[i])
}

/// Every point of an outline, boundary and holes, is finite.
pub open spec fn points_are_finite(p: PointsView) -> bool {
    &&& line_is_finite(p.exterior)
    &&& forall|i: int| 0 <= i < p.interior.len() ==> line_is_finite(#[trigger] p.interior[i])
}

/// The three numbers of a vector are finite.
pub open spec fn xyz_is_finite(v: XyzView) -> bool {
    v.x.is_finite() && v.y.is_finite() && v.z.is_finite()
}

/// Each tag of the list, where there is one, comes back from its wire form.
pub open spec fn tags_round_trip(tags: Option<Seq<TagView>>) -> bool {
    match tags {
        Some(list) => forall|i: int| 0 <= i < list.len() ==> tag_round_trips(#[trigger] list[i]),
        None => true,
    }
}

/// The shapes that come back from their wire form: every coordinate is
/// finite and no tag holds a selected option, which the wire does not tell
/// from free text.
pub open spec fn geometry_round_trips(g: GeometryView) -> bool {
    match g {
        GeometryView::Point(o) | GeometryView::Rectangle(o) | GeometryView::Polygon(o)
        | GeometryView::Polyline(o) => tags_round_trip(o.tags) && points_are_finite(o.points),
        GeometryView::Bitmap(b) => tags_round_trip(b.tags),
        GeometryView::Cuboid3D(c) => {
            &&& tags_round_trip(c.tags)
            &&& xyz_is_finite(c.position)
            &&& xyz_is_finite(c.rotation)
            &&& xyz_is_finite(c.dimensions)
        },
    }
}

/// A shape's name selects that shape.
pub proof fn lemma_shape_round_trip(shape: Shape)
    ensures
        shape_of_name(name_of_shape(shape)) == Some(shape),
        Shape::read(Shape::write(shape)) == Ok::<Shape, SchemaError>(shape),
{
    reveal_strlit("rectangle");
    reveal_strlit("line");
    reveal_strlit("polygon");
    reveal_strlit("point");
    reveal_strlit("bitmap");
    reveal_strlit("cuboid_3d");
    assert("rectangle"@.len() == 9 && "rectangle"@[0] == 'r');
    assert("line"@.len() == 4);
    assert("polygon"@.len() == 7);
    assert("point"@.len() == 5);
    assert("bitmap"@.len() == 6);
    assert("cuboid_3d"@.len() == 9 && "cuboid_3d"@[0] == 'c');
}

/// A kind's discriminator selects that kind.
pub proof fn lemma_geometry_type_round_trip(kind: GeometryType)
    ensures
        geometry_type_of_name(name_of_geometry_type(kind)) == Some(kind),
{
    reveal_strlit("point");
    reveal_strlit("rectangle");
    reveal_strlit("polygon");
    reveal_strlit("polyline");
    reveal_strlit("bitmap");
    reveal_strlit("cuboid_3d");
    assert("point"@.len() == 5);
    assert("rectangle"@.len() == 9 && "rectangle"@[0] == 'r');
    assert("polygon"@.len() == 7);
    assert("polyline"@.len() == 8);
    assert("bitmap"@.len() == 6);
    assert("cuboid_3d"@.len() == 9 && "cuboid_3d"@[0] == 'c');
}

/// A finite point comes back from its wire form.
pub proof fn lemma_point_round_trip(p: (JsonNumber, JsonNumber))
    requires
        point_is_finite(p),
    ensures
        <(Finite, Finite)>::read(<(Finite, Finite)>::write(p)) == Ok::<
            (JsonNumber, JsonNumber),
            SchemaError,
        >(p),
{
}

/// A line of finite points comes back from its wire form.
pub proof fn lemma_line_round_trip(line: Seq<(JsonNumber, JsonNumber)>)
    requires
        line_is_finite(line),
    ensures
        <Vec<(Finite, Finite)>>::read(<Vec<(Finite, Finite)>>::write(line)) == Ok::<
            Seq<(JsonNumber, JsonNumber)>,
            SchemaError,
        >(line),
{
    assert forall|i: int| 0 <= i < line.len() implies <(Finite, Finite)>::read(
        <(Finite, Finite)>::write(#[trigger] line[i]),
    ) == Ok::<(JsonNumber, JsonNumber), SchemaError>(line[i]) by {
        lemma_point_round_trip(line[i]);
    }
    lemma_list_round_trip::<(Finite, Finite)>(line);
}

/// An outline of finite points comes back from its wire form.
pub proof fn lemma_points_round_trip(p: PointsView)
    requires
        points_are_finite(p),
    ensures
        Points::read(Points::write(p)) == Ok::<PointsView, SchemaError>(p),
        Points::write(p) != JsonView::Null,
{
    reveal_strlit("exterior");
    reveal_strlit("interior");
    reveal_with_fuel(no_key_before, 3);
    assert("exterior"@.len() == 8 && "exterior"@[0] == 'e');
    assert("interior"@.len() == 8 && "interior"@[0] == 'i');
    let m = points_members(p);
    lemma_member_at(m, "exterior"@, 0);
    lemma_member_at(m, "interior"@, 1);
    lemma_line_round_trip(p.exterior);
    assert forall|i: int| 0 <= i < p.interior.len() implies <Vec<(Finite, Finite)>>::read(
        <Vec<(Finite, Finite)>>::write(#[trigger] p.interior[i]),
    ) == Ok::<Seq<(JsonNumber, JsonNumber)>, SchemaError>(p.interior[i]) by {
        lemma_line_round_trip(p.interior[i]);
    }
    lemma_list_round_trip::<Vec<(Finite, Finite)>>(p.interior);
}

/// A mask comes back from its wire form.
pub proof fn lemma_bitmap_round_trip(b: BitmapView)
    ensures
        Bitmap::read(Bitmap::write(b)) == Ok::<BitmapView, SchemaError>(b),
{
    reveal_strlit("data");
    reveal_strlit("origin");
    reveal_with_fuel(no_key_before, 3);
    assert("data"@.len() == 4);
    assert("origin"@.len() == 6);
    let m = bitmap_members(b);
    lemma_member_at(m, "data"@, 0);
    lemma_member_at(m, "origin"@, 1);
}

/// A vector of finite numbers comes back from its wire form.
pub proof fn lemma_xyz_round_trip(v: XyzView)
    requires
        xyz_is_finite(v),
    ensures
        Xyz::read(Xyz::write(v)) == Ok::<XyzView, SchemaError>(v),
{
    reveal_strlit("x");
    reveal_strlit("y");
    reveal_strlit("z");
    reveal_with_fuel(no_key_before, 4);
    assert("x"@.len() == 1 && "x"@[0] == 'x');
    assert("y"@.len() == 1 && "y"@[0] == 'y');
    assert("z"@.len() == 1 && "z"@[0] == 'z');
    let m = xyz_members(v);
    lemma_member_at(m, "x"@, 0);
    lemma_member_at(m, "y"@, 1);
    lemma_member_at(m, "z"@, 2);
}

/// A list of tags, where there is one, comes back from its wire form.
pub proof fn lemma_tags_round_trip(tags: Option<Seq<TagView>>)
    requires
        tags_round_trip(tags),
    ensures
        match tags {
            Some(list) => <Vec<Tag>>::read(<Vec<Tag>>::write(list)) == Ok::<
                Seq<TagView>,
                SchemaError,
            >(list),
            None => true,
        },
{
    if let Some(list) = tags {
        assert forall|i: int| 0 <= i < list.len() implies Tag::read(
            Tag::write(#[trigger] list[i]),
        ) == Ok::<TagView, SchemaError>(list[i]) by {
            lemma_tag_round_trip(list[i]);
        }
        lemma_list_round_trip::<Tag>(list);
    }
}

/// The names of the members of a shape differ in length or first letter.
pub proof fn lemma_geometry_keys()
    ensures
        "geometryType"@.len() == 12 && "geometryType"@[0] == 'g',
        "tags"@.len() == 4,
        "points"@.len() == 6 && "points"@[0] == 'p',
        "bitmap"@.len() == 6 && "bitmap"@[0] == 'b',
        "shape"@.len() == 5,
        "position"@.len() == 8 && "position"@[0] == 'p',
        "rotation"@.len() == 8 && "rotation"@[0] == 'r',
        "dimensions"@.len() == 10,
{
    reveal_strlit("geometryType");
    reveal_strlit("tags");
    reveal_strlit("points");
    reveal_strlit("bitmap");
    reveal_strlit("shape");
    reveal_strlit("position");
    reveal_strlit("rotation");
    reveal_strlit("dimensions");
}

proof fn lemma_outline_round_trip(kind: GeometryType, o: OutlineView)
    requires
        tags_round_trip(o.tags),
        points_are_finite(o.points),
    ensures
        JsonView::Object(outline_members(kind, o)).req_text("geometryType"@) == Ok::<
            Seq<char>,
            SchemaError,
        >(name_of_geometry_type(kind)),
        outline_of_json(JsonView::Object(outline_members(kind, o))) == Ok::<
            OutlineView,
            SchemaError,
        >(o),
{
    lemma_geometry_keys();
    reveal_with_fuel(no_key_before, 4);
    reveal_with_fuel(keys_differ, 4);
    let m = all_outline_members(kind, o);
    lemma_keys_differ(m, 3);
    lemma_present_at(m, "geometryType"@, 0);
    lemma_present_at(m, "tags"@, 1);
    lemma_present_at(m, "points"@, 2);
    lemma_tags_round_trip(o.tags);
    lemma_points_round_trip(o.points);
}

/// Reading what was written gives the shape back: for every shape whose
/// coordinates are finite and whose tags hold no selected option, decoding
/// its wire form succeeds with that shape.
pub proof fn lemma_decode_encode(g: GeometryView)
    requires
        geometry_round_trips(g),
    ensures
        Geometry::read(Geometry::write(g)) == Ok::<GeometryView, SchemaError>(g),
{
    lemma_geometry_type_round_trip(g.kind());
    match g {
        GeometryView::Point(o) => {
            lemma_outline_round_trip(GeometryType::Point, o);
        },
        GeometryView::Rectangle(o) => {
            lemma_outline_round_trip(GeometryType::Rectangle, o);
        },
        GeometryView::Polygon(o) => {
            lemma_outline_round_trip(GeometryType::Polygon, o);
        },
        GeometryView::Polyline(o) => {
            lemma_outline_round_trip(GeometryType::Polyline, o);
        },
        GeometryView::Bitmap(b) => {
            lemma_geometry_keys();
            reveal_with_fuel(no_key_before, 5);
            reveal_with_fuel(keys_differ, 5);
            let m = all_bitmap_geometry_members(b);
            lemma_keys_differ(m, 4);
            lemma_present_at(m, "geometryType"@, 0);
            lemma_present_at(m, "tags"@, 1);
            lemma_present_at(m, "bitmap"@, 2);
            lemma_present_at(m, "shape"@, 3);
            lemma_tags_round_trip(b.tags);
            lemma_bitmap_round_trip(b.bitmap);
            if b.shape is Some {
                lemma_shape_round_trip(b.shape->Some_0);
            }
        },
        GeometryView::Cuboid3D(c) => {
            lemma_geometry_keys();
            reveal_with_fuel(no_key_before, 6);
            reveal_with_fuel(keys_differ, 6);
            let m = all_cuboid_members(c);
            lemma_keys_differ(m, 5);
            lemma_present_at(m, "geometryType"@, 0);
            lemma_present_at(m, "tags"@, 1);
            lemma_present_at(m, "position"@, 2);
            lemma_present_at(m, "rotation"@, 3);
            lemma_present_at(m, "dimensions"@, 4);
            lemma_tags_round_trip(c.tags);
            lemma_xyz_round_trip(c.position);
            lemma_xyz_round_trip(c.rotation);
            lemma_xyz_round_trip(c.dimensions);
        },
    }
}

proof fn lemma_object_keys()
    ensures
        "id"@.len() == 2,
        "classId"@.len() == 7,
        "labelerLogin"@.len() == 12 && "labelerLogin"@[0] == 'l',
        "createdAt"@.len() == 9 && "createdAt"@[0] == 'c',
        "updatedAt"@.len() == 9 && "updatedAt"@[0] == 'u',
{
    reveal_strlit("id");
    reveal_strlit("classId");
    reveal_strlit("labelerLogin");
    reveal_strlit("createdAt");
    reveal_strlit("updatedAt");
}

/// The object has no member of its own named `key`.
spec fn not_own(o: ObjectView, key: Seq<char>) -> bool {
    forall|k: int|
        0 <= k < all_object_own_members(o).len() ==> (#[trigger] all_object_own_members(
            o,
        )[k]).0 != key
}

proof fn lemma_shape_member(o: ObjectView, key: Seq<char>)
    requires
        not_own(o, key),
    ensures
        JsonView::Object(object_members(o)).member(key) == JsonView::Object(
            geometry_members(o.geometry),
        ).member(key),
{
    lemma_present_members(all_object_own_members(o), 0);
    lemma_member_absent(object_own_members(o), key, 0);
    lemma_member_of_both(object_own_members(o), geometry_members(o.geometry), key);
}

/// A shape writes no member under a name that is none of the eight names
/// of its members.
pub proof fn lemma_not_shape_member(g: GeometryView, key: Seq<char>)
    requires
        key != "geometryType"@,
        key != "tags"@,
        key != "points"@,
        key != "bitmap"@,
        key != "shape"@,
        key != "position"@,
        key != "rotation"@,
        key != "dimensions"@,
    ensures
        crate::json::find_member(geometry_members(g), key, 0) is None,
{
    let all = match g {
        GeometryView::Point(o) => all_outline_members(GeometryType::Point, o),
        GeometryView::Rectangle(o) => all_outline_members(GeometryType::Rectangle, o),
        GeometryView::Polygon(o) => all_outline_members(GeometryType::Polygon, o),
        GeometryView::Polyline(o) => all_outline_members(GeometryType::Polyline, o),
        GeometryView::Bitmap(b) => all_bitmap_geometry_members(b),
        GeometryView::Cuboid3D(c) => all_cuboid_members(c),
    };
    assert(geometry_members(g) == crate::json::present(all));
    assert forall|k: int| 0 <= k < all.len() implies (#[trigger] all[k]).0 != key by {}
    lemma_present_members(all, 0);
    lemma_member_absent(crate::json::present(all), key, 0);
}

/// A member of a shape is found beside the members of its holder as it is
/// found in the shape alone, where the holder has no member of that name.
pub proof fn lemma_shape_beside(
    own: Seq<(Seq<char>, JsonView)>,
    g: GeometryView,
    key: Seq<char>,
)
    requires
        forall|k: int| 0 <= k < own.len() ==> (#[trigger] own[k]).0 != key,
    ensures
        JsonView::Object(crate::json::present(own) + geometry_members(g)).member(key)
            == JsonView::Object(geometry_members(g)).member(key),
{
    lemma_present_members(own, 0);
    lemma_member_absent(crate::json::present(own), key, 0);
    lemma_member_of_both(crate::json::present(own), geometry_members(g), key);
}

/// Reading what was written gives the object back: the members of the
/// shape, merged into those of the object, are found again beside them.
pub proof fn lemma_object_round_trip(o: ObjectView)
    requires
        geometry_round_trips(o.geometry),
    ensures
        Object::read(Object::write(o)) == Ok::<ObjectView, SchemaError>(o),
{
    lemma_object_keys();
    lemma_geometry_keys();
    reveal_with_fuel(no_key_before, 6);
    reveal_with_fuel(keys_differ, 6);
    let all = all_object_own_members(o);
    let own = object_own_members(o);
    let shape = geometry_members(o.geometry);
    let merged = JsonView::Object(object_members(o));
    let alone = JsonView::Object(shape);
    lemma_keys_differ(all, 5);
    lemma_present_at(all, "id"@, 0);
    lemma_present_at(all, "classId"@, 1);
    lemma_present_at(all, "labelerLogin"@, 2);
    lemma_present_at(all, "createdAt"@, 3);
    lemma_present_at(all, "updatedAt"@, 4);
    lemma_not_shape_member(o.geometry, "classId"@);
    lemma_not_shape_member(o.geometry, "labelerLogin"@);
    lemma_not_shape_member(o.geometry, "createdAt"@);
    lemma_not_shape_member(o.geometry, "updatedAt"@);
    lemma_member_of_both(own, shape, "id"@);
    lemma_member_of_both(own, shape, "classId"@);
    lemma_member_of_both(own, shape, "labelerLogin"@);
    lemma_member_of_both(own, shape, "createdAt"@);
    lemma_member_of_both(own, shape, "updatedAt"@);
    assert(all[0].0 == "id"@ && all[1].0 == "classId"@ && all[2].0 == "labelerLogin"@ && all[3].0
        == "createdAt"@ && all[4].0 == "updatedAt"@);
    assert(not_own(o, "geometryType"@));
    assert(not_own(o, "tags"@));
    assert(not_own(o, "points"@));
    assert(not_own(o, "bitmap"@));
    assert(not_own(o, "shape"@));
    assert(not_own(o, "position"@));
    assert(not_own(o, "rotation"@));
    assert(not_own(o, "dimensions"@));
    lemma_shape_member(o, "geometryType"@);
    lemma_shape_member(o, "tags"@);
    lemma_shape_member(o, "points"@);
    lemma_shape_member(o, "bitmap"@);
    lemma_shape_member(o, "shape"@);
    lemma_shape_member(o, "position"@);
    lemma_shape_member(o, "rotation"@);
    lemma_shape_member(o, "dimensions"@);
    lemma_decode_encode(o.geometry);
    assert(geometry_of_json(merged) == geometry_of_json(alone));
}

} // verus!
