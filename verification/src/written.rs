//! Writing a shape that was read gives what was read: where an object holds
//! exactly the members of its kind, the members written for the decoded
//! shape are those of the object, order aside.

use crate::error::SchemaError;
use crate::finite::Finite;
use crate::geometry::{
    all_bitmap_geometry_members, all_cuboid_members, all_outline_members, bitmap_members,
    geometry_of_json, geometry_type_of_name, points_members, xyz_members, Bitmap, Geometry,
    GeometryType, GeometryView, Points, Xyz,
};
use crate::json::{
    array_as, find_member, holds_only, keys_differ, lemma_distinct_both, lemma_found_is_member,
    lemma_items_as_each, lemma_keys_differ, lemma_present_both, lemma_present_whole,
    lemma_same_object, no_key_before, same_json, JsonNumber, JsonView,
};
use crate::objects::{all_object_own_members, object_of_json, Object};
use crate::tags::{all_tag_members, json_of_tag, tag_of_json, Tag};
use crate::wire::{reader, write_items, Decode, Encode};
use vstd::prelude::*;

verus! {

/// The names of the members of a tag.
pub open spec fn tag_keys() -> Seq<Seq<char>> {
    seq!["name"@, "value"@, "id"@, "tagId"@, "labelerLogin"@, "createdAt"@, "updatedAt"@]
}

/// An object that holds only members of a tag, each at most once and none
/// of them `null`, with a number for its value held the way the parser
/// holds it.
pub open spec fn exact_tag(j: JsonView) -> bool {
    &&& j is Object
    &&& holds_only(j->Object_0, tag_keys())
    &&& (j.member("value"@) matches Some(JsonView::Number(JsonNumber::NegInt(n))) ==> n < 0)
}

proof fn lemma_tag_keys()
    ensures
        "name"@.len() == 4 && "name"@[0] == 'n',
        "value"@.len() == 5 && "value"@[0] == 'v',
        "id"@.len() == 2 && "id"@[0] == 'i',
        "tagId"@.len() == 5 && "tagId"@[0] == 't',
        "labelerLogin"@.len() == 12 && "labelerLogin"@[0] == 'l',
        "createdAt"@.len() == 9 && "createdAt"@[0] == 'c',
        "updatedAt"@.len() == 9 && "updatedAt"@[0] == 'u',
{
    reveal_strlit("name");
    reveal_strlit("value");
    reveal_strlit("id");
    reveal_strlit("tagId");
    reveal_strlit("labelerLogin");
    reveal_strlit("createdAt");
    reveal_strlit("updatedAt");
}

/// What a lookup in an object whose members are none `null` finds is not
/// `null`.
proof fn lemma_found_has_value(
    members: Seq<(Seq<char>, JsonView)>,
    keys: Seq<Seq<char>>,
    key: Seq<char>,
)
    requires
        holds_only(members, keys),
    ensures
        find_member(members, key, 0) != Some(JsonView::Null),
{
    if find_member(members, key, 0) is Some {
        lemma_found_is_member(members, key, 0);
    }
}

/// The tag written for a tag that was read from an exact object is that
/// object, order aside.
pub proof fn lemma_tag_written(j: JsonView)
    requires
        exact_tag(j),
        tag_of_json(j) is Ok,
    ensures
        same_json(json_of_tag(tag_of_json(j)->Ok_0), j),
{
    let t = tag_of_json(j)->Ok_0;
    let all = all_tag_members(t);
    let m = j->Object_0;
    lemma_tag_keys();
    reveal_with_fuel(no_key_before, 8);
    reveal_with_fuel(keys_differ, 8);
    lemma_keys_differ(all, 7);
    lemma_found_has_value(m, tag_keys(), "name"@);
    lemma_found_has_value(m, tag_keys(), "value"@);
    lemma_found_has_value(m, tag_keys(), "id"@);
    lemma_found_has_value(m, tag_keys(), "tagId"@);
    lemma_found_has_value(m, tag_keys(), "labelerLogin"@);
    lemma_found_has_value(m, tag_keys(), "createdAt"@);
    lemma_found_has_value(m, tag_keys(), "updatedAt"@);
    assert forall|p: int| 0 <= p < all.len() implies match find_member(
        m,
        (#[trigger] all[p]).0,
        0,
    ) {
        Some(w) => all[p].1 != JsonView::Null && same_json(all[p].1, w),
        None => all[p].1 == JsonView::Null,
    } by {
        if p == 0 {
            assert(all[0].0 == "name"@);
        } else if p == 1 {
            assert(all[1].0 == "value"@);
        } else if p == 2 {
            assert(all[2].0 == "id"@);
        } else if p == 3 {
            assert(all[3].0 == "tagId"@);
        } else if p == 4 {
            assert(all[4].0 == "labelerLogin"@);
        } else if p == 5 {
            assert(all[5].0 == "createdAt"@);
        } else {
            assert(all[6].0 == "updatedAt"@);
        }
    }
    lemma_same_object(all, m, tag_keys());
}

/// The list written for a list that was read is the array it was read
/// from, where that holds of each item.
pub proof fn lemma_list_written<T: Decode + Encode>(w: JsonView)
    requires
        array_as(w, reader::<T>()) is Ok,
        forall|i: int|
            0 <= i < w->Array_0.len() && T::read(#[trigger] w->Array_0[i]) is Ok ==> same_json(
                T::write(T::read(w->Array_0[i])->Ok_0),
                w->Array_0[i],
            ),
    ensures
        same_json(write_items::<T>(array_as(w, reader::<T>())->Ok_0), w),
{
    let items = w->Array_0;
    let values = array_as(w, reader::<T>())->Ok_0;
    lemma_items_as_each(items, reader::<T>());
    let written = write_items::<T>(values)->Array_0;
    assert forall|i: int| 0 <= i < written.len() implies same_json(
        #[trigger] written[i],
        items[i],
    ) by {
        assert(reader::<T>()(items[i]) == Ok::<T::V, SchemaError>(values[i]));
        assert(written[i] == T::write(values[i]));
    }
}

/// The point written for a point that was read is the array it was read
/// from.
pub proof fn lemma_point_written(w: JsonView)
    requires
        <(Finite, Finite)>::read(w) is Ok,
    ensures
        same_json(<(Finite, Finite)>::write(<(Finite, Finite)>::read(w)->Ok_0), w),
{
    let p = <(Finite, Finite)>::read(w)->Ok_0;
    let written = <(Finite, Finite)>::write(p)->Array_0;
    assert forall|i: int| 0 <= i < written.len() implies same_json(
        #[trigger] written[i],
        w->Array_0[i],
    ) by {
        if i == 0 {
            assert(written[0] == JsonView::Number(p.0));
        } else {
            assert(written[1] == JsonView::Number(p.1));
        }
    }
}

/// The line written for a line that was read is the array it was read
/// from.
pub proof fn lemma_line_written(w: JsonView)
    requires
        <Vec<(Finite, Finite)>>::read(w) is Ok,
    ensures
        same_json(<Vec<(Finite, Finite)>>::write(<Vec<(Finite, Finite)>>::read(w)->Ok_0), w),
{
    assert forall|i: int|
        0 <= i < w->Array_0.len() && <(Finite, Finite)>::read(
            #[trigger] w->Array_0[i],
        ) is Ok implies same_json(
        <(Finite, Finite)>::write(<(Finite, Finite)>::read(w->Array_0[i])->Ok_0),
        w->Array_0[i],
    ) by {
        lemma_point_written(w->Array_0[i]);
    }
    lemma_list_written::<(Finite, Finite)>(w);
}

/// The lines written for lines that were read are the array they were
/// read from.
pub proof fn lemma_lines_written(w: JsonView)
    requires
        <Vec<Vec<(Finite, Finite)>>>::read(w) is Ok,
    ensures
        same_json(
            <Vec<Vec<(Finite, Finite)>>>::write(<Vec<Vec<(Finite, Finite)>>>::read(w)->Ok_0),
            w,
        ),
{
    assert forall|i: int|
        0 <= i < w->Array_0.len() && <Vec<(Finite, Finite)>>::read(
            #[trigger] w->Array_0[i],
        ) is Ok implies same_json(
        <Vec<(Finite, Finite)>>::write(<Vec<(Finite, Finite)>>::read(w->Array_0[i])->Ok_0),
        w->Array_0[i],
    ) by {
        lemma_line_written(w->Array_0[i]);
    }
    lemma_list_written::<Vec<(Finite, Finite)>>(w);
}

/// An array of objects each of which is an exact tag.
pub open spec fn exact_tags(j: JsonView) -> bool {
    j is Array && forall|i: int| 0 <= i < j->Array_0.len() ==> exact_tag(#[trigger] j->Array_0[i])
}

/// The tags written for tags that were read from exact objects are the
/// array they were read from, order within each tag aside.
pub proof fn lemma_tags_written(w: JsonView)
    requires
        exact_tags(w),
        <Vec<Tag>>::read(w) is Ok,
    ensures
        same_json(<Vec<Tag>>::write(<Vec<Tag>>::read(w)->Ok_0), w),
{
    assert forall|i: int|
        0 <= i < w->Array_0.len() && Tag::read(#[trigger] w->Array_0[i]) is Ok implies same_json(
        Tag::write(Tag::read(w->Array_0[i])->Ok_0),
        w->Array_0[i],
    ) by {
        lemma_tag_written(w->Array_0[i]);
    }
    lemma_list_written::<Tag>(w);
}

/// The names of the members of an outline.
pub open spec fn points_keys() -> Seq<Seq<char>> {
    seq!["exterior"@, "interior"@]
}

/// An object that holds only the two members of an outline, each at most
/// once and neither `null`.
pub open spec fn exact_points(j: JsonView) -> bool {
    j is Object && holds_only(j->Object_0, points_keys())
}

/// The outline written for an outline that was read from an exact object
/// is that object, order aside.
pub proof fn lemma_points_written(j: JsonView)
    requires
        exact_points(j),
        Points::read(j) is Ok,
    ensures
        same_json(Points::write(Points::read(j)->Ok_0), j),
{
    let p = Points::read(j)->Ok_0;
    let all = points_members(p);
    let m = j->Object_0;
    reveal_strlit("exterior");
    reveal_strlit("interior");
    assert("exterior"@.len() == 8 && "exterior"@[0] == 'e');
    assert("interior"@.len() == 8 && "interior"@[0] == 'i');
    reveal_with_fuel(no_key_before, 3);
    reveal_with_fuel(keys_differ, 3);
    lemma_keys_differ(all, 2);
    lemma_found_has_value(m, points_keys(), "exterior"@);
    lemma_found_has_value(m, points_keys(), "interior"@);
    assert forall|q: int| 0 <= q < all.len() implies match find_member(
        m,
        (#[trigger] all[q]).0,
        0,
    ) {
        Some(w) => all[q].1 != JsonView::Null && same_json(all[q].1, w),
        None => all[q].1 == JsonView::Null,
    } by {
        if q == 0 {
            assert(all[0].0 == "exterior"@);
            lemma_line_written(find_member(m, "exterior"@, 0)->Some_0);
        } else {
            assert(all[1].0 == "interior"@);
            lemma_lines_written(find_member(m, "interior"@, 0)->Some_0);
        }
    }
    lemma_same_object(all, m, points_keys());
    lemma_present_whole(all);
}

/// The names of the members of a mask.
pub open spec fn bitmap_keys() -> Seq<Seq<char>> {
    seq!["data"@, "origin"@]
}

/// An object that holds only the two members of a mask, each at most once
/// and neither `null`.
pub open spec fn exact_bitmap(j: JsonView) -> bool {
    j is Object && holds_only(j->Object_0, bitmap_keys())
}

/// The mask written for a mask that was read from an exact object is that
/// object, order aside.
pub proof fn lemma_bitmap_written(j: JsonView)
    requires
        exact_bitmap(j),
        Bitmap::read(j) is Ok,
    ensures
        same_json(Bitmap::write(Bitmap::read(j)->Ok_0), j),
{
    let b = Bitmap::read(j)->Ok_0;
    let all = bitmap_members(b);
    let m = j->Object_0;
    reveal_strlit("data");
    reveal_strlit("origin");
    assert("data"@.len() == 4);
    assert("origin"@.len() == 6);
    reveal_with_fuel(no_key_before, 3);
    reveal_with_fuel(keys_differ, 3);
    lemma_keys_differ(all, 2);
    lemma_found_has_value(m, bitmap_keys(), "data"@);
    lemma_found_has_value(m, bitmap_keys(), "origin"@);
    assert forall|q: int| 0 <= q < all.len() implies match find_member(
        m,
        (#[trigger] all[q]).0,
        0,
    ) {
        Some(w) => all[q].1 != JsonView::Null && same_json(all[q].1, w),
        None => all[q].1 == JsonView::Null,
    } by {
        if q == 0 {
            assert(all[0].0 == "data"@);
        } else {
            assert(all[1].0 == "origin"@);
            let w = find_member(m, "origin"@, 0)->Some_0;
            let written = all[1].1->Array_0;
            assert forall|i: int| 0 <= i < written.len() implies same_json(
                #[trigger] written[i],
                w->Array_0[i],
            ) by {
                if i == 0 {
                    assert(written[0] == JsonView::Number(JsonNumber::PosInt(b.origin.0)));
                } else {
                    assert(written[1] == JsonView::Number(JsonNumber::PosInt(b.origin.1)));
                }
            }
        }
    }
    lemma_same_object(all, m, bitmap_keys());
    lemma_present_whole(all);
}

/// The names of the members of a vector.
pub open spec fn xyz_keys() -> Seq<Seq<char>> {
    seq!["x"@, "y"@, "z"@]
}

/// An object that holds only the three members of a vector, each at most
/// once and none `null`.
pub open spec fn exact_xyz(j: JsonView) -> bool {
    j is Object && holds_only(j->Object_0, xyz_keys())
}

/// The vector written for a vector that was read from an exact object is
/// that object, order aside.
pub proof fn lemma_xyz_written(j: JsonView)
    requires
        exact_xyz(j),
        Xyz::read(j) is Ok,
    ensures
        same_json(Xyz::write(Xyz::read(j)->Ok_0), j),
{
    let v = Xyz::read(j)->Ok_0;
    let all = xyz_members(v);
    let m = j->Object_0;
    reveal_strlit("x");
    reveal_strlit("y");
    reveal_strlit("z");
    assert("x"@.len() == 1 && "x"@[0] == 'x');
    assert("y"@.len() == 1 && "y"@[0] == 'y');
    assert("z"@.len() == 1 && "z"@[0] == 'z');
    reveal_with_fuel(no_key_before, 4);
    reveal_with_fuel(keys_differ, 4);
    lemma_keys_differ(all, 3);
    lemma_found_has_value(m, xyz_keys(), "x"@);
    lemma_found_has_value(m, xyz_keys(), "y"@);
    lemma_found_has_value(m, xyz_keys(), "z"@);
    assert forall|q: int| 0 <= q < all.len() implies match find_member(
        m,
        (#[trigger] all[q]).0,
        0,
    ) {
        Some(w) => all[q].1 != JsonView::Null && same_json(all[q].1, w),
        None => all[q].1 == JsonView::Null,
    } by {
        if q == 0 {
            assert(all[0].0 == "x"@);
        } else if q == 1 {
            assert(all[1].0 == "y"@);
        } else {
            assert(all[2].0 == "z"@);
        }
    }
    lemma_same_object(all, m, xyz_keys());
    lemma_present_whole(all);
}

/// The names of the members that a shape of a kind writes.
pub open spec fn keys_of_kind(kind: GeometryType) -> Seq<Seq<char>> {
    match kind {
        GeometryType::Bitmap => seq!["geometryType"@, "tags"@, "bitmap"@, "shape"@],
        GeometryType::Cuboid3D => seq![
            "geometryType"@,
            "tags"@,
            "position"@,
            "rotation"@,
            "dimensions"@,
        ],
        _ => seq!["geometryType"@, "tags"@, "points"@],
    }
}

/// Whether the member `key` of an object, where it has one, meets `f`.
pub open spec fn member_meets(j: JsonView, key: Seq<char>, f: spec_fn(JsonView) -> bool) -> bool {
    match j.member(key) {
        Some(v) => f(v),
        None => true,
    }
}

/// An object whose members all stand under the names `keys`, none twice
/// and none `null`, and whose members of a shape's payload are exact in
/// their turn.
pub open spec fn exact_within(j: JsonView, keys: Seq<Seq<char>>) -> bool {
    &&& j is Object
    &&& holds_only(j->Object_0, keys)
    &&& member_meets(j, "tags"@, |v: JsonView| exact_tags(v))
    &&& member_meets(j, "points"@, |v: JsonView| exact_points(v))
    &&& member_meets(j, "bitmap"@, |v: JsonView| exact_bitmap(v))
    &&& member_meets(j, "position"@, |v: JsonView| exact_xyz(v))
    &&& member_meets(j, "rotation"@, |v: JsonView| exact_xyz(v))
    &&& member_meets(j, "dimensions"@, |v: JsonView| exact_xyz(v))
}

/// The kind that the discriminator of an object selects.
pub open spec fn kind_of(j: JsonView) -> Option<GeometryType> {
    match j.req_text("geometryType"@) {
        Ok(name) => geometry_type_of_name(name),
        Err(_) => None,
    }
}

/// An object that holds exactly the discriminator and members of the
/// payload of its kind: no member under another name, none twice, none
/// `null`, and the same of the objects in its payload.
pub open spec fn exact_geometry(j: JsonView) -> bool {
    kind_of(j) is Some && exact_within(j, keys_of_kind(kind_of(j)->Some_0))
}

/// Every member that a shape of its kind may write, absent ones as `null`.
pub open spec fn all_geometry_members(g: GeometryView) -> Seq<(Seq<char>, JsonView)> {
    match g {
        GeometryView::Point(o) => all_outline_members(GeometryType::Point, o),
        GeometryView::Rectangle(o) => all_outline_members(GeometryType::Rectangle, o),
        GeometryView::Polygon(o) => all_outline_members(GeometryType::Polygon, o),
        GeometryView::Polyline(o) => all_outline_members(GeometryType::Polyline, o),
        GeometryView::Bitmap(b) => all_bitmap_geometry_members(b),
        GeometryView::Cuboid3D(c) => all_cuboid_members(c),
    }
}

/// Whether each of `all` is in `members` with the same value, order within
/// objects aside, or is `null` and not in `members`.
pub open spec fn each_as_read(
    all: Seq<(Seq<char>, JsonView)>,
    members: Seq<(Seq<char>, JsonView)>,
) -> bool {
    forall|q: int|
        0 <= q < all.len() ==> match find_member(members, (#[trigger] all[q]).0, 0) {
            Some(w) => all[q].1 != JsonView::Null && same_json(all[q].1, w),
            None => all[q].1 == JsonView::Null,
        }
}

proof fn lemma_shape_keys()
    ensures
        "geometryType"@.len() == 12 && "geometryType"@[0] == 'g',
        "tags"@.len() == 4,
        "points"@.len() == 6 && "points"@[0] == 'p',
        "bitmap"@.len() == 6 && "bitmap"@[0] == 'b',
        "shape"@.len() == 5,
        "position"@.len() == 8 && "position"@[0] == 'p',
        "rotation"@.len() == 8 && "rotation"@[0] == 'r',
        "dimensions"@.len() == 10,
{
    reveal_strlit("geometryType");
    reveal_strlit("tags");
    reveal_strlit("points");
    reveal_strlit("bitmap");
    reveal_strlit("shape");
    reveal_strlit("position");
    reveal_strlit("rotation");
    reveal_strlit("dimensions");
}

/// Each member of a shape that was read from an object is in the object
/// with the value that is written for it, whatever else the object holds
/// beside the shape.
pub proof fn lemma_shape_as_read(wire: JsonView, keys: Seq<Seq<char>>)
    requires
        exact_within(wire, keys),
        Geometry::read(wire) is Ok,
    ensures
        each_as_read(all_geometry_members(Geometry::read(wire)->Ok_0), wire->Object_0),
        kind_of(wire) == Some(Geometry::read(wire)->Ok_0.kind()),
        all_geometry_members(Geometry::read(wire)->Ok_0).len() == keys_of_kind(
            Geometry::read(wire)->Ok_0.kind(),
        ).len(),
        forall|q: int|
            0 <= q < all_geometry_members(Geometry::read(wire)->Ok_0).len() ==> (
            #[trigger] all_geometry_members(Geometry::read(wire)->Ok_0)[q]).0 == keys_of_kind(
                Geometry::read(wire)->Ok_0.kind(),
            )[q],
{
    let g = geometry_of_json(wire)->Ok_0;
    let m = wire->Object_0;
    lemma_found_has_value(m, keys, "geometryType"@);
    lemma_found_has_value(m, keys, "tags"@);
    lemma_found_has_value(m, keys, "points"@);
    lemma_found_has_value(m, keys, "bitmap"@);
    lemma_found_has_value(m, keys, "shape"@);
    lemma_found_has_value(m, keys, "position"@);
    lemma_found_has_value(m, keys, "rotation"@);
    lemma_found_has_value(m, keys, "dimensions"@);
    if wire.member("tags"@) is Some && <Vec<Tag>>::read(wire.member("tags"@)->Some_0) is Ok {
        lemma_tags_written(wire.member("tags"@)->Some_0);
    }
    match g {
        GeometryView::Point(o) | GeometryView::Rectangle(o) | GeometryView::Polygon(o)
        | GeometryView::Polyline(o) => {
            let all = all_geometry_members(g);
            lemma_points_written(wire.member("points"@)->Some_0);
            assert forall|q: int| 0 <= q < all.len() implies match find_member(
                m,
                (#[trigger] all[q]).0,
                0,
            ) {
                Some(w) => all[q].1 != JsonView::Null && same_json(all[q].1, w),
                None => all[q].1 == JsonView::Null,
            } by {
                if q == 0 {
                    assert(all[0].0 == "geometryType"@);
                } else if q == 1 {
                    assert(all[1].0 == "tags"@);
                } else {
                    assert(all[2].0 == "points"@);
                }
            }
        },
        GeometryView::Bitmap(b) => {
            let all = all_bitmap_geometry_members(b);
            lemma_bitmap_written(wire.member("bitmap"@)->Some_0);
            assert forall|q: int| 0 <= q < all.len() implies match find_member(
                m,
                (#[trigger] all[q]).0,
                0,
            ) {
                Some(w) => all[q].1 != JsonView::Null && same_json(all[q].1, w),
                None => all[q].1 == JsonView::Null,
            } by {
                if q == 0 {
                    assert(all[0].0 == "geometryType"@);
                } else if q == 1 {
                    assert(all[1].0 == "tags"@);
                } else if q == 2 {
                    assert(all[2].0 == "bitmap"@);
                } else {
                    assert(all[3].0 == "shape"@);
                }
            }
        },
        GeometryView::Cuboid3D(c) => {
            let all = all_cuboid_members(c);
            lemma_xyz_written(wire.member("position"@)->Some_0);
            lemma_xyz_written(wire.member("rotation"@)->Some_0);
            lemma_xyz_written(wire.member("dimensions"@)->Some_0);
            assert forall|q: int| 0 <= q < all.len() implies match find_member(
                m,
                (#[trigger] all[q]).0,
                0,
            ) {
                Some(w) => all[q].1 != JsonView::Null && same_json(all[q].1, w),
                None => all[q].1 == JsonView::Null,
            } by {
                if q == 0 {
                    assert(all[0].0 == "geometryType"@);
                } else if q == 1 {
                    assert(all[1].0 == "tags"@);
                } else if q == 2 {
                    assert(all[2].0 == "position"@);
                } else if q == 3 {
                    assert(all[3].0 == "rotation"@);
                } else {
                    assert(all[4].0 == "dimensions"@);
                }
            }
        },
    }
}

/// Writing what was read gives what was read: for every object that holds
/// exactly the discriminator and the members of the payload of its kind,
/// the members written for the shape it decodes to are those of the
/// object, with the same values, order aside. Nothing is added and nothing
/// is lost.
pub proof fn lemma_encode_decode(wire: JsonView)
    requires
        exact_geometry(wire),
        Geometry::read(wire) is Ok,
    ensures
        same_json(Geometry::write(Geometry::read(wire)->Ok_0), wire),
{
    let g = geometry_of_json(wire)->Ok_0;
    let keys = keys_of_kind(kind_of(wire)->Some_0);
    let all = all_geometry_members(g);
    lemma_shape_as_read(wire, keys);
    lemma_shape_keys();
    reveal_with_fuel(no_key_before, 6);
    reveal_with_fuel(keys_differ, 6);
    lemma_keys_differ(all, all.len() as int);
    lemma_same_object(all, wire->Object_0, keys);
}

/// The names of the members that an object writes for itself.
pub open spec fn own_keys() -> Seq<Seq<char>> {
    seq!["id"@, "classId"@, "labelerLogin"@, "createdAt"@, "updatedAt"@]
}

/// An object that holds exactly members of its own, the discriminator and
/// members of the payload of its kind: none under another name, none twice,
/// none `null`, and the same of the objects in its payload.
pub open spec fn exact_object(j: JsonView) -> bool {
    kind_of(j) is Some && exact_within(j, own_keys() + keys_of_kind(kind_of(j)->Some_0))
}

proof fn lemma_own_keys()
    ensures
        "id"@.len() == 2,
        "classId"@.len() == 7,
        "labelerLogin"@.len() == 12 && "labelerLogin"@[0] == 'l',
        "createdAt"@.len() == 9 && "createdAt"@[0] == 'c',
        "updatedAt"@.len() == 9 && "updatedAt"@[0] == 'u',
{
    reveal_strlit("id");
    reveal_strlit("classId");
    reveal_strlit("labelerLogin");
    reveal_strlit("createdAt");
    reveal_strlit("updatedAt");
}

/// Writing an object that was read gives what was read: for every object
/// that holds exactly members of its own and the members of a shape, the
/// members written for the object it decodes to are those it holds, with
/// the same values, order aside.
pub proof fn lemma_object_written(wire: JsonView)
    requires
        exact_object(wire),
        Object::read(wire) is Ok,
    ensures
        same_json(Object::write(Object::read(wire)->Ok_0), wire),
{
    let o = object_of_json(wire)->Ok_0;
    let g = o.geometry;
    let m = wire->Object_0;
    let keys = own_keys() + keys_of_kind(kind_of(wire)->Some_0);
    let own = all_object_own_members(o);
    let shape = all_geometry_members(g);
    let all = own + shape;
    lemma_shape_as_read(wire, keys);
    lemma_shape_keys();
    lemma_own_keys();
    reveal_with_fuel(no_key_before, 6);
    reveal_with_fuel(keys_differ, 6);
    lemma_keys_differ(own, 5);
    lemma_keys_differ(shape, shape.len() as int);
    assert forall|i: int, j: int| 0 <= i < own.len() && 0 <= j < shape.len() implies (
    #[trigger] own[i]).0 != (#[trigger] shape[j]).0 by {
        assert(own[0].0 == "id"@ && own[1].0 == "classId"@ && own[2].0 == "labelerLogin"@
            && own[3].0 == "createdAt"@ && own[4].0 == "updatedAt"@);
        assert(shape[j].0 == keys_of_kind(g.kind())[j]);
    }
    lemma_distinct_both(own, shape);
    lemma_found_has_value(m, keys, "id"@);
    lemma_found_has_value(m, keys, "classId"@);
    lemma_found_has_value(m, keys, "labelerLogin"@);
    lemma_found_has_value(m, keys, "createdAt"@);
    lemma_found_has_value(m, keys, "updatedAt"@);
    assert forall|q: int| 0 <= q < all.len() implies match find_member(
        m,
        (#[trigger] all[q]).0,
        0,
    ) {
        Some(w) => all[q].1 != JsonView::Null && same_json(all[q].1, w),
        None => all[q].1 == JsonView::Null,
    } by {
        if q == 0 {
            assert(all[0] == own[0] && own[0].0 == "id"@);
        } else if q == 1 {
            assert(all[1] == own[1] && own[1].0 == "classId"@);
        } else if q == 2 {
            assert(all[2] == own[2] && own[2].0 == "labelerLogin"@);
        } else if q == 3 {
            assert(all[3] == own[3] && own[3].0 == "createdAt"@);
        } else if q == 4 {
            assert(all[4] == own[4] && own[4].0 == "updatedAt"@);
        } else {
            assert(all[q] == shape[q - 5]);
        }
    }
    assert forall|p: int| 0 <= p < all.len() implies (#[trigger] all[p]).0 == keys[p] by {
        if p < 5 {
            assert(all[p] == own[p]);
        } else {
            assert(all[p] == shape[p - 5]);
        }
    }
    lemma_same_object(all, m, keys);
    lemma_present_both(own, shape);
}

} // verus!
