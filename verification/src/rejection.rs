//! What the geometry decoder refuses: discriminators outside the six, and
//! coordinates that are not finite numbers.

use crate::error::SchemaError;
use crate::finite::Finite;
use crate::geometry::{
    geometry_of_json, geometry_type_of_name, GeometryView, Points, Xyz,
};
use crate::json::{lemma_items_as_err, JsonNumber, JsonView};
use crate::wire::{reader, Decode};
use vstd::prelude::*;

verus! {

/// A value in a coordinate's place that is no finite number: `null`, which
/// is how NaN is written, or a double whose bits stand for NaN or an
/// infinity.
pub open spec fn non_finite(j: JsonView) -> bool {
    match j {
        JsonView::Null => true,
        JsonView::Number(n) => !n.is_finite(),
        _ => false,
    }
}

/// A discriminator that is a string outside the six canonical ones is
/// refused as an unknown kind, whatever stands beside it.
pub proof fn lemma_unknown_kind_refused(j: JsonView, name: Seq<char>)
    requires
        j.req_text("geometryType"@) == Ok::<Seq<char>, SchemaError>(name),
        name != "point"@,
        name != "rectangle"@,
        name != "polygon"@,
        name != "polyline"@,
        name != "bitmap"@,
        name != "cuboid_3d"@,
    ensures
        geometry_of_json(j) == Err::<GeometryView, SchemaError>(SchemaError::UnknownGeometryKind),
{
}

/// Where decoding succeeds, the discriminator is one of the six and is the
/// kind of the shape that comes out.
pub proof fn lemma_decoded_kind(j: JsonView)
    requires
        geometry_of_json(j) is Ok,
    ensures
        j.req_text("geometryType"@) is Ok,
        geometry_type_of_name(j.req_text("geometryType"@)->Ok_0) == Some(
            geometry_of_json(j)->Ok_0.kind(),
        ),
{
}

/// A non-finite number is refused as such, and nothing is put in its place.
pub proof fn lemma_non_finite_refused(j: JsonView)
    requires
        non_finite(j),
    ensures
        Finite::read(j) == Err::<JsonNumber, SchemaError>(
            SchemaError::NonFiniteCoordinate,
        ),
{
}

/// A point that holds a non-finite number is refused.
pub proof fn lemma_point_refused(point: JsonView, k: int)
    requires
        point is Array,
        0 <= k < point->Array_0.len(),
        non_finite(point->Array_0[k]),
    ensures
        <(Finite, Finite)>::read(point) is Err,
{
}

/// A line that holds a point with a non-finite number is refused.
pub proof fn lemma_line_refused(line: JsonView, i: int, k: int)
    requires
        line is Array,
        0 <= i < line->Array_0.len(),
        line->Array_0[i] is Array,
        0 <= k < line->Array_0[i]->Array_0.len(),
        non_finite(line->Array_0[i]->Array_0[k]),
    ensures
        <Vec<(Finite, Finite)>>::read(line) is Err,
{
    lemma_point_refused(line->Array_0[i], k);
    lemma_items_as_err(line->Array_0, reader::<(Finite, Finite)>(), i);
}

/// An outline is refused where a point of its boundary holds a non-finite
/// number.
pub proof fn lemma_exterior_refused(j: JsonView, i: int, k: int)
    requires
        j.member("exterior"@) is Some,
        j.member("exterior"@)->Some_0 is Array,
        0 <= i < j.member("exterior"@)->Some_0->Array_0.len(),
        j.member("exterior"@)->Some_0->Array_0[i] is Array,
        0 <= k < j.member("exterior"@)->Some_0->Array_0[i]->Array_0.len(),
        non_finite(j.member("exterior"@)->Some_0->Array_0[i]->Array_0[k]),
    ensures
        Points::read(j) is Err,
{
    lemma_line_refused(j.member("exterior"@)->Some_0, i, k);
}

/// An outline is refused where a point of one of its holes holds a
/// non-finite number.
pub proof fn lemma_interior_refused(j: JsonView, h: int, i: int, k: int)
    requires
        j.member("interior"@) is Some,
        j.member("interior"@)->Some_0 is Array,
        0 <= h < j.member("interior"@)->Some_0->Array_0.len(),
        j.member("interior"@)->Some_0->Array_0[h] is Array,
        0 <= i < j.member("interior"@)->Some_0->Array_0[h]->Array_0.len(),
        j.member("interior"@)->Some_0->Array_0[h]->Array_0[i] is Array,
        0 <= k < j.member("interior"@)->Some_0->Array_0[h]->Array_0[i]->Array_0.len(),
        non_finite(j.member("interior"@)->Some_0->Array_0[h]->Array_0[i]->Array_0[k]),
    ensures
        Points::read(j) is Err,
{
    let holes = j.member("interior"@)->Some_0;
    lemma_line_refused(holes->Array_0[h], i, k);
    lemma_items_as_err(holes->Array_0, reader::<Vec<(Finite, Finite)>>(), h);
}

/// A vector is refused where one of its three members is a non-finite
/// number.
pub proof fn lemma_xyz_refused(j: JsonView)
    requires
        (j.member("x"@) is Some && non_finite(j.member("x"@)->Some_0)) || (j.member("y"@) is Some
            && non_finite(j.member("y"@)->Some_0)) || (j.member("z"@) is Some && non_finite(
            j.member("z"@)->Some_0,
        )),
    ensures
        Xyz::read(j) is Err,
{
}

} // verus!
