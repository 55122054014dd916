//! Reading typed values from the JSON tree and writing them back.

use crate::error::SchemaError;
use crate::json::{
    array_as, decoded, items_as, lemma_items_as_first_err, lemma_items_as_ok,
    lemma_items_as_step, optional_as, required_as, Json, JsonView,
};
use vstd::prelude::*;

verus! {

/// A type that is read from a JSON value.
pub trait Decode: DeepView + Sized {
    /// What a JSON value stands for, or why it stands for nothing.
    spec fn read(j: JsonView) -> Result<Self::V, SchemaError>;

    /// Reads a value.
    fn decode(j: &Json) -> (r: Result<Self, SchemaError>)
        ensures
            decoded(r) == Self::read(j.deep_view()),
    ;
}

/// A type that is written as a JSON value.
pub trait Encode: DeepView + Sized {
    /// The wire form of a value.
    spec fn write(v: Self::V) -> JsonView;

    /// Writes a value.
    fn encode(&self) -> (r: Json)
        ensures
            r.deep_view() == Self::write(self.deep_view()),
    ;
}

/// The reader of `T`, as a value.
pub open spec fn reader<T: Decode>() -> spec_fn(JsonView) -> Result<T::V, SchemaError> {
    |j: JsonView| T::read(j)
}

/// The wire form of a list: the array of the wire forms of its items.
pub open spec fn write_items<T: Encode>(items: Seq<T::V>) -> JsonView {
    JsonView::Array(Seq::new(items.len(), |i: int| T::write(items[i])))
}

/// The wire form of an optional value: `null` where there is none.
pub open spec fn write_opt<T: Encode>(value: Option<T::V>) -> JsonView {
    match value {
        Some(v) => T::write(v),
        None => JsonView::Null,
    }
}

/// Reads the items of an array, in order; fails with the failure of the
/// first item that cannot be read, and on anything that is not an array.
pub fn decode_list<T: Decode>(j: &Json) -> (r: Result<Vec<T>, SchemaError>)
    ensures
        decoded(r) == array_as(j.deep_view(), reader::<T>()),
{
    let items = j.as_items()?;
    let ghost model = items.deep_view();
    let mut out: Vec<T> = Vec::new();
    let mut i: usize = 0;
    assert(model.take(0) =~= Seq::empty());
    assert(out.deep_view() =~= Seq::empty());
    while i < items.len()
        invariant
            i <= items.len(),
            model == items.deep_view(),
            model.len() == items.len(),
            j.deep_view() == JsonView::Array(model),
            items_as(model.take(i as int), reader::<T>()) == Ok::<Seq<T::V>, SchemaError>(
                out.deep_view(),
            ),
        decreases items.len() - i,
    {
        proof {
            lemma_items_as_step(model, reader::<T>(), i as int);
        }
        match T::decode(&items[i]) {
            Ok(v) => {
                let ghost before = out.deep_view();
                out.push(v);
                assert(out.deep_view() =~= before.push(v.deep_view()));
            },
            Err(e) => {
                proof {
                    lemma_items_as_first_err(model, reader::<T>(), i as int);
                }
                return Err(e);
            },
        }
        i += 1;
    }
    assert(model.take(i as int) =~= model);
    Ok(out)
}

impl Decode for Json {
    open spec fn read(j: JsonView) -> Result<JsonView, SchemaError> {
        Ok(j)
    }

    /// Keeps a value as the tree it is.
    fn decode(j: &Json) -> (r: Result<Json, SchemaError>) {
        Ok(j.clone())
    }
}

impl Decode for String {
    open spec fn read(j: JsonView) -> Result<Seq<char>, SchemaError> {
        j.as_text()
    }

    /// Reads a string.
    fn decode(j: &Json) -> (r: Result<String, SchemaError>) {
        j.as_text()
    }
}

impl<T: Decode> Decode for Vec<T> {
    open spec fn read(j: JsonView) -> Result<Seq<T::V>, SchemaError> {
        array_as(j, reader::<T>())
    }

    /// Reads a list from an array.
    fn decode(j: &Json) -> (r: Result<Vec<T>, SchemaError>) {
        decode_list::<T>(j)
    }
}

impl<T: Encode> Encode for Vec<T> {
    open spec fn write(items: Seq<T::V>) -> JsonView {
        write_items::<T>(items)
    }

    /// Writes a list as an array.
    fn encode(&self) -> (r: Json) {
        encode_list::<T>(self)
    }
}

/// Reads the member `key`, which must be there.
pub fn decode_member<T: Decode>(j: &Json, key: &str) -> (r: Result<T, SchemaError>)
    ensures
        decoded(r) == required_as(j.deep_view().required(key@), reader::<T>()),
{
    T::decode(j.required(key)?)
}

/// Reads the member `key`, where it is there and not `null`.
pub fn decode_opt_member<T: Decode>(j: &Json, key: &str) -> (r: Result<Option<T>, SchemaError>)
    ensures
        decoded(r) == optional_as(j.deep_view().optional(key@), reader::<T>()),
{
    match j.optional(key)? {
        Some(v) => Ok(Some(T::decode(v)?)),
        None => Ok(None),
    }
}

/// A list that may be absent: the empty list where it is.
pub open spec fn list_or_empty<T>(list: Result<Option<Seq<T>>, SchemaError>) -> Result<
    Seq<T>,
    SchemaError,
> {
    match list {
        Ok(Some(items)) => Ok(items),
        Ok(None) => Ok(Seq::empty()),
        Err(e) => Err(e),
    }
}

/// Reads the list member `key`; an absent or `null` member is the empty
/// list.
pub fn decode_list_or_empty<T: Decode>(j: &Json, key: &str) -> (r: Result<Vec<T>, SchemaError>)
    ensures
        decoded(r) == list_or_empty(optional_as(j.deep_view().optional(key@), reader::<Vec<T>>())),
{
    match decode_opt_member::<Vec<T>>(j, key)? {
        Some(items) => Ok(items),
        None => {
            let items: Vec<T> = Vec::new();
            assert(items.deep_view() =~= Seq::empty());
            Ok(items)
        },
    }
}

/// Writes a list as the array of its items.
pub fn encode_list<T: Encode>(items: &Vec<T>) -> (r: Json)
    ensures
        r.deep_view() == write_items::<T>(items.deep_view()),
{
    let mut out: Vec<Json> = Vec::new();
    let mut i: usize = 0;
    while i < items.len()
        invariant
            i <= items.len(),
            out.len() == i,
            forall|k: int|
                0 <= k < i ==> (#[trigger] out[k]).deep_view() == T::write(items[k].deep_view()),
        decreases items.len() - i,
    {
        out.push(items[i].encode());
        i += 1;
    }
    assert(out.deep_view() =~= write_items::<T>(items.deep_view())->Array_0);
    Json::array(out)
}

/// A list comes back from its wire form where each of its items does.
pub proof fn lemma_list_round_trip<T: Decode + Encode>(items: Seq<T::V>)
    requires
        forall|i: int|
            0 <= i < items.len() ==> T::read(T::write(#[trigger] items[i])) == Ok::<
                T::V,
                SchemaError,
            >(items[i]),
    ensures
        array_as(write_items::<T>(items), reader::<T>()) == Ok::<Seq<T::V>, SchemaError>(items),
{
    let wire = write_items::<T>(items)->Array_0;
    assert forall|i: int| 0 <= i < wire.len() implies reader::<T>()(#[trigger] wire[i]) == Ok::<
        T::V,
        SchemaError,
    >(items[i]) by {
        assert(wire[i] == T::write(items[i]));
    }
    lemma_items_as_ok(wire, reader::<T>(), items);
}

/// Writes an optional value: `null` where there is none.
pub fn encode_opt<T: Encode>(value: &Option<T>) -> (r: Json)
    ensures
        r.deep_view() == write_opt::<T>(value.deep_view()),
{
    match value {
        Some(v) => v.encode(),
        None => Json::Null,
    }
}

} // verus!
