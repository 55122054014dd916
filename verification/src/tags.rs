//! Tags: a name with an optional value, attached to objects and annotations.

use crate::error::SchemaError;
use crate::json::{
    built, json_of_option, json_of_usize, keys_differ, lemma_built, lemma_keys_differ,
    lemma_present_at, members_view, no_key_before, optional_as, present, push_present, Json,
    JsonNumber, JsonView,
};
use crate::wire::{decode_opt_member, encode_opt, reader, write_opt, Decode, Encode};
use vstd::prelude::*;
use vstd::std_specs::convert::FromSpecImpl;
use vstd::std_specs::convert::IntoSpec;
use vstd::string::StringExecFns;

verus! {

/// The value of a tag. On the wire a number is a JSON number and the other
/// two are JSON strings.
#[derive(Debug, Clone, PartialEq, Eq)]
pub enum TagValue {
    Number(isize),
    Text(String),
    OneOf(String),
}

/// The model of a [`TagValue`].
pub enum TagValueView {
    Number(isize),
    Text(Seq<char>),
    OneOf(Seq<char>),
}

impl DeepView for TagValue {
    type V = TagValueView;

    open spec fn deep_view(&self) -> TagValueView {
        match self {
            TagValue::Number(n) => TagValueView::Number(*n),
            TagValue::Text(s) => TagValueView::Text(s@),
            TagValue::OneOf(s) => TagValueView::OneOf(s@),
        }
    }
}

impl From<String> for TagValue {
    fn from(value: String) -> (r: Self) {
        TagValue::Text(value)
    }
}

impl FromSpecImpl<String> for TagValue {
    open spec fn obeys_from_spec() -> bool {
        true
    }

    open spec fn from_spec(value: String) -> Self {
        TagValue::Text(value)
    }
}

impl From<isize> for TagValue {
    fn from(value: isize) -> (r: Self) {
        TagValue::Number(value)
    }
}

impl FromSpecImpl<isize> for TagValue {
    open spec fn obeys_from_spec() -> bool {
        true
    }

    open spec fn from_spec(value: isize) -> Self {
        TagValue::Number(value)
    }
}

impl From<u64> for TagValue {
    fn from(value: u64) -> (r: Self) {
        TagValue::Number(#[verifier::truncate] (value as isize))
    }
}

impl FromSpecImpl<u64> for TagValue {
    open spec fn obeys_from_spec() -> bool {
        true
    }

    open spec fn from_spec(value: u64) -> Self {
        TagValue::Number(value as isize)
    }
}

impl From<u128> for TagValue {
    fn from(value: u128) -> (r: Self) {
        TagValue::Number(#[verifier::truncate] (value as isize))
    }
}

impl FromSpecImpl<u128> for TagValue {
    open spec fn obeys_from_spec() -> bool {
        true
    }

    open spec fn from_spec(value: u128) -> Self {
        TagValue::Number(value as isize)
    }
}

/// A name with an optional value and the record of who set it and when.
#[derive(Debug, Clone, PartialEq, Eq)]
pub struct Tag {
    pub name: String,
    pub value: Option<TagValue>,
    pub id: Option<usize>,
    pub tag_id: Option<usize>,
    pub labeler_login: Option<String>,
    pub created_at: Option<String>,
    pub updated_at: Option<String>,
}

/// The model of a [`Tag`].
pub struct TagView {
    pub name: Seq<char>,
    pub value: Option<TagValueView>,
    pub id: Option<usize>,
    pub tag_id: Option<usize>,
    pub labeler_login: Option<Seq<char>>,
    pub created_at: Option<Seq<char>>,
    pub updated_at: Option<Seq<char>>,
}

impl DeepView for Tag {
    type V = TagView;

    open spec fn deep_view(&self) -> TagView {
        TagView {
            name: self.name@,
            value: self.value.deep_view(),
            id: self.id,
            tag_id: self.tag_id,
            labeler_login: self.labeler_login.deep_view(),
            created_at: self.created_at.deep_view(),
            updated_at: self.updated_at.deep_view(),
        }
    }
}

/// The value that a JSON value stands for: a number for a number that fits
/// the machine's signed word, free text for a string.
pub open spec fn tag_value_of_json(j: JsonView) -> Result<TagValueView, SchemaError> {
    match j {
        JsonView::Number(_) => match j.as_isize() {
            Ok(n) => Ok(TagValueView::Number(n)),
            Err(e) => Err(e),
        },
        JsonView::Text(s) => Ok(TagValueView::Text(s)),
        _ => Err(SchemaError::InvalidType),
    }
}

/// The wire form of a tag value.
pub open spec fn json_of_tag_value(v: TagValueView) -> JsonView {
    match v {
        TagValueView::Number(n) => if n >= 0 {
            JsonView::Number(JsonNumber::PosInt(n as u64))
        } else {
            JsonView::Number(JsonNumber::NegInt(n as i64))
        },
        TagValueView::Text(s) => JsonView::Text(s),
        TagValueView::OneOf(s) => JsonView::Text(s),
    }
}

/// The tag that a JSON object stands for. Only `name` has to be there.
pub open spec fn tag_of_json(j: JsonView) -> Result<TagView, SchemaError> {
    let name = j.req_text("name"@);
    let value = optional_as(j.optional("value"@), reader::<TagValue>());
    let id = j.opt_usize("id"@);
    let tag_id = j.opt_usize("tagId"@);
    let labeler_login = j.opt_text("labelerLogin"@);
    let created_at = j.opt_text("createdAt"@);
    let updated_at = j.opt_text("updatedAt"@);
    if name is Err {
        Err(name->Err_0)
    } else if value is Err {
        Err(value->Err_0)
    } else if id is Err {
        Err(id->Err_0)
    } else if tag_id is Err {
        Err(tag_id->Err_0)
    } else if labeler_login is Err {
        Err(labeler_login->Err_0)
    } else if created_at is Err {
        Err(created_at->Err_0)
    } else if updated_at is Err {
        Err(updated_at->Err_0)
    } else {
        Ok(
            TagView {
                name: name->Ok_0,
                value: value->Ok_0,
                id: id->Ok_0,
                tag_id: tag_id->Ok_0,
                labeler_login: labeler_login->Ok_0,
                created_at: created_at->Ok_0,
                updated_at: updated_at->Ok_0,
            },
        )
    }
}

/// The seven members of a tag in the order they are written, those
/// without a value as `null`.
pub open spec fn all_tag_members(t: TagView) -> Seq<(Seq<char>, JsonView)> {
    seq![
        ("name"@, JsonView::Text(t.name)),
        ("value"@, write_opt::<TagValue>(t.value)),
        ("id"@, json_of_option(t.id, |k: usize| json_of_usize(k))),
        ("tagId"@, json_of_option(t.tag_id, |k: usize| json_of_usize(k))),
        ("labelerLogin"@, json_of_option(t.labeler_login, |s: Seq<char>| JsonView::Text(s))),
        ("createdAt"@, json_of_option(t.created_at, |s: Seq<char>| JsonView::Text(s))),
        ("updatedAt"@, json_of_option(t.updated_at, |s: Seq<char>| JsonView::Text(s))),
    ]
}

/// The members of the wire form of a tag: the name, and each of the others
/// where the tag has it.
pub open spec fn tag_members(t: TagView) -> Seq<(Seq<char>, JsonView)> {
    present(all_tag_members(t))
}

/// The wire form of a tag.
pub open spec fn json_of_tag(t: TagView) -> JsonView {
    JsonView::Object(tag_members(t))
}

/// A tag value comes back from its wire form unless it is a selected option,
/// which the wire does not tell from free text.
pub proof fn lemma_tag_value_round_trip(v: TagValueView)
    requires
        !(v is OneOf),
    ensures
        tag_value_of_json(json_of_tag_value(v)) == Ok::<TagValueView, SchemaError>(v),
        json_of_tag_value(v) != JsonView::Null,
{
}

/// Whether a tag comes back from its wire form: its value, if it has one,
/// is not a selected option.
pub open spec fn tag_round_trips(t: TagView) -> bool {
    !(t.value matches Some(TagValueView::OneOf(_)))
}

/// Decoding the wire form of a tag gives the tag back.
pub proof fn lemma_tag_round_trip(t: TagView)
    requires
        tag_round_trips(t),
    ensures
        tag_of_json(json_of_tag(t)) == Ok::<TagView, SchemaError>(t),
{
    reveal_strlit("name");
    reveal_strlit("value");
    reveal_strlit("id");
    reveal_strlit("tagId");
    reveal_strlit("labelerLogin");
    reveal_strlit("createdAt");
    reveal_strlit("updatedAt");
    reveal_with_fuel(no_key_before, 8);
    reveal_with_fuel(keys_differ, 8);
    assert("name"@.len() == 4 && "name"@[0] == 'n');
    assert("value"@.len() == 5 && "value"@[0] == 'v');
    assert("id"@.len() == 2 && "id"@[0] == 'i');
    assert("tagId"@.len() == 5 && "tagId"@[0] == 't');
    assert("labelerLogin"@.len() == 12 && "labelerLogin"@[0] == 'l');
    assert("createdAt"@.len() == 9 && "createdAt"@[0] == 'c');
    assert("updatedAt"@.len() == 9 && "updatedAt"@[0] == 'u');
    let m = all_tag_members(t);
    let j = json_of_tag(t);
    lemma_keys_differ(m, 7);
    lemma_present_at(m, "name"@, 0);
    lemma_present_at(m, "value"@, 1);
    lemma_present_at(m, "id"@, 2);
    lemma_present_at(m, "tagId"@, 3);
    lemma_present_at(m, "labelerLogin"@, 4);
    lemma_present_at(m, "createdAt"@, 5);
    lemma_present_at(m, "updatedAt"@, 6);
    if t.value is Some {
        lemma_tag_value_round_trip(t.value->Some_0);
    }
    assert(j.req_text("name"@) == Ok::<Seq<char>, SchemaError>(t.name));
    assert(j.opt_usize("id"@) == Ok::<Option<usize>, SchemaError>(t.id));
    assert(j.opt_usize("tagId"@) == Ok::<Option<usize>, SchemaError>(t.tag_id));
    assert(j.opt_text("labelerLogin"@) == Ok::<Option<Seq<char>>, SchemaError>(t.labeler_login));
    assert(j.opt_text("createdAt"@) == Ok::<Option<Seq<char>>, SchemaError>(t.created_at));
    assert(j.opt_text("updatedAt"@) == Ok::<Option<Seq<char>>, SchemaError>(t.updated_at));
}

impl Decode for TagValue {
    open spec fn read(j: JsonView) -> Result<TagValueView, SchemaError> {
        tag_value_of_json(j)
    }

    /// Reads a tag value: a number first, else free text.
    fn decode(j: &Json) -> (r: Result<TagValue, SchemaError>) {
        match j {
            Json::Number(_) => Ok(TagValue::Number(j.as_isize()?)),
            Json::Text(s) => Ok(TagValue::Text(s.clone())),
            _ => Err(SchemaError::InvalidType),
        }
    }

}

impl Encode for TagValue {
    open spec fn write(v: TagValueView) -> JsonView {
        json_of_tag_value(v)
    }

    /// Writes a tag value in the JSON kind it was read from.
    fn encode(&self) -> (r: Json) {
        match self {
            TagValue::Number(n) => {
                if *n >= 0 {
                    Json::Number(JsonNumber::PosInt(*n as u64))
                } else {
                    Json::Number(JsonNumber::NegInt(*n as i64))
                }
            },
            TagValue::Text(s) => Json::Text(s.clone()),
            TagValue::OneOf(s) => Json::Text(s.clone()),
        }
    }
}

impl Tag {
    /// A tag named `name` with the value `value`, stamped with the fixed
    /// creation time.
    pub fn new<V: Into<TagValue>>(name: String, value: V) -> (r: Self)
        ensures
            r.name == name,
            V::obeys_into_spec() ==> r.value == Some(value.into_spec()),
            r.id is None,
            r.tag_id is None,
            r.labeler_login is None,
            r.created_at.deep_view() == Some("2024-01-01T00:00:00.000Z"@),
            r.updated_at.deep_view() == Some("2024-01-01T00:00:00.000Z"@),
    {
        Tag {
            name,
            value: Some(value.into()),
            id: None,
            tag_id: None,
            labeler_login: None,
            created_at: Some(String::from_str("2024-01-01T00:00:00.000Z")),
            updated_at: Some(String::from_str("2024-01-01T00:00:00.000Z")),
        }
    }

}

impl Decode for Tag {
    open spec fn read(j: JsonView) -> Result<TagView, SchemaError> {
        tag_of_json(j)
    }

    /// Reads a tag from a JSON object.
    fn decode(j: &Json) -> (r: Result<Tag, SchemaError>) {
        let name = j.req_text("name")?;
        let value = decode_opt_member::<TagValue>(j, "value")?;
        let id = j.opt_usize("id")?;
        let tag_id = j.opt_usize("tagId")?;
        let labeler_login = j.opt_text("labelerLogin")?;
        let created_at = j.opt_text("createdAt")?;
        let updated_at = j.opt_text("updatedAt")?;
        Ok(Tag { name, value, id, tag_id, labeler_login, created_at, updated_at })
    }

}

impl Encode for Tag {
    open spec fn write(t: TagView) -> JsonView {
        json_of_tag(t)
    }

    /// Writes a tag as a JSON object: its name, and each of the other six
    /// members where the tag has it.
    fn encode(&self) -> (r: Json) {
        let mut members: Vec<(String, Json)> = Vec::new();
        assert(members_view(members@) =~= Seq::empty());
        push_present(&mut members, "name", Json::of_text(self.name.as_str()));
        push_present(&mut members, "value", encode_opt::<TagValue>(&self.value));
        push_present(&mut members, "id", Json::of_opt_usize(self.id));
        push_present(&mut members, "tagId", Json::of_opt_usize(self.tag_id));
        push_present(&mut members, "labelerLogin", Json::of_opt_text(&self.labeler_login));
        push_present(&mut members, "createdAt", Json::of_opt_text(&self.created_at));
        push_present(&mut members, "updatedAt", Json::of_opt_text(&self.updated_at));
        proof {
            reveal_with_fuel(built, 8);
            lemma_built(all_tag_members(self.deep_view()));
        }
        Json::object(members)
    }
}

} // verus!
