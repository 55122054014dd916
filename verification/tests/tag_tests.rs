use supervisely_format::utils::parse_json;
use supervisely_format::{Decode, Encode, Json, JsonNumber, SchemaError, Tag, TagValue};

fn tree(text: &str) -> Json {
    parse_json("test.json", text.as_bytes()).unwrap()
}

#[test]
fn new_tag_has_the_fixed_stamp() {
    let tag = Tag::new("weather".to_string(), "rain".to_string());
    assert_eq!(tag.name, "weather");
    assert_eq!(tag.value, Some(TagValue::Text("rain".to_string())));
    assert_eq!(tag.id, None);
    assert_eq!(tag.tag_id, None);
    assert_eq!(tag.labeler_login, None);
    assert_eq!(tag.created_at.as_deref(), Some("2024-01-01T00:00:00.000Z"));
    assert_eq!(tag.updated_at.as_deref(), Some("2024-01-01T00:00:00.000Z"));
}

#[test]
fn new_tag_from_numbers() {
    assert_eq!(Tag::new("n".to_string(), 5isize).value, Some(TagValue::Number(5)));
    assert_eq!(Tag::new("n".to_string(), 6u64).value, Some(TagValue::Number(6)));
    assert_eq!(Tag::new("n".to_string(), 7u128).value, Some(TagValue::Number(7)));
    assert_eq!(TagValue::from(u64::MAX), TagValue::Number(-1));
}

#[test]
fn tag_value_by_shape() {
    assert_eq!(TagValue::decode(&tree("12")), Ok(TagValue::Number(12)));
    assert_eq!(TagValue::decode(&tree("-12")), Ok(TagValue::Number(-12)));
    assert_eq!(TagValue::decode(&tree(r#""12""#)), Ok(TagValue::Text("12".to_string())));
    assert_eq!(TagValue::decode(&tree("1.5")), Err(SchemaError::InvalidType));
    assert_eq!(TagValue::decode(&tree("true")), Err(SchemaError::InvalidType));
    assert_eq!(TagValue::decode(&tree("18446744073709551615")), Err(SchemaError::InvalidType));
}

#[test]
fn tag_value_keeps_its_json_kind() {
    assert_eq!(TagValue::Number(3).encode(), Json::Number(JsonNumber::PosInt(3)));
    assert_eq!(TagValue::Number(-3).encode(), Json::Number(JsonNumber::NegInt(-3)));
    assert_eq!(TagValue::Text("3".to_string()).encode(), Json::Text("3".to_string()));
    assert_eq!(TagValue::OneOf("a".to_string()).encode(), Json::Text("a".to_string()));
}

#[test]
fn tag_with_every_member() {
    let text = r#"{"name": "mood", "value": 3, "id": 1, "tagId": 2, "labelerLogin": "bob",
                   "createdAt": "t0", "updatedAt": "t1"}"#;
    let tag = Tag::decode(&tree(text)).unwrap();
    assert_eq!(
        tag,
        Tag {
            name: "mood".to_string(),
            value: Some(TagValue::Number(3)),
            id: Some(1),
            tag_id: Some(2),
            labeler_login: Some("bob".to_string()),
            created_at: Some("t0".to_string()),
            updated_at: Some("t1".to_string()),
        }
    );
    assert_eq!(tag.encode(), tree(text));
    assert_eq!(Tag::decode(&tag.encode()), Ok(tag));
}

#[test]
fn tag_with_only_a_name() {
    let tag = Tag::decode(&tree(r#"{"name": "bare", "value": null}"#)).unwrap();
    assert_eq!(tag.name, "bare");
    assert_eq!(tag.value, None);
    assert_eq!(tag.id, None);
    assert_eq!(tag.created_at, None);
    assert_eq!(Tag::decode(&tree(r#"{"value": 1}"#)), Err(SchemaError::MissingField));
    assert_eq!(Tag::decode(&tree(r#"{"name": 1}"#)), Err(SchemaError::InvalidType));
    assert_eq!(Tag::decode(&tree(r#"{"name": "x", "id": -1}"#)), Err(SchemaError::InvalidType));
    assert_eq!(Tag::decode(&tree(r#""name""#)), Err(SchemaError::InvalidType));
}

#[test]
fn tag_writes_only_what_it_has() {
    let tag = Tag::decode(&tree(r#"{"name": "bare"}"#)).unwrap();
    assert_eq!(tag.encode(), tree(r#"{"name": "bare"}"#));
    let tag = Tag::decode(&tree(r#"{"name": "n", "value": null, "tagId": 4}"#)).unwrap();
    assert_eq!(tag.encode(), tree(r#"{"name": "n", "tagId": 4}"#));
}
