use supervisely_format::utils::parse_json;
use supervisely_format::{
    Bitmap, BitmapGeometry, Cuboid3DGeometry, Decode, Encode, Finite, Geometry, GeometryType,
    Json, JsonNumber, PointGeometry, Points, PolygonGeometry, PolylineGeometry,
    RectangleGeometry, SchemaError, Shape, Tag, TagValue, Xyz,
};

fn tree(text: &str) -> Json {
    parse_json("test.json", text.as_bytes()).unwrap()
}

fn number(x: f64) -> Finite {
    Finite::from_bits(x.to_bits()).unwrap()
}

fn outline() -> Points {
    Points {
        exterior: vec![(number(1.5), number(2.0)), (Finite::from_u64(30), Finite::from_i64(-4))],
        interior: vec![vec![(number(0.25), number(0.5))], vec![]],
    }
}

fn plain_tag() -> Tag {
    Tag {
        name: "colour".to_string(),
        value: Some(TagValue::Text("red".to_string())),
        id: Some(7),
        tag_id: None,
        labeler_login: Some("ann".to_string()),
        created_at: None,
        updated_at: None,
    }
}

fn vector(x: f64, y: f64, z: f64) -> Xyz {
    Xyz { x: number(x), y: number(y), z: number(z) }
}

fn one_of_each() -> Vec<Geometry> {
    vec![
        Geometry::Point(PointGeometry { tags: None, points: outline() }),
        Geometry::Rectangle(RectangleGeometry { tags: Some(vec![plain_tag()]), points: outline() }),
        Geometry::Polygon(PolygonGeometry { tags: Some(vec![]), points: outline() }),
        Geometry::Polyline(PolylineGeometry { tags: None, points: outline() }),
        Geometry::Bitmap(BitmapGeometry {
            tags: None,
            bitmap: Bitmap { data_encoded: "eJwDAAAAAAE=".to_string(), origin: [3, 4] },
            shape: Some(Shape::Bitmap),
        }),
        Geometry::Cuboid3D(Cuboid3DGeometry {
            tags: Some(vec![plain_tag()]),
            position: vector(1.0, 2.0, 3.0),
            rotation: vector(0.0, 0.0, -1.5),
            dimensions: vector(4.0, 5.0, 6.0),
        }),
    ]
}

#[test]
fn decoding_an_encoded_geometry_gives_it_back() {
    for geometry in one_of_each() {
        let wire = geometry.encode();
        assert_eq!(Geometry::decode(&wire), Ok(geometry));
    }
}

#[test]
fn encoding_a_decoded_wire_form_gives_it_back() {
    for geometry in one_of_each() {
        let wire = geometry.encode();
        let again = Geometry::decode(&wire).unwrap().encode();
        assert_eq!(again, wire);
    }
}

#[test]
fn encoded_geometry_is_flat() {
    let geometry = Geometry::Rectangle(RectangleGeometry { tags: None, points: outline() });
    let wire = geometry.encode();
    assert_eq!(wire.get("geometryType"), Some(&Json::Text("rectangle".to_string())));
    assert_eq!(wire.get("tags"), None);
    assert!(wire.get("points").is_some());
    assert!(wire.get("geometry").is_none());
    match &wire {
        Json::Object(members) => assert_eq!(members.len(), 2),
        _ => panic!("not an object"),
    }
}

#[test]
fn members_of_a_cuboid_in_order() {
    let geometry = Geometry::Cuboid3D(Cuboid3DGeometry {
        tags: None,
        position: vector(1.0, 2.0, 3.0),
        rotation: vector(0.0, 0.0, 0.0),
        dimensions: vector(1.0, 1.0, 1.0),
    });
    let keys: Vec<String> = geometry.members().into_iter().map(|m| m.0).collect();
    assert_eq!(keys, vec!["geometryType", "position", "rotation", "dimensions"]);
    assert_eq!(geometry.kind(), GeometryType::Cuboid3D);
    assert_eq!(geometry.kind().name(), "cuboid_3d");
}

#[test]
fn each_discriminator_with_a_minimal_payload() {
    let outline = r#""points": {"exterior": [], "interior": []}"#;
    for (name, kind) in [
        ("point", GeometryType::Point),
        ("rectangle", GeometryType::Rectangle),
        ("polygon", GeometryType::Polygon),
        ("polyline", GeometryType::Polyline),
    ] {
        let text = format!(r#"{{"geometryType": "{}", {}}}"#, name, outline);
        assert_eq!(Geometry::decode(&tree(&text)).unwrap().kind(), kind);
    }
    let bitmap = r#"{"geometryType": "bitmap", "bitmap": {"data": "", "origin": [0, 0]}}"#;
    assert_eq!(Geometry::decode(&tree(bitmap)).unwrap().kind(), GeometryType::Bitmap);
    let zero = r#"{"x": 0, "y": 0, "z": 0}"#;
    let cuboid = format!(
        r#"{{"geometryType": "cuboid_3d", "position": {z}, "rotation": {z}, "dimensions": {z}}}"#,
        z = zero
    );
    assert_eq!(Geometry::decode(&tree(&cuboid)).unwrap().kind(), GeometryType::Cuboid3D);
}

#[test]
fn unknown_discriminator_is_refused() {
    for name in ["circle", "Point", "cuboid3d", "", "line"] {
        let text = format!(
            r#"{{"geometryType": "{}", "points": {{"exterior": [], "interior": []}}}}"#,
            name
        );
        assert_eq!(Geometry::decode(&tree(&text)), Err(SchemaError::UnknownGeometryKind));
    }
}

#[test]
fn discriminator_must_be_there_and_be_a_string() {
    let missing = r#"{"points": {"exterior": [], "interior": []}}"#;
    assert_eq!(Geometry::decode(&tree(missing)), Err(SchemaError::MissingField));
    let number = r#"{"geometryType": 3}"#;
    assert_eq!(Geometry::decode(&tree(number)), Err(SchemaError::InvalidType));
    assert_eq!(Geometry::decode(&tree("[]")), Err(SchemaError::InvalidType));
}

#[test]
fn payload_of_the_selected_kind_is_required() {
    let text = r#"{"geometryType": "bitmap", "points": {"exterior": [], "interior": []}}"#;
    assert_eq!(Geometry::decode(&tree(text)), Err(SchemaError::MissingField));
    let text = r#"{"geometryType": "point", "bitmap": {"data": "", "origin": [0, 0]}}"#;
    assert_eq!(Geometry::decode(&tree(text)), Err(SchemaError::MissingField));
}

#[test]
fn members_beside_the_payload_are_passed_over() {
    let text = r#"{"id": 5, "geometryType": "point", "classId": 3,
                   "points": {"exterior": [[1, 2]], "interior": []}, "extra": true}"#;
    let expected = Geometry::Point(PointGeometry {
        tags: None,
        points: Points {
            exterior: vec![(Finite::from_u64(1), Finite::from_u64(2))],
            interior: vec![],
        },
    });
    assert_eq!(Geometry::decode(&tree(text)), Ok(expected));
}

#[test]
fn null_coordinate_is_refused() {
    let text = r#"{"exterior": [[1.0, null]], "interior": []}"#;
    assert_eq!(Points::decode(&tree(text)), Err(SchemaError::NonFiniteCoordinate));
    let text = r#"{"exterior": [], "interior": [[[0, 0]], [[null, 2]]]}"#;
    assert_eq!(Points::decode(&tree(text)), Err(SchemaError::NonFiniteCoordinate));
    let text = r#"{"x": 1, "y": null, "z": 3}"#;
    assert_eq!(Xyz::decode(&tree(text)), Err(SchemaError::NonFiniteCoordinate));
}

#[test]
fn non_finite_bits_are_refused() {
    for bad in [f64::NAN, f64::INFINITY, f64::NEG_INFINITY] {
        assert_eq!(Finite::from_bits(bad.to_bits()), None);
        let point = Json::Array(vec![
            Json::Number(JsonNumber::Float(bad.to_bits())),
            Json::Number(JsonNumber::PosInt(0)),
        ]);
        let points = Json::Object(vec![
            ("exterior".to_string(), Json::Array(vec![point])),
            ("interior".to_string(), Json::Array(vec![])),
        ]);
        assert_eq!(Points::decode(&points), Err(SchemaError::NonFiniteCoordinate));
    }
}

#[test]
fn out_of_range_literal_is_not_json() {
    let text = br#"{"exterior": [[1e999, 0]], "interior": []}"#;
    assert!(parse_json("points.json", text).is_err());
    assert!(parse_json("points.json", br#"{"x": NaN}"#).is_err());
}

#[test]
fn coordinate_of_the_wrong_kind() {
    let text = r#"{"exterior": [["1", 2]], "interior": []}"#;
    assert_eq!(Points::decode(&tree(text)), Err(SchemaError::InvalidType));
    let text = r#"{"exterior": [[1, 2, 3]], "interior": []}"#;
    assert_eq!(Points::decode(&tree(text)), Err(SchemaError::InvalidType));
    let text = r#"{"exterior": [[1, 2]]}"#;
    assert_eq!(Points::decode(&tree(text)), Err(SchemaError::MissingField));
}

#[test]
fn finite_numbers_keep_what_was_read() {
    assert_eq!(Finite::from_u64(10).number(), JsonNumber::PosInt(10));
    assert_eq!(Finite::from_i64(-10).number(), JsonNumber::NegInt(-10));
    assert_eq!(Finite::from_i64(10).number(), JsonNumber::PosInt(10));
    assert_eq!(number(1.5).number(), JsonNumber::Float(0x3FF8_0000_0000_0000));
    assert_eq!(Finite::new(JsonNumber::Float(0x7FF0_0000_0000_0000)), None);
    assert_eq!(Finite::new(JsonNumber::Float(0x7FEF_FFFF_FFFF_FFFF)).map(|f| f.number()),
        Some(JsonNumber::Float(f64::MAX.to_bits())));
    assert!(JsonNumber::Float(0).finite());
    assert!(!JsonNumber::Float(0xFFF8_0000_0000_0000).finite());
}

#[test]
fn points_keep_their_order() {
    let text = r#"{"exterior": [[3, 4], [1, 2], [5.5, -6]], "interior": [[[9, 9], [8, 8]]]}"#;
    let points = Points::decode(&tree(text)).unwrap();
    assert_eq!(
        points.exterior,
        vec![
            (Finite::from_u64(3), Finite::from_u64(4)),
            (Finite::from_u64(1), Finite::from_u64(2)),
            (number(5.5), Finite::from_i64(-6)),
        ]
    );
    assert_eq!(
        points.interior,
        vec![vec![
            (Finite::from_u64(9), Finite::from_u64(9)),
            (Finite::from_u64(8), Finite::from_u64(8)),
        ]]
    );
    assert_eq!(points.encode(), tree(text));
}

#[test]
fn bitmap_is_read_without_unpacking() {
    let text = r#"{"data": "***", "origin": [12, 34]}"#;
    let bitmap = Bitmap::decode(&tree(text)).unwrap();
    assert_eq!(bitmap, Bitmap { data_encoded: "***".to_string(), origin: [12, 34] });
    assert_eq!(bitmap.encode(), tree(text));
    let text = r#"{"data": "", "origin": [-1, 0]}"#;
    assert_eq!(Bitmap::decode(&tree(text)), Err(SchemaError::InvalidType));
    let text = r#"{"data": "", "origin": [1]}"#;
    assert_eq!(Bitmap::decode(&tree(text)), Err(SchemaError::InvalidType));
}

#[test]
fn shape_names() {
    for (name, shape) in [
        ("rectangle", Shape::Rectangle),
        ("line", Shape::Line),
        ("polygon", Shape::Polygon),
        ("point", Shape::Point),
        ("bitmap", Shape::Bitmap),
        ("cuboid_3d", Shape::Cuboid3D),
    ] {
        assert_eq!(Shape::parse(name), Some(shape));
        assert_eq!(shape.name(), name);
        assert_eq!(Shape::decode(&shape.encode()), Ok(shape));
    }
    assert_eq!(Shape::parse("polyline"), None);
    assert_eq!(Shape::default(), Shape::Cuboid3D);
    assert_eq!(GeometryType::parse("polyline"), Some(GeometryType::Polyline));
    assert_eq!(GeometryType::parse("line"), None);
}

#[test]
fn geometry_from_its_payload() {
    let payload = PointGeometry { tags: None, points: outline() };
    assert_eq!(Geometry::from(payload.clone()), Geometry::Point(payload));
    let payload = BitmapGeometry {
        tags: None,
        bitmap: Bitmap { data_encoded: String::new(), origin: [0, 0] },
        shape: None,
    };
    assert_eq!(Geometry::from(payload.clone()), Geometry::Bitmap(payload));
}

#[test]
fn selected_option_comes_back_as_text() {
    let tag = Tag {
        name: "size".to_string(),
        value: Some(TagValue::OneOf("large".to_string())),
        id: None,
        tag_id: None,
        labeler_login: None,
        created_at: None,
        updated_at: None,
    };
    let back = Tag::decode(&tag.encode()).unwrap();
    assert_eq!(back.value, Some(TagValue::Text("large".to_string())));
    assert_eq!(back.name, "size");
}

fn sorted_members(value: &Json) -> Vec<(String, Json)> {
    match value {
        Json::Object(members) => {
            let mut sorted: Vec<(String, Json)> = members
                .iter()
                .map(|(k, v)| (k.clone(), normal(v)))
                .collect();
            sorted.sort_by(|a, b| a.0.cmp(&b.0));
            sorted
        }
        _ => panic!("not an object"),
    }
}

fn normal(value: &Json) -> Json {
    match value {
        Json::Object(_) => Json::Object(sorted_members(value)),
        Json::Array(items) => Json::Array(items.iter().map(normal).collect()),
        other => other.clone(),
    }
}

#[test]
fn rewriting_adds_nothing_and_loses_nothing() {
    let wires = [
        r#"{"geometryType": "point", "points": {"exterior": [], "interior": []}}"#,
        r#"{"points": {"interior": [[[1, 2]]], "exterior": [[0.5, -3]]}, "geometryType": "polygon"}"#,
        r#"{"geometryType": "rectangle", "tags": [], "points": {"exterior": [[1, 2], [3, 4]], "interior": []}}"#,
        r#"{"tags": [{"name": "a"}, {"value": 3, "name": "b", "tagId": 9}],
            "geometryType": "polyline", "points": {"exterior": [], "interior": []}}"#,
        r#"{"geometryType": "bitmap", "bitmap": {"origin": [1, 2], "data": "eJwDAAAAAAE="}}"#,
        r#"{"shape": "bitmap", "geometryType": "bitmap", "bitmap": {"data": "", "origin": [0, 0]}}"#,
        r#"{"geometryType": "cuboid_3d", "dimensions": {"z": 1, "y": 2, "x": 3},
            "position": {"x": 0, "y": 0, "z": 0.5}, "rotation": {"x": -1, "y": 0, "z": 0}}"#,
    ];
    for text in wires {
        let wire = tree(text);
        let again = Geometry::decode(&wire).unwrap().encode();
        assert_eq!(sorted_members(&again), sorted_members(&wire));
    }
}

#[test]
fn absent_members_are_not_written() {
    let text = r#"{"geometryType": "point", "points": {"exterior": [], "interior": []}}"#;
    let members = Geometry::decode(&tree(text)).unwrap().members();
    let keys: Vec<&str> = members.iter().map(|m| m.0.as_str()).collect();
    assert_eq!(keys, vec!["geometryType", "points"]);
    let text = r#"{"geometryType": "bitmap", "bitmap": {"data": "", "origin": [0, 0]}}"#;
    let members = Geometry::decode(&tree(text)).unwrap().members();
    let keys: Vec<&str> = members.iter().map(|m| m.0.as_str()).collect();
    assert_eq!(keys, vec!["geometryType", "bitmap"]);
}
