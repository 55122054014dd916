use supervisely_format::utils::parse_json;
use supervisely_format::{
    ClassMeta, Dataset, DatasetFiles, DatasetKind, Decode, EntryKind, FormatError, Geometry,
    GeometryConfig, KeyIdMap, ListedName, MediaAnnotation, MediaKind, Project, ProjectMeta, Rgb,
    SchemaError, Shape, TagMeta, ValueType,
};

const META: &[u8] = br##"{
    "classes": [{"title": "car", "shape": "rectangle", "color": "#FF8000", "geometry_config": {}},
                {"title": "road", "shape": "polygon"}],
    "tags": [{"name": "weather", "value_type": "oneof_string", "color": "#0a0B0c",
              "values": ["rain", "sun", "rain"]},
             {"name": "note", "value_type": "any_string"}]
}"##;

fn image_dataset(dir: &str, items: &[&str]) -> Dataset {
    let files = DatasetFiles {
        children: vec!["img".to_string(), "ann".to_string()],
        media: items.iter().map(|s| ListedName::Text(s.to_string())).collect(),
        frame_map: vec![],
        annotation: vec![],
    };
    Dataset::open(dir, &files).unwrap()
}

#[test]
fn project_meta_is_read() {
    let meta = ProjectMeta::decode(&parse_json("meta.json", META).unwrap()).unwrap();
    assert_eq!(
        meta.classes,
        vec![
            ClassMeta {
                title: "car".to_string(),
                shape: Shape::Rectangle,
                color: Some(Rgb { red: 255, green: 128, blue: 0 }),
                geometry_config: GeometryConfig {},
            },
            ClassMeta {
                title: "road".to_string(),
                shape: Shape::Polygon,
                color: None,
                geometry_config: GeometryConfig {},
            },
        ]
    );
    assert_eq!(
        meta.tags,
        vec![
            TagMeta {
                name: "weather".to_string(),
                color: Some(Rgb { red: 10, green: 11, blue: 12 }),
                value_type: ValueType::OneOfString,
                values: Some(vec!["rain".to_string(), "sun".to_string()]),
            },
            TagMeta::new_any_string("note".to_string()),
        ]
    );
}

#[test]
fn short_hex_colour() {
    let tree = parse_json("c", br##""#f80""##).unwrap();
    assert_eq!(Rgb::decode(&tree), Ok(Rgb { red: 255, green: 136, blue: 0 }));
}

#[test]
fn bad_colours_and_value_types() {
    for text in [r##""FF8000""##, r##""#FF80""##, r##""#GG0000""##, r##""""##, r##""#FF800000""##] {
        let tree = parse_json("c", text.as_bytes()).unwrap();
        assert_eq!(Rgb::decode(&tree), Err(SchemaError::InvalidColor));
    }
    assert_eq!(Rgb::decode(&parse_json("c", b"16744448").unwrap()), Err(SchemaError::InvalidType));
    for text in ["\"#\u{e9}\u{e9}\u{e9}\"", "\"#\u{e9}f\"", "\"#FF80\u{e9}0\""] {
        let tree = parse_json("c", text.as_bytes()).unwrap();
        assert_eq!(Rgb::decode(&tree), Err(SchemaError::InvalidColor));
    }
    for (name, value) in [
        ("none", ValueType::Nothing),
        ("any_number", ValueType::AnyNumber),
        ("oneof_string", ValueType::OneOfString),
        ("any_string", ValueType::AnyString),
    ] {
        let tree = parse_json("v", format!("\"{}\"", name).as_bytes()).unwrap();
        assert_eq!(ValueType::decode(&tree), Ok(value));
    }
    let tree = parse_json("v", br#""anything""#).unwrap();
    assert_eq!(ValueType::decode(&tree), Err(SchemaError::InvalidType));
}

#[test]
fn key_id_map_starts_empty() {
    let map = KeyIdMap::default();
    assert!(map.tags.is_empty() && map.objects.is_empty());
    assert!(map.figures.is_empty() && map.videos.is_empty());
}

#[test]
fn only_directories_are_datasets() {
    assert!(Project::is_dataset(EntryKind::Directory));
    assert!(!Project::is_dataset(EntryKind::File));
    assert_eq!(
        Project::dataset_name(&ListedName::Text("ds1".to_string())).unwrap(),
        "ds1"
    );
    match Project::dataset_name(&ListedName::Undecodable("proj/\u{fffd}".to_string())) {
        Err(FormatError::ExpectUtf8FileName(path)) => assert_eq!(path, "proj/\u{fffd}"),
        other => panic!("unexpected: {:?}", other),
    }
}

#[test]
fn project_with_one_image_dataset() {
    let datasets = vec![("ds1".to_string(), image_dataset("proj/ds1", &["a.jpg"]))];
    let project = Project::open("proj", META, datasets).unwrap();
    assert_eq!(project.project_dir, "proj");
    assert_eq!(project.meta.classes.len(), 2);
    assert_eq!(project.datasets.len(), 1);
    assert!(project.get_dataset("ds2").is_none());
    let dataset = project.get_dataset("ds1").unwrap();
    assert_eq!(dataset.name, "ds1");
    let classical = match &dataset.kind {
        DatasetKind::Classical(c) => c,
        other => panic!("unexpected: {:?}", other),
    };
    assert_eq!(classical.media_kind, MediaKind::Image);
    let items: Vec<&str> = classical.media_names.iter().map(|s| s.as_str()).collect();
    assert_eq!(items, vec!["a.jpg"]);
    let media = classical.get_media("a.jpg").unwrap();
    assert_eq!(media.ann_path(), "proj/ds1/ann/a.jpg.json");
    let contents = br#"{"size": {"width": 8, "height": 8}, "objects": [
        {"id": 1, "classId": 3, "geometryType": "rectangle",
         "points": {"exterior": [[1, 1], [5, 5]], "interior": []}}]}"#;
    match media.ann(contents).unwrap() {
        MediaAnnotation::Image(annotation) => {
            assert_eq!(annotation.objects.len(), 1);
            assert!(matches!(annotation.objects[0].geometry, Geometry::Rectangle(_)));
            assert_eq!(annotation.objects[0].class_id, Some(3));
        }
        other => panic!("unexpected: {:?}", other),
    }
}

#[test]
fn project_needs_its_meta() {
    match Project::open("proj", b"", vec![]) {
        Err(FormatError::ParseJsonFileError { path, .. }) => assert_eq!(path, "proj/meta.json"),
        other => panic!("unexpected: {:?}", other.map(|p| p.project_dir)),
    }
    match Project::open("proj", br#"{"classes": []}"#, vec![]) {
        Err(FormatError::SchemaError { path, kind }) => {
            assert_eq!(path, "proj/meta.json");
            assert_eq!(kind, SchemaError::MissingField);
        }
        other => panic!("unexpected: {:?}", other.map(|p| p.project_dir)),
    }
}

#[test]
fn later_dataset_of_a_name_stays() {
    let datasets = vec![
        ("a".to_string(), image_dataset("proj/a", &["first.jpg"])),
        ("b".to_string(), image_dataset("proj/b", &[])),
        ("a".to_string(), image_dataset("proj/a", &["second.jpg"])),
    ];
    let project = Project::open("proj", META, datasets).unwrap();
    assert_eq!(project.datasets.len(), 2);
    match &project.get_dataset("a").unwrap().kind {
        DatasetKind::Classical(c) => assert!(c.get_media("second.jpg").is_some()),
        other => panic!("unexpected: {:?}", other),
    }
    assert!(project.get_dataset("b").is_some());
}

#[test]
fn colour_is_written_as_it_is_read() {
    use_colour(Rgb { red: 255, green: 128, blue: 0 }, "#FF8000");
    use_colour(Rgb { red: 0, green: 0, blue: 0 }, "#000000");
    use_colour(Rgb { red: 1, green: 2, blue: 171 }, "#0102AB");
}

fn use_colour(colour: Rgb, text: &str) {
    assert_eq!(colour.to_hex(), text);
    let wire = supervisely_format::project_meta::serialize(&Some(colour));
    assert_eq!(wire, supervisely_format::Json::Text(text.to_string()));
    assert_eq!(supervisely_format::project_meta::deserialize(&wire), Ok(Some(colour)));
    let none = supervisely_format::project_meta::serialize(&None);
    assert_eq!(none, supervisely_format::Json::Null);
    assert_eq!(supervisely_format::project_meta::deserialize(&none), Ok(None));
}
