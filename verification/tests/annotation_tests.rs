use supervisely_format::utils::parse_json;
use supervisely_format::{
    Decode, Encode, EpisodeAnnotation, Figure, Finite, FormatError, Frame, Geometry,
    ImageAnnotation, Json, JsonNumber, Meta, Object, PointCloudAnnotation, PointCloudEpisodeAnnotation,
    PointCloudFigure, PointCloudObject, PointGeometry, Points, RelatedImages, SchemaError,
    SensorsData, Shape, Size, Vector3D, VideoAnnotation, VideoObject,
};

fn tree(text: &str) -> Json {
    parse_json("test.json", text.as_bytes()).unwrap()
}

const IMAGE: &str = r#"{
    "description": "a street",
    "size": {"width": 640, "height": 480},
    "tags": [{"name": "day"}],
    "objects": [
        {"id": 11, "classId": 3, "geometryType": "rectangle", "labelerLogin": "ann",
         "points": {"exterior": [[10, 20], [30, 40]], "interior": []}},
        {"id": 12, "geometryType": "bitmap",
         "bitmap": {"data": "eJxjYGRkAAAACQAD", "origin": [1, 2]}}
    ]
}"#;

#[test]
fn image_annotation_with_two_objects() {
    let annotation = ImageAnnotation::decode(&tree(IMAGE)).unwrap();
    assert_eq!(annotation.name, None);
    assert_eq!(annotation.description.as_deref(), Some("a street"));
    assert_eq!(annotation.size, Size { width: 640, height: 480 });
    assert_eq!(annotation.tags.as_ref().map(|t| t.len()), Some(1));
    assert_eq!(annotation.objects.len(), 2);
    let first = &annotation.objects[0];
    assert_eq!(first.id, 11);
    assert_eq!(first.class_id, Some(3));
    assert_eq!(first.labeler_login.as_deref(), Some("ann"));
    match &first.geometry {
        Geometry::Rectangle(r) => {
            assert_eq!(r.points.exterior.len(), 2);
            assert_eq!(r.points.exterior[1], (Finite::from_u64(30), Finite::from_u64(40)));
        }
        other => panic!("not a rectangle: {:?}", other),
    }
    match &annotation.objects[1].geometry {
        Geometry::Bitmap(b) => assert_eq!(b.bitmap.decode_data().unwrap(), vec![0u8, 1, 1, 0]),
        other => panic!("not a bitmap: {:?}", other),
    }
}

#[test]
fn corrupt_bitmap_does_not_stop_the_annotation() {
    let text = r#"{"size": {"width": 1, "height": 1}, "objects": [
        {"id": 1, "geometryType": "bitmap", "bitmap": {"data": "%%%", "origin": [0, 0]}}]}"#;
    let annotation = ImageAnnotation::decode(&tree(text)).unwrap();
    match &annotation.objects[0].geometry {
        Geometry::Bitmap(b) => assert!(matches!(
            b.bitmap.decode_data(),
            Err(FormatError::DecodeDataError(_))
        )),
        other => panic!("not a bitmap: {:?}", other),
    }
}

#[test]
fn image_annotation_failures() {
    let no_size = r#"{"objects": []}"#;
    assert_eq!(ImageAnnotation::decode(&tree(no_size)), Err(SchemaError::MissingField));
    let no_objects = r#"{"size": {"width": 1, "height": 1}}"#;
    assert_eq!(ImageAnnotation::decode(&tree(no_objects)), Err(SchemaError::MissingField));
    let bad_object = r#"{"size": {"width": 1, "height": 1},
        "objects": [{"id": 1, "geometryType": "blob"}]}"#;
    assert_eq!(
        ImageAnnotation::decode(&tree(bad_object)),
        Err(SchemaError::UnknownGeometryKind)
    );
    let bad_size = r#"{"size": {"width": -1, "height": 1}, "objects": []}"#;
    assert_eq!(ImageAnnotation::decode(&tree(bad_size)), Err(SchemaError::InvalidType));
    assert_eq!(ImageAnnotation::decode(&tree("[1, 2]")), Err(SchemaError::InvalidType));
}

#[test]
fn object_keeps_its_class_reference() {
    let text = r#"{"id": 1, "classId": 99999, "geometryType": "point",
                   "points": {"exterior": [[0, 0]], "interior": []}}"#;
    let object = Object::decode(&tree(text)).unwrap();
    assert_eq!(object.class_id, Some(99999));
    let text = r#"{"classId": 1, "geometryType": "point",
                   "points": {"exterior": [[0, 0]], "interior": []}}"#;
    assert_eq!(Object::decode(&tree(text)), Err(SchemaError::MissingField));
}

#[test]
fn object_is_written_flat_and_read_back() {
    let object = Object {
        id: 4,
        class_id: Some(3),
        labeler_login: None,
        created_at: Some("t".to_string()),
        updated_at: None,
        geometry: Geometry::Point(PointGeometry {
            tags: None,
            points: Points {
                exterior: vec![(Finite::from_u64(1), Finite::from_u64(2))],
                interior: vec![],
            },
        }),
    };
    let wire = object.encode();
    let keys: Vec<&str> = match &wire {
        Json::Object(members) => members.iter().map(|m| m.0.as_str()).collect(),
        _ => panic!("not an object"),
    };
    assert_eq!(
        keys,
        vec!["id", "classId", "createdAt", "geometryType", "points"]
    );
    assert_eq!(Object::decode(&wire), Ok(object));
}

const VIDEO: &str = r#"{
    "size": {"width": 1920, "height": 1080},
    "description": "",
    "key": "video-key",
    "objects": [{"key": "o1", "classTitle": "car"}],
    "frames": [
        {"index": 0, "figures": []},
        {"index": 5, "figures": [
            {"key": "f1", "objectKey": "o1", "geometryType": "point",
             "points": {"exterior": [[1, 1]], "interior": []}}]}
    ],
    "framesCount": 6
}"#;

#[test]
fn video_annotation_without_tags() {
    let annotation = VideoAnnotation::decode(&tree(VIDEO)).unwrap();
    assert_eq!(annotation.tags, vec![]);
    assert_eq!(annotation.key, "video-key");
    assert_eq!(annotation.frames_count, 6);
    assert_eq!(
        annotation.objects,
        vec![VideoObject {
            key: "o1".to_string(),
            class_title: Some("car".to_string()),
            tags: None,
            labeler_login: None,
        }]
    );
    assert_eq!(annotation.frames.len(), 2);
    assert_eq!(annotation.frames[1].index, 5);
    let figure: &Figure = &annotation.frames[1].figures[0];
    assert_eq!(figure.object_key, "o1");
    assert!(matches!(figure.geometry, Geometry::Point(_)));
}

#[test]
fn video_annotation_needs_its_key() {
    let text = r#"{"size": {"width": 1, "height": 1}, "description": "", "objects": [],
                   "frames": [], "framesCount": 0}"#;
    assert_eq!(VideoAnnotation::decode(&tree(text)), Err(SchemaError::MissingField));
}

const CLOUD: &str = r#"{
    "description": "scan",
    "key": "k",
    "tags": [],
    "objects": [{"key": "o1", "classTitle": "car", "tags": []}],
    "figures": [{"key": "f1", "objectKey": "missing", "geometryType": "cuboid_3d",
        "geometry": {"position": {"x": 1, "y": 2, "z": 3},
                     "rotation": {"x": 0, "y": 0, "z": 0.5},
                     "dimensions": {"x": 4, "y": 5, "z": 6}}}]
}"#;

#[test]
fn point_cloud_annotation() {
    let annotation = PointCloudAnnotation::decode(&tree(CLOUD)).unwrap();
    assert_eq!(annotation.description, "scan");
    assert_eq!(annotation.key.as_deref(), Some("k"));
    assert_eq!(
        annotation.objects,
        vec![PointCloudObject {
            key: "o1".to_string(),
            class_title: "car".to_string(),
            tags: vec![],
        }]
    );
    let figure: &PointCloudFigure = &annotation.figures[0];
    assert_eq!(figure.object_key, "missing");
    assert_eq!(figure.geometry_type, Shape::Cuboid3D);
    assert_eq!(
        figure.geometry.position,
        Vector3D { x: Finite::from_u64(1), y: Finite::from_u64(2), z: Finite::from_u64(3) }
    );
    assert_eq!(figure.geometry.rotation.z, Finite::from_bits(0.5f64.to_bits()).unwrap());
}

#[test]
fn point_cloud_figure_with_a_null_coordinate() {
    let text = CLOUD.replace(r#""z": 0.5"#, r#""z": null"#);
    assert_eq!(
        PointCloudAnnotation::decode(&tree(&text)),
        Err(SchemaError::NonFiniteCoordinate)
    );
}

fn episode(indices: &[u64]) -> String {
    let frames: Vec<String> = indices
        .iter()
        .map(|i| format!(r#"{{"index": {}, "figures": []}}"#, i))
        .collect();
    format!(
        r#"{{"description": "", "objects": [], "frames": [{}]}}"#,
        frames.join(", ")
    )
}

#[test]
fn episode_frames_in_place() {
    let annotation = PointCloudEpisodeAnnotation::decode(&tree(&episode(&[0, 1, 2]))).unwrap();
    assert_eq!(annotation.frames.len(), 3);
    assert_eq!(annotation.frames[2], Frame { index: 2, figures: vec![] });
    assert_eq!(annotation.tags, vec![]);
    assert!(PointCloudEpisodeAnnotation::decode(&tree(&episode(&[]))).is_ok());
}

#[test]
fn episode_frames_out_of_place() {
    for bad in [vec![1u64], vec![0, 2], vec![1, 0], vec![0, 1, 1], vec![0, 0]] {
        assert_eq!(
            PointCloudEpisodeAnnotation::decode(&tree(&episode(&bad))),
            Err(SchemaError::FrameIndexMismatch)
        );
    }
}

#[test]
fn loose_episode_annotation_keeps_json() {
    let text = r#"{"description": "d", "tags": [1], "objects": [{"a": null}],
                   "framesCount": 2, "frames": [[], "x"]}"#;
    let annotation = EpisodeAnnotation::decode(&tree(text)).unwrap();
    assert_eq!(annotation.description, "d");
    assert_eq!(annotation.frames_count, 2);
    assert_eq!(annotation.tags, vec![tree("1")]);
    assert_eq!(annotation.objects, vec![tree(r#"{"a": null}"#)]);
    assert_eq!(annotation.frames, vec![tree("[]"), tree(r#""x""#)]);
    assert_eq!(EpisodeAnnotation::default().frames_count, 0);
}

#[test]
fn related_image_with_its_matrices() {
    let text = r#"{"name": "img.png", "meta": {"deviceId": "cam0", "timestamp": "t",
        "sensorsData": {"extrinsicMatrix": [1, 0.5], "intrinsicMatrix": []}}}"#;
    let related = RelatedImages::decode(&tree(text)).unwrap();
    assert_eq!(
        related,
        RelatedImages {
            name: "img.png".to_string(),
            meta: Meta {
                device_id: "cam0".to_string(),
                timestamp: "t".to_string(),
                sensors_data: SensorsData {
                    extrinsic_matrix: vec![
                        Finite::from_u64(1),
                        Finite::from_bits(0.5f64.to_bits()).unwrap()
                    ],
                    intrinsic_matrix: vec![],
                },
            },
        }
    );
    assert_eq!(RelatedImages::default().name, "");
    let text = r#"{"name": "img.png", "meta": {"deviceId": "cam0", "timestamp": "t",
        "sensorsData": {"extrinsicMatrix": [null], "intrinsicMatrix": []}}}"#;
    assert_eq!(RelatedImages::decode(&tree(text)), Err(SchemaError::NonFiniteCoordinate));
}

#[test]
fn json_tree_as_parsed() {
    let value = tree(r#"{"b": [1, -2, 1.5, "s", true, null], "a": {}}"#);
    assert_eq!(
        value,
        Json::Object(vec![
            (
                "b".to_string(),
                Json::Array(vec![
                    Json::Number(JsonNumber::PosInt(1)),
                    Json::Number(JsonNumber::NegInt(-2)),
                    Json::Number(JsonNumber::Float(1.5f64.to_bits())),
                    Json::Text("s".to_string()),
                    Json::Bool(true),
                    Json::Null,
                ])
            ),
            ("a".to_string(), Json::Object(vec![])),
        ])
    );
    assert_eq!(value.clone(), value);
    assert_eq!(value.get("a"), Some(&Json::Object(vec![])));
    assert_eq!(value.get("c"), None);
    assert_eq!(Json::Null.get("a"), None);
}
