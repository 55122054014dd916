use supervisely_format::utils::parse_json;
use supervisely_format::{
    ClassMeta, Decode, Encode, EpisodeAnnotation, Figure, Frame, ImageAnnotation, Json,
    PointCloudAnnotation, PointCloudEpisodeAnnotation, ProjectMeta, RelatedImages, TagMeta,
    ValueType, VideoAnnotation,
};

fn tree(text: &str) -> Json {
    parse_json("test.json", text.as_bytes()).unwrap()
}

const IMAGE: &str = r#"{"description": "d", "size": {"width": 4, "height": 3},
    "tags": [{"name": "t", "value": "v"}],
    "objects": [{"id": 1, "classId": 2, "geometryType": "point", "tags": [],
                 "points": {"exterior": [[1, 2]], "interior": []}}]}"#;

const VIDEO: &str = r#"{"size": {"width": 4, "height": 3}, "description": "", "tags": [],
    "key": "k", "objects": [{"key": "o", "classTitle": "car"}],
    "frames": [{"index": 3, "figures": [
        {"key": "f", "objectKey": "o", "labelerLogin": "ann", "geometryType": "bitmap",
         "bitmap": {"data": "x", "origin": [1, 2]}, "shape": "bitmap"}]}],
    "framesCount": 9}"#;

const CLOUD: &str = r#"{"description": "s", "key": "k", "tags": [],
    "objects": [{"key": "o", "classTitle": "car", "tags": [{"name": "t"}]}],
    "figures": [{"key": "f", "objectKey": "o", "geometryType": "cuboid_3d",
        "geometry": {"position": {"x": 1, "y": 2, "z": 3},
                     "rotation": {"x": 0, "y": 0, "z": 0.5},
                     "dimensions": {"x": 4, "y": 5, "z": 6}}}]}"#;

const EPISODE: &str = r#"{"description": "", "tags": [], "objects": [],
    "frames": [{"index": 0, "figures": []}, {"index": 1, "figures": []}]}"#;

#[test]
fn documents_are_written_as_they_were_read() {
    let image = ImageAnnotation::decode(&tree(IMAGE)).unwrap();
    assert_eq!(image.encode(), tree(IMAGE));
    let video = VideoAnnotation::decode(&tree(VIDEO)).unwrap();
    assert_eq!(video.encode(), tree(VIDEO));
    let cloud = PointCloudAnnotation::decode(&tree(CLOUD)).unwrap();
    assert_eq!(cloud.encode(), tree(CLOUD));
    let episode = PointCloudEpisodeAnnotation::decode(&tree(EPISODE)).unwrap();
    assert_eq!(episode.encode(), tree(EPISODE));
}

#[test]
fn written_documents_are_read_back() {
    let image = ImageAnnotation::decode(&tree(IMAGE)).unwrap();
    assert_eq!(ImageAnnotation::decode(&image.encode()), Ok(image));
    let video = VideoAnnotation::decode(&tree(VIDEO)).unwrap();
    assert_eq!(VideoAnnotation::decode(&video.encode()), Ok(video));
    let cloud = PointCloudAnnotation::decode(&tree(CLOUD)).unwrap();
    assert_eq!(PointCloudAnnotation::decode(&cloud.encode()), Ok(cloud));
    let episode = PointCloudEpisodeAnnotation::decode(&tree(EPISODE)).unwrap();
    assert_eq!(PointCloudEpisodeAnnotation::decode(&episode.encode()), Ok(episode));
}

#[test]
fn figure_is_written_flat() {
    let text = r#"{"key": "f", "objectKey": "o", "geometryType": "point",
                   "points": {"exterior": [[0, 0]], "interior": []}}"#;
    let figure = Figure::decode(&tree(text)).unwrap();
    let wire = figure.encode();
    assert_eq!(wire, tree(text));
    assert!(wire.get("geometry").is_none());
    assert!(wire.get("classTitle").is_none());
    let frame = Frame { index: 2, figures: vec![figure.clone()] };
    assert_eq!(Frame::decode(&frame.encode()), Ok(frame));
}

#[test]
fn absent_lists_are_written_empty() {
    let text = r#"{"size": {"width": 1, "height": 1}, "description": "", "key": "k",
                   "objects": [], "frames": [], "framesCount": 0}"#;
    let video = VideoAnnotation::decode(&tree(text)).unwrap();
    assert_eq!(video.encode().get("tags"), Some(&Json::Array(vec![])));
}

#[test]
fn project_meta_is_written_and_read_back() {
    let text = r##"{"classes": [{"title": "car", "shape": "rectangle", "color": "#FF8000",
                                 "geometry_config": {}},
                                {"title": "road", "shape": "polygon", "geometry_config": {}}],
                    "tags": [{"name": "w", "color": "#0A0B0C", "value_type": "oneof_string",
                              "values": ["rain", "sun"]},
                             {"name": "n", "value_type": "none"}]}"##;
    let meta = ProjectMeta::decode(&tree(text)).unwrap();
    assert_eq!(meta.encode(), tree(text));
    assert_eq!(ProjectMeta::decode(&meta.encode()), Ok(meta.clone()));
    let class: &ClassMeta = &meta.classes[1];
    assert_eq!(class.encode().get("color"), None);
    let tag: &TagMeta = &meta.tags[1];
    assert_eq!(tag.encode().get("values"), None);
    for value in [
        ValueType::Nothing,
        ValueType::AnyNumber,
        ValueType::OneOfString,
        ValueType::AnyString,
    ] {
        assert_eq!(ValueType::decode(&value.encode()), Ok(value));
    }
}

#[test]
fn loose_documents_are_written_and_read_back() {
    let text = r#"{"description": "d", "tags": [1, null], "objects": [{"a": null}],
                   "framesCount": 2, "frames": [[], "x"]}"#;
    let annotation = EpisodeAnnotation::decode(&tree(text)).unwrap();
    assert_eq!(annotation.encode(), tree(text));
    let text = r#"{"name": "img.png", "meta": {"deviceId": "cam0", "timestamp": "t",
        "sensorsData": {"extrinsicMatrix": [1, 0.5], "intrinsicMatrix": []}}}"#;
    let related = RelatedImages::decode(&tree(text)).unwrap();
    assert_eq!(related.encode(), tree(text));
    assert_eq!(RelatedImages::decode(&related.encode()), Ok(related));
}
