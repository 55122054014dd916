use indexmap::{IndexMap, IndexSet};
use supervisely_format::dataset::classical::ann_path;
use supervisely_format::frames::{decode_frame_map, parse_index};
use supervisely_format::names::collect_names;
use supervisely_format::text::join_path;
use supervisely_format::utils::parse_json;
use supervisely_format::{
    get_dir_name, load_json, ClassicalDataset, Dataset, DatasetFiles, DatasetKind, DatasetLayout,
    Decode, FormatError, FramePointcloudMap, Geometry, ImageAnnotation, ImageDataset, ListedName,
    MediaAnnotation, MediaKind, PointCloudDataset, PointCloudEpisodeAnnotation,
    PointCloudEpisodeDataset, SchemaError, VideoDataset,
};

fn names(list: &[&str]) -> Vec<String> {
    list.iter().map(|s| s.to_string()).collect()
}

fn listed(list: &[&str]) -> Vec<ListedName> {
    list.iter().map(|s| ListedName::Text(s.to_string())).collect()
}

fn held(set: &IndexSet<String>) -> Vec<&str> {
    set.iter().map(|s| s.as_str()).collect()
}

#[test]
fn frame_map_decides_before_media_folders() {
    let children = names(&["img", "frame_pointcloud_map.json", "annotation.json"]);
    assert!(matches!(
        Dataset::classify("ds", &children),
        Ok(DatasetLayout::PointCloudEpisode)
    ));
    let children = names(&["frame_pointcloud_map.json"]);
    assert!(matches!(
        Dataset::classify("ds", &children),
        Ok(DatasetLayout::PointCloudEpisode)
    ));
}

#[test]
fn one_media_folder_gives_its_kind() {
    for (folder, kind) in [
        ("img", MediaKind::Image),
        ("video", MediaKind::Video),
        ("pointcloud", MediaKind::PointCloud),
    ] {
        let children = names(&["ann", folder, "notes.txt"]);
        assert_eq!(Dataset::classify("ds", &children).unwrap(), DatasetLayout::Classical(kind));
        assert_eq!(MediaKind::detect("ds", &children).unwrap(), kind);
        assert_eq!(kind.dir_name(), folder);
    }
}

#[test]
fn two_media_folders_are_ambiguous() {
    for children in [
        names(&["img", "video"]),
        names(&["video", "pointcloud", "ann"]),
        names(&["img", "video", "pointcloud"]),
    ] {
        match Dataset::classify("root/ds", &children) {
            Err(FormatError::ExpectSingleMediaDirectory(path)) => assert_eq!(path, "root/ds"),
            other => panic!("unexpected: {:?}", other),
        }
    }
}

#[test]
fn no_media_folder_is_ambiguous() {
    for children in [names(&[]), names(&["ann", "meta.json"]), names(&["IMG", "images"])] {
        assert!(matches!(
            Dataset::classify("ds", &children),
            Err(FormatError::ExpectSingleMediaDirectory(_))
        ));
    }
}

#[test]
fn names_are_sorted_and_held_once() {
    let set = collect_names(&listed(&["b.jpg", "a.jpg", "c.jpg", "a.jpg", "B.jpg", "ab.jpg"])).unwrap();
    assert_eq!(held(&set), vec!["B.jpg", "a.jpg", "ab.jpg", "b.jpg", "c.jpg"]);
    assert_eq!(held(&collect_names(&vec![]).unwrap()), Vec::<&str>::new());
}

#[test]
fn first_undecodable_name_stops_the_listing() {
    let entries = vec![
        ListedName::Text("a.jpg".to_string()),
        ListedName::Undecodable("ds/img/\u{fffd}1".to_string()),
        ListedName::Undecodable("ds/img/\u{fffd}2".to_string()),
    ];
    match collect_names(&entries) {
        Err(FormatError::ExpectUtf8FileName(path)) => assert_eq!(path, "ds/img/\u{fffd}1"),
        other => panic!("unexpected: {:?}", other),
    }
}

#[test]
fn classical_dataset_from_a_listing() {
    let dataset =
        ClassicalDataset::open("proj/ds1", &names(&["ann", "img"]), &listed(&["b.jpg", "a.jpg"]))
            .unwrap();
    assert_eq!(dataset.dataset_dir, "proj/ds1");
    assert_eq!(dataset.media_kind, MediaKind::Image);
    assert_eq!(held(&dataset.media_names), vec!["a.jpg", "b.jpg"]);
    assert!(dataset.get_media("c.jpg").is_none());
    let media = dataset.get_media("b.jpg").unwrap();
    assert_eq!(media.media_name, "b.jpg");
    assert_eq!(media.media_path(), "proj/ds1/img/b.jpg");
    assert_eq!(media.ann_path(), "proj/ds1/ann/b.jpg.json");
    assert!(matches!(
        ClassicalDataset::open("proj/ds1", &names(&["ann"]), &listed(&["a.jpg"])),
        Err(FormatError::ExpectSingleMediaDirectory(_))
    ));
}

const RECTANGLE: &[u8] = br#"{"size": {"width": 4, "height": 3}, "objects": [
    {"id": 1, "classId": 3, "geometryType": "rectangle",
     "points": {"exterior": [[0, 0], [1, 1]], "interior": []}}]}"#;

#[test]
fn annotation_is_read_anew_each_time() {
    let dataset =
        ClassicalDataset::open("ds", &names(&["img"]), &listed(&["a.jpg"])).unwrap();
    let media = dataset.get_media("a.jpg").unwrap();
    let first = media.ann(RECTANGLE).unwrap();
    let changed = br#"{"size": {"width": 9, "height": 9}, "objects": []}"#;
    let second = media.ann(changed).unwrap();
    match (first, second) {
        (MediaAnnotation::Image(a), MediaAnnotation::Image(b)) => {
            assert_eq!(a.objects.len(), 1);
            assert_eq!(a.size.width, 4);
            assert_eq!(b.objects.len(), 0);
            assert_eq!(b.size.width, 9);
        }
        other => panic!("unexpected: {:?}", other),
    }
    assert_eq!(media.ann(RECTANGLE).unwrap(), media.ann(RECTANGLE).unwrap());
}

#[test]
fn annotation_failures_carry_the_path() {
    let dataset =
        ClassicalDataset::open("ds", &names(&["video"]), &listed(&["v.mp4"])).unwrap();
    let media = dataset.get_media("v.mp4").unwrap();
    match media.ann(b"{ not json") {
        Err(FormatError::ParseJsonFileError { path, .. }) => assert_eq!(path, "ds/ann/v.mp4.json"),
        other => panic!("unexpected: {:?}", other),
    }
    match media.ann(RECTANGLE) {
        Err(FormatError::SchemaError { path, kind }) => {
            assert_eq!(path, "ds/ann/v.mp4.json");
            assert_eq!(kind, SchemaError::MissingField);
        }
        other => panic!("unexpected: {:?}", other),
    }
}

#[test]
fn typed_datasets() {
    let images = ImageDataset::open("ds", &listed(&["2.png", "1.png"])).unwrap();
    assert_eq!(held(&images.image_names), vec!["1.png", "2.png"]);
    let image = images.get_image("1.png").unwrap();
    assert_eq!(image.ann_path(), "ds/ann/1.png.json");
    assert_eq!(image.ann(RECTANGLE).unwrap().objects[0].class_id, Some(3));
    assert!(images.get_image("3.png").is_none());

    let videos = VideoDataset::open("ds", &listed(&["v.mp4"])).unwrap();
    assert!(videos.get_video("v.mp4").is_some());
    assert!(videos.get_video("v.mp4").unwrap().ann(RECTANGLE).is_err());

    let clouds = PointCloudDataset::open("ds", &listed(&["c.pcd"])).unwrap();
    let cloud = clouds.get_point_cloud("c.pcd").unwrap();
    let text = br#"{"description": "", "objects": [], "figures": []}"#;
    assert_eq!(cloud.ann(text).unwrap().figures.len(), 0);

    match DatasetKind::from(images) {
        DatasetKind::Classical(c) => {
            assert_eq!(c.media_kind, MediaKind::Image);
            assert_eq!(held(&c.media_names), vec!["1.png", "2.png"]);
        }
        other => panic!("unexpected: {:?}", other),
    }
}

#[test]
fn load_json_tells_parse_from_schema() {
    let ok: ImageAnnotation = load_json("a.json", RECTANGLE).unwrap();
    assert_eq!(ok.objects.len(), 1);
    assert!(matches!(
        load_json::<ImageAnnotation>("a.json", b""),
        Err(FormatError::ParseJsonFileError { .. })
    ));
    assert!(matches!(
        load_json::<ImageAnnotation>("a.json", b"{}"),
        Err(FormatError::SchemaError { kind: SchemaError::MissingField, .. })
    ));
}

#[test]
fn annotation_path_of_an_item() {
    assert_eq!(ann_path("proj/ds1", "a.jpg"), "proj/ds1/ann/a.jpg.json");
    assert_eq!(ann_path("proj/ds1/", "a.jpg"), "proj/ds1/ann/a.jpg.json");
    assert_eq!(ann_path("", "x"), "ann/x.json");
    assert_eq!(ann_path("/", "x"), "/ann/x.json");
    assert_eq!(join_path("a", "/b"), "/b");
    assert_eq!(join_path("a", ""), "a/");
    assert_eq!(join_path("", ""), "");
}

#[test]
fn directory_names() {
    assert_eq!(get_dir_name("proj/ds1"), Some("ds1"));
    assert_eq!(get_dir_name("proj/ds1/"), Some("ds1"));
    assert_eq!(get_dir_name("proj/ds1///"), Some("ds1"));
    assert_eq!(get_dir_name("ds1"), Some("ds1"));
    assert_eq!(get_dir_name("/ds1"), Some("ds1"));
    assert_eq!(get_dir_name("a/b/\u{e9}t\u{e9}"), Some("\u{e9}t\u{e9}"));
    assert_eq!(get_dir_name(""), None);
    assert_eq!(get_dir_name("/"), None);
    assert_eq!(get_dir_name("a/."), Some("a"));
    assert_eq!(get_dir_name("proj/ds1/."), Some("ds1"));
    assert_eq!(get_dir_name("proj/ds1/./"), Some("ds1"));
    assert_eq!(get_dir_name("proj/ds1//.//./"), Some("ds1"));
    assert_eq!(get_dir_name("./ds1"), Some("ds1"));
    assert_eq!(get_dir_name("/."), None);
    assert_eq!(get_dir_name("./."), None);
    assert_eq!(get_dir_name("./"), None);
    assert_eq!(get_dir_name("a/../."), None);
    assert_eq!(get_dir_name("a/.b"), Some(".b"));
    assert_eq!(get_dir_name("a/b."), Some("b."));
    assert_eq!(get_dir_name("proj/.."), None);
    assert_eq!(get_dir_name(".."), None);
    assert_eq!(get_dir_name("."), None);
    assert_eq!(get_dir_name("proj/..x"), Some("..x"));
}

#[test]
fn frame_indices() {
    assert_eq!(parse_index("0"), Some(0));
    assert_eq!(parse_index("7"), Some(7));
    assert_eq!(parse_index("120"), Some(120));
    assert_eq!(parse_index("18446744073709551615"), Some(u64::MAX));
    assert_eq!(parse_index("18446744073709551616"), None);
    assert_eq!(parse_index("99999999999999999999999"), None);
    assert_eq!(parse_index(""), None);
    assert_eq!(parse_index("00"), None);
    assert_eq!(parse_index("01"), None);
    assert_eq!(parse_index("-1"), None);
    assert_eq!(parse_index("+1"), None);
    assert_eq!(parse_index("1.0"), None);
    assert_eq!(parse_index("1e2"), None);
    assert_eq!(parse_index(" 1"), None);
    assert_eq!(parse_index("\u{661}"), None);
}

fn episode_dataset() -> PointCloudEpisodeDataset {
    let map = br#"{"0": "pc0.pcd", "1": "pc1.pcd"}"#.to_vec();
    let annotation = br#"{"description": "", "objects": [], "frames": [
        {"index": 0, "figures": []},
        {"index": 1, "figures": [
            {"key": "f", "objectKey": "o", "geometryType": "cuboid_3d",
             "position": {"x": 1, "y": 2, "z": 3},
             "rotation": {"x": 0, "y": 0, "z": 0},
             "dimensions": {"x": 1, "y": 1, "z": 1}}]}]}"#
        .to_vec();
    PointCloudEpisodeDataset::open("proj/ep", &map, &annotation).unwrap()
}

#[test]
fn episode_frames_by_index() {
    let dataset = episode_dataset();
    assert_eq!(dataset.dataset_dir, "proj/ep");
    assert_eq!(dataset.frame_id_iter(), vec![0, 1]);
    let frame = dataset.get_frame(1).unwrap();
    assert_eq!(frame.id, 1);
    assert_eq!(frame.file_name, "pc1.pcd");
    assert_eq!(frame.annotation.index, 1);
    assert_eq!(frame.annotation.figures.len(), 1);
    assert!(matches!(frame.annotation.figures[0].geometry, Geometry::Cuboid3D(_)));
    let first = dataset.get_frame(0).unwrap();
    assert_eq!(first.file_name, "pc0.pcd");
    assert_eq!(first.annotation.figures.len(), 0);
    assert!(dataset.get_frame(2).is_none());
}

#[test]
fn frame_named_by_the_map_but_not_annotated() {
    let map = br#"{"0": "pc0.pcd", "3": "pc3.pcd"}"#.to_vec();
    let annotation =
        br#"{"description": "", "objects": [], "frames": [{"index": 0, "figures": []}]}"#.to_vec();
    let dataset = PointCloudEpisodeDataset::open("ep", &map, &annotation).unwrap();
    assert_eq!(dataset.get_frame(0).map(|f| f.file_name), Some("pc0.pcd"));
    assert!(dataset.get_frame(3).is_none());
    assert!(dataset.get_frame(1).is_none());
    assert!(dataset.get_frame(u64::MAX).is_none());
}

#[test]
fn frame_map_keeps_document_order() {
    let tree = parse_json("m.json", br#"{"10": "j", "2": "b", "0": "a"}"#).unwrap();
    let map: IndexMap<u64, String> = decode_frame_map(&tree).unwrap();
    let entries: Vec<(u64, &str)> = map.iter().map(|(k, v)| (*k, v.as_str())).collect();
    assert_eq!(entries, vec![(10, "j"), (2, "b"), (0, "a")]);
    let loose = FramePointcloudMap::decode(&tree).unwrap();
    assert_eq!(loose.map.len(), 3);
    assert_eq!(loose.map.get(&10).map(|s| s.as_str()), Some("j"));
    assert_eq!(loose.map.get(&1), None);
}

#[test]
fn frame_map_failures() {
    for text in [r#"{"x": "a"}"#, r#"{"0": 1}"#, r#"{"01": "a"}"#, r#"["a"]"#] {
        let tree = parse_json("m.json", text.as_bytes()).unwrap();
        assert_eq!(decode_frame_map(&tree).err(), Some(SchemaError::InvalidType));
        assert_eq!(FramePointcloudMap::decode(&tree).err(), Some(SchemaError::InvalidType));
    }
}

#[test]
fn episode_open_failures_in_order() {
    let good_map = br#"{"0": "pc0.pcd"}"#.to_vec();
    let good = br#"{"description": "", "objects": [], "frames": []}"#.to_vec();
    match PointCloudEpisodeDataset::open("ep", &b"nope".to_vec(), &b"nope".to_vec()) {
        Err(FormatError::ParseJsonFileError { path, .. }) => {
            assert_eq!(path, "ep/frame_pointcloud_map.json")
        }
        other => panic!("unexpected: {:?}", other),
    }
    match PointCloudEpisodeDataset::open("ep", &br#"{"a": "b"}"#.to_vec(), &good) {
        Err(FormatError::SchemaError { path, kind }) => {
            assert_eq!(path, "ep/frame_pointcloud_map.json");
            assert_eq!(kind, SchemaError::InvalidType);
        }
        other => panic!("unexpected: {:?}", other),
    }
    match PointCloudEpisodeDataset::open("ep", &good_map, &b"[".to_vec()) {
        Err(FormatError::ParseJsonFileError { path, .. }) => assert_eq!(path, "ep/annotation.json"),
        other => panic!("unexpected: {:?}", other),
    }
    let sparse =
        br#"{"description": "", "objects": [], "frames": [{"index": 1, "figures": []}]}"#.to_vec();
    match PointCloudEpisodeDataset::open("ep", &good_map, &sparse) {
        Err(FormatError::SchemaError { path, kind }) => {
            assert_eq!(path, "ep/annotation.json");
            assert_eq!(kind, SchemaError::FrameIndexMismatch);
        }
        other => panic!("unexpected: {:?}", other),
    }
    let _ = PointCloudEpisodeAnnotation::decode(&parse_json("a", &good).unwrap()).unwrap();
}

#[test]
fn dataset_by_its_layout() {
    let files = DatasetFiles {
        children: names(&["ann", "img"]),
        media: listed(&["a.jpg"]),
        frame_map: vec![],
        annotation: vec![],
    };
    let dataset = Dataset::open("proj/ds1", &files).unwrap();
    assert_eq!(dataset.name, "ds1");
    match &dataset.kind {
        DatasetKind::Classical(c) => {
            assert_eq!(c.media_kind, MediaKind::Image);
            assert_eq!(held(&c.media_names), vec!["a.jpg"]);
        }
        other => panic!("unexpected: {:?}", other),
    }
    let files = DatasetFiles {
        children: names(&["img", "frame_pointcloud_map.json", "annotation.json"]),
        media: listed(&["a.jpg"]),
        frame_map: br#"{"0": "pc0.pcd"}"#.to_vec(),
        annotation: br#"{"description": "", "objects": [],
            "frames": [{"index": 0, "figures": []}]}"#
            .to_vec(),
    };
    let dataset = Dataset::open("proj/ep/", &files).unwrap();
    assert_eq!(dataset.name, "ep");
    assert!(matches!(dataset.kind, DatasetKind::PointCloudEpisode(_)));
    let files = DatasetFiles {
        children: names(&["img", "video"]),
        media: vec![],
        frame_map: vec![],
        annotation: vec![],
    };
    assert!(matches!(
        Dataset::open("proj/ds", &files),
        Err(FormatError::ExpectSingleMediaDirectory(_))
    ));
    let files = DatasetFiles {
        children: names(&["video"]),
        media: vec![],
        frame_map: vec![],
        annotation: vec![],
    };
    assert_eq!(Dataset::open("/", &files).unwrap().name, "");
}

#[test]
fn dataset_at_a_path_that_ends_in_a_dot() {
    let files = DatasetFiles {
        children: names(&["img"]),
        media: listed(&["a.jpg"]),
        frame_map: vec![],
        annotation: vec![],
    };
    assert_eq!(Dataset::open("proj/ds1/.", &files).unwrap().name, "ds1");
    assert_eq!(Dataset::open("proj/ds1", &files).unwrap().name, "ds1");
    assert_eq!(Dataset::open("proj/..", &files).unwrap().name, "");
}

#[test]
fn frame_out_of_place_in_a_dataset_built_by_hand() {
    let mut dataset = episode_dataset();
    dataset.annotation.frames[1].index = 7;
    assert!(dataset.get_frame(1).is_none());
    assert!(dataset.get_frame(0).is_some());
}
