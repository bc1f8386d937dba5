use aqiv::info::{pathbuf_as_uri, uri_from_text, ImageInfo};
use std::path::PathBuf;

#[test]
fn uri_of_absolute_path() {
    let p = PathBuf::from("/home/user/pic.png");
    assert_eq!(pathbuf_as_uri(&p), "file:///home/user/pic.png");
}

#[test]
fn uri_of_empty_path() {
    assert_eq!(pathbuf_as_uri(&PathBuf::new()), "file://");
}

#[test]
fn uri_from_text_prefixes_scheme() {
    assert_eq!(uri_from_text("a b/c"), "file://a b/c");
}

#[test]
fn blank_info() {
    let info = ImageInfo::default();
    assert_eq!(info.path, PathBuf::new());
    assert_eq!(info.name, "");
    assert_eq!(info.format, "Unknown");
    assert_eq!(info.size, 0);
    assert_eq!(info.resolution, None);
}

#[test]
fn info_clone_keeps_fields() {
    let info = ImageInfo {
        path: PathBuf::from("/x/y.cr2"),
        name: String::from("y.cr2"),
        format: String::from("RAW"),
        size: 42,
        resolution: Some((3, 2)),
    };
    let copy = info.clone();
    assert_eq!(copy.path, info.path);
    assert_eq!(copy.name, "y.cr2");
    assert_eq!(copy.format, "RAW");
    assert_eq!(copy.size, 42);
    assert_eq!(copy.resolution, Some((3, 2)));
}
