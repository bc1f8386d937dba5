use aqiv::dispatch::{get_image, get_image_with, Action, Dispatch, Event};
use aqiv::error::DecodeError;
use aqiv::frame::Raster;
use aqiv::registry::{
    default_registry, display_name, first_match, prioritize, LoaderCandidate, LoaderKind,
};

fn kinds(queue: &[LoaderCandidate]) -> Vec<LoaderKind> {
    queue.iter().map(|c| c.kind).collect()
}

fn png_2x1() -> Vec<u8> {
    let mut img = image::RgbaImage::new(2, 1);
    img.put_pixel(0, 0, image::Rgba([1, 2, 3, 4]));
    img.put_pixel(1, 0, image::Rgba([250, 251, 252, 253]));
    let mut out = std::io::Cursor::new(Vec::new());
    img.write_to(&mut out, image::ImageFormat::Png).unwrap();
    out.into_inner()
}

#[test]
fn default_registry_is_in_declared_order() {
    let registry = default_registry();
    let tags: Vec<&str> = registry.iter().map(|c| c.tag.as_str()).collect();
    assert_eq!(tags, vec!["raw", "svg", "heif", "jxl", "default"]);
    assert_eq!(
        kinds(&registry),
        vec![
            LoaderKind::Raw,
            LoaderKind::Svg,
            LoaderKind::Heif,
            LoaderKind::JpegXl,
            LoaderKind::Bitmap
        ]
    );
}

#[test]
fn unknown_extension_keeps_declared_order() {
    let registry = default_registry();
    let queue = prioritize(&registry, Some("xyz"));
    assert_eq!(kinds(&queue), kinds(&registry));
    let queue = prioritize(&registry, None);
    assert_eq!(kinds(&queue), kinds(&registry));
}

#[test]
fn matching_extension_moves_candidate_to_front() {
    let registry = default_registry();
    let queue = prioritize(&registry, Some("jxl"));
    assert_eq!(
        kinds(&queue),
        vec![
            LoaderKind::JpegXl,
            LoaderKind::Raw,
            LoaderKind::Svg,
            LoaderKind::Heif,
            LoaderKind::Bitmap
        ]
    );
    // The registry itself is unchanged.
    assert_eq!(registry[0].kind, LoaderKind::Raw);
    assert_eq!(first_match(&registry, "jxl"), 3);
    assert_eq!(first_match(&registry, "nope"), 5);
}

#[test]
fn raw_ext_hint_puts_raw_candidate_first() {
    let registry = vec![
        LoaderCandidate::new("default", LoaderKind::Bitmap),
        LoaderCandidate::new("svg", LoaderKind::Svg),
        LoaderCandidate::new("raw-ext", LoaderKind::Raw),
    ];
    let queue = prioritize(&registry, Some("raw-ext"));
    assert_eq!(queue[0].kind, LoaderKind::Raw);
    assert_eq!(queue[0].tag, "raw-ext");
    assert_eq!(kinds(&queue), vec![LoaderKind::Raw, LoaderKind::Bitmap, LoaderKind::Svg]);
    let mut d = Dispatch::new(&registry, Some("raw-ext"));
    assert!(matches!(d.step(Event::Begin), Action::Attempt(LoaderKind::Raw)));
}

#[test]
fn unrecognised_buffer_fails_after_every_candidate() {
    let buf = vec![0x13u8, 0x37, 0x00, 0xFF, 0x42, 0x42, 0x42, 0x42, 0x01, 0x02];
    assert_eq!(get_image(&buf, Some("zzz")).err(), Some(DecodeError::NoLoaderSucceeded));
    assert_eq!(get_image(&buf, None).err(), Some(DecodeError::NoLoaderSucceeded));
}

#[test]
fn machine_tries_every_candidate_once_then_abandons() {
    let registry = default_registry();
    let mut d = Dispatch::new(&registry, Some("zzz"));
    let mut tried = Vec::new();
    let mut action = d.step(Event::Begin);
    loop {
        match action {
            Action::Attempt(kind) => {
                tried.push(kind);
                action = d.step(Event::Failed);
            }
            Action::Abandon(e) => {
                assert_eq!(e, DecodeError::NoLoaderSucceeded);
                break;
            }
            Action::Deliver(_) => panic!("nothing was decoded"),
        }
    }
    assert_eq!(tried, kinds(&registry));
    // Once abandoned, the machine stays so.
    assert!(matches!(d.step(Event::Failed), Action::Abandon(DecodeError::NoLoaderSucceeded)));
}

#[test]
fn machine_delivers_under_candidate_tag() {
    let registry = default_registry();
    let mut d = Dispatch::new(&registry, Some("heif"));
    assert!(matches!(d.step(Event::Begin), Action::Attempt(LoaderKind::Heif)));
    let raster = Raster::from_rgba(1, 1, vec![9, 8, 7, 255]).unwrap();
    match d.step(Event::Decoded(raster, Some(String::from("PNG")))) {
        Action::Deliver(image) => {
            assert_eq!(image.format_label, "heif");
            assert_eq!(image.raster.data, vec![9, 8, 7, 255]);
        }
        _ => panic!("the raster was not delivered"),
    }
}

#[test]
fn machine_counts_malformed_raster_as_failure() {
    let registry = default_registry();
    let mut d = Dispatch::new(&registry, None);
    assert!(matches!(d.step(Event::Begin), Action::Attempt(LoaderKind::Raw)));
    let broken = Raster { width: 2, height: 2, data: vec![0; 15] };
    assert!(matches!(d.step(Event::Decoded(broken, None)), Action::Attempt(LoaderKind::Svg)));
}

#[test]
fn png_is_decoded_by_bitmap_candidate_and_labelled_by_signature() {
    let buf = png_2x1();
    let image = get_image(&buf, Some("png")).unwrap();
    assert_eq!(image.format_label, "PNG");
    assert_eq!(image.raster.width, 2);
    assert_eq!(image.raster.height, 1);
    assert_eq!(image.raster.data, vec![1, 2, 3, 4, 250, 251, 252, 253]);
}

#[test]
fn svg_is_decoded_under_its_tag() {
    let svg = "<svg xmlns=\"http://www.w3.org/2000/svg\" width=\"2\" height=\"3\">\
               <rect width=\"2\" height=\"3\" fill=\"#ff0000\"/></svg>";
    let buf = svg.as_bytes().to_vec();
    let image = get_image(&buf, Some("svg")).unwrap();
    assert_eq!(image.format_label, "svg");
    assert_eq!(image.raster.width, 2);
    assert_eq!(image.raster.height, 3);
    assert_eq!(image.raster.data.len(), 24);
    assert_eq!(&image.raster.data[0..4], &[255, 0, 0, 255]);
}

#[test]
fn bitmap_only_registry_refuses_svg() {
    let registry = vec![LoaderCandidate::new("default", LoaderKind::Bitmap)];
    let buf = b"<svg xmlns=\"http://www.w3.org/2000/svg\" width=\"1\" height=\"1\"/>".to_vec();
    assert_eq!(
        get_image_with(&registry, &buf, Some("svg")).err(),
        Some(DecodeError::NoLoaderSucceeded)
    );
}

#[test]
fn bitmap_at_the_head_gives_its_raster_under_the_sniffed_label() {
    let buf = png_2x1();
    let image = get_image(&buf, Some("default")).unwrap();
    assert_eq!(image.format_label, "PNG");
    assert_eq!((image.raster.width, image.raster.height), (2, 1));
    assert_eq!(image.raster.data, vec![1, 2, 3, 4, 250, 251, 252, 253]);
    // The same bytes are what the decoder alone gives.
    let alone = aqiv::bitmap::load_image_default(&buf).unwrap();
    assert_eq!(image.raster, alone);
}

#[test]
fn unavailable_decoders_are_passed_over() {
    let buf = png_2x1();
    for ext in ["heif", "jxl"] {
        let image = get_image(&buf, Some(ext)).unwrap();
        assert_eq!(image.format_label, "PNG");
        assert_eq!(image.raster.data, vec![1, 2, 3, 4, 250, 251, 252, 253]);
    }
}

#[test]
fn labels_have_display_names() {
    assert_eq!(display_name("default"), "Unknown");
    assert_eq!(display_name("raw"), "RAW");
    assert_eq!(display_name("svg"), "SVG");
    assert_eq!(display_name("heif"), "HEIF");
    assert_eq!(display_name("jxl"), "JPEG XL");
    assert_eq!(display_name("PNG"), "PNG");
    assert_eq!(display_name("raw-ext"), "raw-ext");
    assert_eq!(display_name(""), "");
}
