use aqiv::cfa::CfaPattern;
use aqiv::error::DecodeError;
use aqiv::frame::{MonoFrame, Orientation, RgbFrame};
use aqiv::planar::StridedPlane;

fn numbered(width: usize, height: usize) -> RgbFrame {
    let data: Vec<u8> = (0..width * height * 3).map(|i| (i % 251) as u8).collect();
    RgbFrame { width, height, data }
}

fn as_image(f: &RgbFrame) -> image::RgbImage {
    image::RgbImage::from_raw(f.width as u32, f.height as u32, f.data.clone()).unwrap()
}

#[test]
fn quarter_turn_of_2x3() {
    // a b
    // c d
    // e f
    let f = RgbFrame {
        width: 2,
        height: 3,
        data: vec![1, 1, 1, 2, 2, 2, 3, 3, 3, 4, 4, 4, 5, 5, 5, 6, 6, 6],
    };
    let r = f.rotate90();
    assert_eq!((r.width, r.height), (3, 2));
    // e c a
    // f d b
    assert_eq!(r.data, vec![5, 5, 5, 3, 3, 3, 1, 1, 1, 6, 6, 6, 4, 4, 4, 2, 2, 2]);
    let h = f.rotate180();
    assert_eq!((h.width, h.height), (2, 3));
    assert_eq!(h.data, vec![6, 6, 6, 5, 5, 5, 4, 4, 4, 3, 3, 3, 2, 2, 2, 1, 1, 1]);
    let l = f.rotate270();
    assert_eq!((l.width, l.height), (3, 2));
    // b d f
    // a c e
    assert_eq!(l.data, vec![2, 2, 2, 4, 4, 4, 6, 6, 6, 1, 1, 1, 3, 3, 3, 5, 5, 5]);
}

#[test]
fn rotations_agree_with_image_crate() {
    for (w, h) in [(1usize, 1usize), (1, 5), (5, 1), (4, 3), (7, 9)] {
        let f = numbered(w, h);
        let img = as_image(&f);
        let r = f.rotate90();
        let e = image::imageops::rotate90(&img);
        assert_eq!((r.width as u32, r.height as u32), e.dimensions());
        assert_eq!(r.data, e.into_raw());
        let r = f.rotate180();
        let e = image::imageops::rotate180(&img);
        assert_eq!((r.width as u32, r.height as u32), e.dimensions());
        assert_eq!(r.data, e.into_raw());
        let r = f.rotate270();
        let e = image::imageops::rotate270(&img);
        assert_eq!((r.width as u32, r.height as u32), e.dimensions());
        assert_eq!(r.data, e.into_raw());
    }
}

#[test]
fn four_quarter_turns_are_the_identity() {
    for (w, h) in [(1usize, 1usize), (2, 5), (6, 3)] {
        let f = numbered(w, h);
        let r = f.rotate90().rotate90().rotate90().rotate90();
        assert_eq!((r.width, r.height), (w, h));
        assert_eq!(r.data, f.data);
        assert_eq!(f.rotate90().rotate90().data, f.rotate180().data);
        assert_eq!(f.rotate90().rotate90().rotate90().data, f.rotate270().data);
        assert_eq!(f.rotate270().rotate90().data, f.data);
    }
}

#[test]
fn orient_follows_the_tag() {
    let f = numbered(3, 2);
    let same = numbered(3, 2).orient(Orientation::Identity);
    assert_eq!((same.width, same.height), (3, 2));
    assert_eq!(same.data, f.data);
    let r = numbered(3, 2).orient(Orientation::Rotate90);
    assert_eq!((r.width, r.height), (2, 3));
    assert_eq!(r.data, f.rotate90().data);
    let r = numbered(3, 2).orient(Orientation::Rotate180);
    assert_eq!((r.width, r.height), (3, 2));
    assert_eq!(r.data, f.rotate180().data);
    let r = numbered(3, 2).orient(Orientation::Rotate270);
    assert_eq!((r.width, r.height), (2, 3));
    assert_eq!(r.data, f.rotate270().data);
}

#[test]
fn rgba_adds_opaque_alpha() {
    let f = RgbFrame { width: 2, height: 1, data: vec![1, 2, 3, 4, 5, 6] };
    let r = f.to_rgba();
    assert_eq!((r.width, r.height), (2, 1));
    assert_eq!(r.data, vec![1, 2, 3, 255, 4, 5, 6, 255]);
    let big = numbered(5, 4);
    let expected = image::DynamicImage::ImageRgb8(as_image(&big)).to_rgba8().into_raw();
    assert_eq!(big.to_rgba().data, expected);
}

#[test]
fn demosaic_matches_odd_sized_reference() {
    let src = vec![229, 67, 95, 146, 232, 51, 229, 241, 169];
    let expected: Vec<u8> = vec![
        229, 67, 232, 229, 67, 232, 95, 67, 232, 229, 146, 232, 229, 146, 232, 95, 51, 232, 229,
        241, 232, 229, 241, 232, 169, 241, 232,
    ];
    let mono = MonoFrame::new(3, 3, src).unwrap();
    let rgb = mono.demosaic(CfaPattern::Rggb).unwrap();
    assert_eq!((rgb.width, rgb.height), (3, 3));
    assert_eq!(rgb.data, expected);
}

#[test]
fn demosaic_keeps_dimensions_for_every_pattern() {
    let patterns = [CfaPattern::Rggb, CfaPattern::Grbg, CfaPattern::Bggr, CfaPattern::Gbrg];
    for (w, h) in [(2usize, 2usize), (2, 3), (3, 2), (5, 4), (9, 7)] {
        let pixels: Vec<u8> = (0..w * h).map(|i| (i * 13 % 256) as u8).collect();
        let mono = MonoFrame::new(w, h, pixels).unwrap();
        for p in patterns {
            let rgb = mono.demosaic(p).unwrap();
            assert_eq!((rgb.width, rgb.height), (w, h));
            assert_eq!(rgb.data.len(), w * h * 3);
        }
    }
}

#[test]
fn demosaic_puts_each_site_in_its_own_channel() {
    // 2x2 tile 1 2 / 3 4 under each pattern.
    let mono = MonoFrame::new(2, 2, vec![1, 2, 3, 4]).unwrap();
    let rggb = mono.demosaic(CfaPattern::Rggb).unwrap();
    assert_eq!(rggb.data, vec![1, 2, 4, 1, 2, 4, 1, 3, 4, 1, 3, 4]);
    let bggr = mono.demosaic(CfaPattern::Bggr).unwrap();
    assert_eq!(bggr.data, vec![4, 2, 1, 4, 2, 1, 4, 3, 1, 4, 3, 1]);
    let grbg = mono.demosaic(CfaPattern::Grbg).unwrap();
    assert_eq!(grbg.data, vec![2, 1, 3, 2, 1, 3, 2, 4, 3, 2, 4, 3]);
    let gbrg = mono.demosaic(CfaPattern::Gbrg).unwrap();
    assert_eq!(gbrg.data, vec![3, 1, 2, 3, 1, 2, 3, 4, 2, 3, 4, 2]);
}

#[test]
fn demosaic_refuses_narrow_frames() {
    for (w, h) in [(1usize, 1usize), (1, 6), (6, 1)] {
        let mono = MonoFrame::new(w, h, vec![9; w * h]).unwrap();
        assert_eq!(mono.demosaic(CfaPattern::Gbrg).err(), Some(DecodeError::FrameTooSmall));
    }
}

#[test]
fn padded_rows_are_packed() {
    let plane = StridedPlane {
        width: 2,
        height: 2,
        stride: 8,
        data: vec![1, 2, 3, 4, 5, 6, 0, 0, 7, 8, 9, 10, 11, 12],
    };
    assert!(plane.is_valid());
    let rgb = plane.pack().unwrap();
    assert_eq!((rgb.width, rgb.height), (2, 2));
    assert_eq!(rgb.data, vec![1, 2, 3, 4, 5, 6, 7, 8, 9, 10, 11, 12]);
    let raster = plane.to_raster().unwrap();
    assert_eq!(raster.data, vec![1, 2, 3, 255, 4, 5, 6, 255, 7, 8, 9, 255, 10, 11, 12, 255]);
}

#[test]
fn unpadded_plane_is_copied() {
    let plane = StridedPlane { width: 1, height: 3, stride: 3, data: (1..=9).collect() };
    assert_eq!(plane.pack().unwrap().data, (1..=9).collect::<Vec<u8>>());
}

#[test]
fn short_or_overlapping_planes_are_refused() {
    let short = StridedPlane { width: 2, height: 2, stride: 8, data: vec![0; 13] };
    assert_eq!(short.pack().err(), Some(DecodeError::MalformedBuffer));
    let overlap = StridedPlane { width: 2, height: 2, stride: 5, data: vec![0; 64] };
    assert_eq!(overlap.pack().err(), Some(DecodeError::MalformedBuffer));
    let empty = StridedPlane { width: 0, height: 2, stride: 8, data: vec![0; 64] };
    assert_eq!(empty.to_raster().err(), Some(DecodeError::MalformedBuffer));
    let flat = StridedPlane { width: 2, height: 0, stride: 8, data: vec![0; 64] };
    assert!(!flat.is_valid());
    let huge = StridedPlane { width: u32::MAX, height: u32::MAX, stride: usize::MAX, data: vec![] };
    assert!(!huge.is_valid());
}
