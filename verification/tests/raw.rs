use aqiv::dispatch::get_image;
use aqiv::error::DecodeError;
use aqiv::frame::{Orientation, WhiteBalance};
use aqiv::raw::{
    develop_parsed, levels_from_arrays, load_image_raw, orientation_from_code, RawParts,
    RawSamples,
};

const NAN_BITS: u32 = 0x7FC0_0000;

fn parts(width: usize, height: usize, name: &str, samples: RawSamples) -> RawParts {
    RawParts {
        width,
        height,
        cfa_name: String::from(name),
        black_levels: [0, 0, 0, 0],
        white_levels: [255, 255, 255, 255],
        gain_bits: [NAN_BITS; 4],
        orientation_code: 1,
        samples,
    }
}

/// Packs eight 12-bit samples the way the ARRI container stores them.
fn pack8(s: [u16; 8]) -> [u8; 12] {
    let mut g = [0u8; 12];
    g[3] = (s[0] >> 4) as u8;
    g[2] = (((s[0] & 0xF) << 4) | (s[1] >> 8)) as u8;
    g[1] = (s[1] & 0xFF) as u8;
    g[0] = (s[2] >> 4) as u8;
    g[7] = (((s[2] & 0xF) << 4) | (s[3] >> 8)) as u8;
    g[6] = (s[3] & 0xFF) as u8;
    g[5] = (s[4] >> 4) as u8;
    g[4] = (((s[4] & 0xF) << 4) | (s[5] >> 8)) as u8;
    g[11] = (s[5] & 0xFF) as u8;
    g[10] = (s[6] >> 4) as u8;
    g[9] = (((s[6] & 0xF) << 4) | (s[7] >> 8)) as u8;
    g[8] = (s[7] & 0xFF) as u8;
    g
}

/// A 4x2 ARRI ALEXA file: RGGB, black 0, white 4095.
fn arri_4x2(samples: [u16; 8], gains: [f32; 3]) -> Vec<u8> {
    let offset: u32 = 4096;
    let mut buf = vec![0u8; offset as usize];
    buf[0..4].copy_from_slice(b"ARRI");
    buf[8..12].copy_from_slice(&offset.to_le_bytes());
    buf[20..24].copy_from_slice(&4u32.to_le_bytes());
    buf[24..28].copy_from_slice(&2u32.to_le_bytes());
    buf[100..104].copy_from_slice(&gains[0].to_le_bytes());
    buf[104..108].copy_from_slice(&gains[1].to_le_bytes());
    buf[108..112].copy_from_slice(&gains[2].to_le_bytes());
    buf[668..673].copy_from_slice(b"ALEXA");
    buf.extend_from_slice(&pack8(samples));
    buf
}

#[test]
fn garbage_is_not_raw() {
    let buf = vec![1u8, 2, 3, 4, 5, 6, 7, 8, 9, 10, 11, 12, 13, 14, 15, 16, 17];
    assert_eq!(load_image_raw(&buf).err(), Some(DecodeError::NotThisFormat));
    assert_eq!(load_image_raw(&Vec::new()).err(), Some(DecodeError::NotThisFormat));
}

#[test]
fn nothing_parsed_is_not_this_format() {
    assert_eq!(develop_parsed(None).err(), Some(DecodeError::NotThisFormat));
}

#[test]
fn arri_file_is_parsed_and_developed() {
    // Red sites 803, green 1606, blue 3212: intensities 50, 100 and 200.
    let buf = arri_4x2([803, 1606, 803, 1606, 1606, 3212, 1606, 3212], [1.0, 1.0, 1.0]);
    let raster = load_image_raw(&buf).unwrap();
    assert_eq!(raster.width, 4);
    assert_eq!(raster.height, 2);
    // The fourth coefficient of the container is NaN, so the gains are
    // estimated: red 2, blue 1/2, and every pixel comes out gray.
    let mut expected = Vec::new();
    for _ in 0..8 {
        expected.extend_from_slice(&[100, 100, 100, 255]);
    }
    assert_eq!(raster.data, expected);
}

#[test]
fn arri_file_wins_dispatch_under_raw_tag() {
    let buf = arri_4x2([4095, 0, 4095, 0, 0, 4095, 0, 4095], [1.0, 1.0, 1.0]);
    let image = get_image(&buf, Some("ari")).unwrap();
    assert_eq!(image.format_label, "raw");
    assert_eq!(image.raster.width, 4);
    assert_eq!(image.raster.height, 2);
    for p in 0..8 {
        assert_eq!(image.raster.data[4 * p + 3], 255);
    }
}

#[test]
fn parts_with_rggb_2x2_develop() {
    let p = parts(2, 2, "RGGB", RawSamples::Integer(vec![10, 200, 200, 10]));
    let raster = develop_parsed(Some(p)).unwrap();
    assert_eq!((raster.width, raster.height), (2, 2));
    assert_eq!(raster.data.len(), 16);
    for px in 0..4 {
        assert_eq!(raster.data[4 * px + 3], 255);
    }
}

#[test]
fn unsupported_cfa_is_refused() {
    let p = parts(2, 2, "RGBE", RawSamples::Integer(vec![1, 2, 3, 4]));
    assert_eq!(develop_parsed(Some(p)).err(), Some(DecodeError::UnsupportedCfaPattern));
    let p = parts(2, 2, "", RawSamples::Integer(vec![1, 2, 3, 4]));
    assert_eq!(p.into_frame().err(), Some(DecodeError::UnsupportedCfaPattern));
    let p = parts(2, 2, "rggb", RawSamples::Integer(vec![1, 2, 3, 4]));
    assert_eq!(p.into_frame().err(), Some(DecodeError::UnsupportedCfaPattern));
}

#[test]
fn unsupported_cfa_is_reported_before_frame_defects() {
    let p = parts(0, 2, "XTRANS", RawSamples::Integer(vec![]));
    assert_eq!(p.into_frame().err(), Some(DecodeError::UnsupportedCfaPattern));
}

#[test]
fn sample_count_mismatch_is_malformed() {
    let p = parts(2, 2, "RGGB", RawSamples::Integer(vec![1, 2, 3]));
    assert_eq!(develop_parsed(Some(p)).err(), Some(DecodeError::MalformedBuffer));
    let p = parts(2, 2, "GBRG", RawSamples::Integer(vec![1, 2, 3, 4, 5]));
    assert_eq!(p.into_frame().err(), Some(DecodeError::MalformedBuffer));
    let p = parts(0, 0, "GBRG", RawSamples::Integer(vec![]));
    assert_eq!(p.into_frame().err(), Some(DecodeError::MalformedBuffer));
}

#[test]
fn white_not_above_black_is_refused() {
    let mut p = parts(2, 2, "RGGB", RawSamples::Integer(vec![1, 2, 3, 4]));
    p.black_levels = [0, 300, 0, 0];
    assert_eq!(p.into_frame().err(), Some(DecodeError::InvalidLevels));
    // The fourth colour plays no part.
    let mut p = parts(2, 2, "RGGB", RawSamples::Integer(vec![1, 2, 3, 4]));
    p.black_levels = [0, 0, 0, 999];
    assert!(p.into_frame().is_ok());
}

#[test]
fn single_row_is_too_small_to_demosaic() {
    let p = parts(4, 1, "RGGB", RawSamples::Integer(vec![1, 2, 3, 4]));
    assert_eq!(develop_parsed(Some(p)).err(), Some(DecodeError::FrameTooSmall));
}

#[test]
fn float_samples_are_scaled_by_65536() {
    let floats = [0.5f32, 0.000_030_517_578, 0.25, 2.0];
    let bits: Vec<u32> = floats.iter().map(|f| f.to_bits()).collect();
    let ints = RawSamples::FloatBits(bits).into_integers();
    assert_eq!(ints, vec![32768, 2, 16384, 65535]);
    let same = RawSamples::Integer(vec![7, 8, 9]).into_integers();
    assert_eq!(same, vec![7, 8, 9]);
}

#[test]
fn float_parts_become_frame() {
    let bits: Vec<u32> = [0.0f32, 0.5, 0.5, 1.0].iter().map(|f| f.to_bits()).collect();
    let mut p = parts(2, 2, "BGGR", RawSamples::FloatBits(bits));
    p.white_levels = [65535; 4];
    p.orientation_code = 6;
    p.gain_bits = [2.0f32.to_bits(), 1.0f32.to_bits(), 1.5f32.to_bits(), 1.0f32.to_bits()];
    let frame = p.into_frame().unwrap();
    assert_eq!(frame.samples, vec![0, 32768, 32768, 65535]);
    assert_eq!(frame.orientation, Orientation::Rotate90);
    match frame.white_balance {
        WhiteBalance::Embedded(g) => {
            assert_eq!(g.red.scale(100), 200);
            assert_eq!(g.green.scale(100), 100);
            assert_eq!(g.blue.scale(100), 150);
        }
        WhiteBalance::Estimate => panic!("four finite gains were embedded"),
    }
}

#[test]
fn one_nan_gain_means_estimate() {
    let mut p = parts(2, 2, "RGGB", RawSamples::Integer(vec![1, 2, 3, 4]));
    p.gain_bits = [2.0f32.to_bits(), 1.0f32.to_bits(), 1.5f32.to_bits(), f32::NAN.to_bits()];
    assert_eq!(p.into_frame().unwrap().white_balance, WhiteBalance::Estimate);
    let mut p = parts(2, 2, "RGGB", RawSamples::Integer(vec![1, 2, 3, 4]));
    p.gain_bits = [f32::INFINITY.to_bits(), 1.0f32.to_bits(), 1.5f32.to_bits(), 1.0f32.to_bits()];
    assert_eq!(p.into_frame().unwrap().white_balance, WhiteBalance::Estimate);
}

#[test]
fn orientation_codes() {
    assert_eq!(orientation_from_code(6), Orientation::Rotate90);
    assert_eq!(orientation_from_code(3), Orientation::Rotate180);
    assert_eq!(orientation_from_code(8), Orientation::Rotate270);
    for code in [0u16, 1, 2, 4, 5, 7, 9, 65535] {
        assert_eq!(orientation_from_code(code), Orientation::Identity);
    }
}

#[test]
fn levels_come_from_first_three_entries() {
    let l = levels_from_arrays(&[1, 2, 3, 4], &[10, 20, 30, 40]);
    assert_eq!((l.red.black, l.red.white), (1, 10));
    assert_eq!((l.green.black, l.green.white), (2, 20));
    assert_eq!((l.blue.black, l.blue.white), (3, 30));
}

#[test]
fn arri_file_is_developed_behind_an_unavailable_decoder() {
    let buf = arri_4x2([803, 1606, 803, 1606, 1606, 3212, 1606, 3212], [1.0, 1.0, 1.0]);
    let alone = load_image_raw(&buf).unwrap();
    for ext in ["heif", "jxl", "raw", "cr2"] {
        let image = get_image(&buf, Some(ext)).unwrap();
        assert_eq!(image.format_label, "raw");
        assert_eq!(image.raster, alone);
    }
}
