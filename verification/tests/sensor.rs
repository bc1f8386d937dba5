use aqiv::cfa::{CfaColor, CfaPattern};
use aqiv::error::DecodeError;
use aqiv::frame::{
    dimensions_match, pixel_limit, MonoFrame, Orientation, Raster, RgbFrame, SensorFrame,
    WhiteBalance, MAX_PIXELS,
};
use aqiv::gain::{ChannelGains, Gain, GAIN_NUM_MAX};
use aqiv::levels::{ChannelLevels, Levels};
use aqiv::normalize::site_color;

const PATTERNS: [CfaPattern; 4] =
    [CfaPattern::Rggb, CfaPattern::Grbg, CfaPattern::Bggr, CfaPattern::Gbrg];

fn frame(width: usize, height: usize, samples: Vec<u16>, pattern: CfaPattern) -> SensorFrame {
    SensorFrame::new(
        width,
        height,
        samples,
        pattern,
        ChannelLevels::uniform(0, 255),
        WhiteBalance::Estimate,
        Orientation::Identity,
    )
    .unwrap()
}

#[test]
fn tokens_name_patterns() {
    assert_eq!(CfaPattern::from_name("RGGB"), Ok(CfaPattern::Rggb));
    assert_eq!(CfaPattern::from_name("GRBG"), Ok(CfaPattern::Grbg));
    assert_eq!(CfaPattern::from_name("BGGR"), Ok(CfaPattern::Bggr));
    assert_eq!(CfaPattern::from_name("GBRG"), Ok(CfaPattern::Gbrg));
    for p in PATTERNS {
        assert_eq!(CfaPattern::from_name(p.token()), Ok(p));
    }
}

#[test]
fn other_tokens_are_unsupported() {
    for name in ["", "RGB", "rggb", "RGGBB", "RGBG", "GRGB", "RGEB", " RGGB", "GGGG"] {
        assert_eq!(CfaPattern::from_name(name), Err(DecodeError::UnsupportedCfaPattern));
    }
}

#[test]
#[allow(non_snake_case)]
fn tile_colours_follow_token_order() {
    let (R, G, B) = (CfaColor::Red, CfaColor::Green, CfaColor::Blue);
    let tiles = [
        (CfaPattern::Rggb, [R, G, G, B]),
        (CfaPattern::Grbg, [G, R, B, G]),
        (CfaPattern::Bggr, [B, G, G, R]),
        (CfaPattern::Gbrg, [G, B, R, G]),
    ];
    for (pattern, tile) in tiles {
        for y in 0..6usize {
            for x in 0..6usize {
                assert_eq!(pattern.color_at(x, y), tile[(y % 2) * 2 + x % 2]);
            }
        }
    }
}

#[test]
fn site_colour_goes_row_by_row() {
    // Width 3: index 4 is column 1 of row 1.
    assert_eq!(site_color(CfaPattern::Rggb, 3, 4), CfaColor::Blue);
    assert_eq!(site_color(CfaPattern::Rggb, 3, 3), CfaColor::Green);
    assert_eq!(site_color(CfaPattern::Rggb, 3, 2), CfaColor::Red);
    assert_eq!(site_color(CfaPattern::Gbrg, 3, 6), CfaColor::Green);
}

#[test]
fn colour_channels() {
    assert_eq!(CfaColor::Red.channel(), 0);
    assert_eq!(CfaColor::Green.channel(), 1);
    assert_eq!(CfaColor::Blue.channel(), 2);
}

#[test]
fn intensity_formula() {
    let l = Levels { black: 64, white: 1023 };
    assert!(l.is_valid());
    assert_eq!(l.intensity(0), 0);
    assert_eq!(l.intensity(64), 0);
    assert_eq!(l.intensity(65), 0);
    assert_eq!(l.intensity(68), 1);
    // (512 - 64) * 255 / 959 = 119.12
    assert_eq!(l.intensity(512), 119);
    assert_eq!(l.intensity(1022), 254);
    assert_eq!(l.intensity(1023), 255);
    assert_eq!(l.intensity(65535), 255);
    let full = Levels { black: 0, white: 65535 };
    assert_eq!(full.intensity(65535), 255);
    assert_eq!(full.intensity(65534), 254);
    assert_eq!(full.intensity(257), 1);
    assert_eq!(full.intensity(256), 0);
}

#[test]
fn levels_validity() {
    assert!(!Levels { black: 5, white: 5 }.is_valid());
    assert!(!Levels { black: 6, white: 5 }.is_valid());
    let ok = Levels { black: 0, white: 1 };
    let bad = Levels { black: 1, white: 0 };
    assert!(ChannelLevels { red: ok, green: ok, blue: ok }.is_valid());
    assert!(!ChannelLevels { red: bad, green: ok, blue: ok }.is_valid());
    assert!(!ChannelLevels { red: ok, green: bad, blue: ok }.is_valid());
    assert!(!ChannelLevels { red: ok, green: ok, blue: bad }.is_valid());
    let l = ChannelLevels {
        red: Levels { black: 1, white: 2 },
        green: Levels { black: 3, white: 4 },
        blue: Levels { black: 5, white: 6 },
    };
    assert_eq!(l.of(CfaColor::Red).black, 1);
    assert_eq!(l.of(CfaColor::Green).black, 3);
    assert_eq!(l.of(CfaColor::Blue).black, 5);
}

#[test]
fn normalize_keeps_dimensions_and_uses_levels_of_each_colour() {
    let levels = ChannelLevels {
        red: Levels { black: 0, white: 100 },
        green: Levels { black: 100, white: 200 },
        blue: Levels { black: 0, white: 1000 },
    };
    let f = SensorFrame::new(
        3,
        2,
        vec![50, 150, 100, 100, 500, 250],
        CfaPattern::Rggb,
        levels,
        WhiteBalance::Estimate,
        Orientation::Identity,
    )
    .unwrap();
    let mono = f.normalize();
    assert_eq!((mono.width, mono.height), (3, 2));
    // R G R / G B G
    assert_eq!(mono.pixels, vec![127, 127, 255, 0, 127, 255]);
}

#[test]
fn normalize_has_one_intensity_per_sample() {
    for (w, h) in [(1usize, 1usize), (1, 7), (7, 1), (5, 4), (16, 9)] {
        let samples: Vec<u16> = (0..w * h).map(|i| (i * 4099 % 65536) as u16).collect();
        for p in PATTERNS {
            let f = SensorFrame::new(
                w,
                h,
                samples.clone(),
                p,
                ChannelLevels::uniform(1000, 60000),
                WhiteBalance::Estimate,
                Orientation::Identity,
            )
            .unwrap();
            let mono = f.normalize();
            assert_eq!(mono.pixels.len(), w * h);
            assert_eq!((mono.width, mono.height), (w, h));
        }
    }
}

#[test]
fn frame_defects_in_order() {
    let ok = ChannelLevels::uniform(0, 255);
    let bad = ChannelLevels::uniform(9, 9);
    let new = |w, h, n: usize, l, wb| {
        SensorFrame::new(w, h, vec![0; n], CfaPattern::Rggb, l, wb, Orientation::Identity)
            .map(|_| ())
    };
    assert_eq!(new(0, 2, 0, ok, WhiteBalance::Estimate), Err(DecodeError::MalformedBuffer));
    assert_eq!(new(2, 0, 0, ok, WhiteBalance::Estimate), Err(DecodeError::MalformedBuffer));
    assert_eq!(new(2, 2, 5, bad, WhiteBalance::Estimate), Err(DecodeError::MalformedBuffer));
    assert_eq!(new(usize::MAX, 2, 4, ok, WhiteBalance::Estimate), Err(DecodeError::MalformedBuffer));
    assert_eq!(new(2, 2, 4, bad, WhiteBalance::Estimate), Err(DecodeError::InvalidLevels));
    let mut gains = ChannelGains::unity();
    gains.blue = Gain { num: GAIN_NUM_MAX + 1, den: 1 };
    assert_eq!(new(2, 2, 4, bad, WhiteBalance::Embedded(gains)), Err(DecodeError::InvalidLevels));
    assert_eq!(new(2, 2, 4, ok, WhiteBalance::Embedded(gains)), Err(DecodeError::InvalidGains));
    assert_eq!(new(2, 2, 4, ok, WhiteBalance::Embedded(ChannelGains::unity())), Ok(()));
    assert_eq!(new(1, 1, 1, ok, WhiteBalance::Estimate), Ok(()));
}

#[test]
fn pixel_limit_is_stated() {
    assert_eq!(MAX_PIXELS, 0xFFFF_FFFF);
    assert_eq!(pixel_limit(), std::cmp::min(MAX_PIXELS, usize::MAX / 4));
}

#[test]
fn dimensions_must_multiply_to_count() {
    assert!(dimensions_match(3, 4, 12));
    assert!(!dimensions_match(3, 4, 11));
    assert!(!dimensions_match(0, 4, 0));
    assert!(!dimensions_match(4, 0, 0));
    assert!(!dimensions_match(usize::MAX, usize::MAX, 1));
}

#[test]
fn mono_frame_is_checked() {
    assert!(MonoFrame::new(2, 3, vec![0; 6]).is_ok());
    assert_eq!(MonoFrame::new(2, 3, vec![0; 5]).err(), Some(DecodeError::MalformedBuffer));
    assert_eq!(MonoFrame::new(0, 3, vec![]).err(), Some(DecodeError::MalformedBuffer));
}

#[test]
fn raster_is_checked() {
    assert!(Raster::from_rgba(2, 3, vec![0; 24]).is_ok());
    assert_eq!(Raster::from_rgba(2, 3, vec![0; 23]).err(), Some(DecodeError::MalformedBuffer));
    assert_eq!(Raster::from_rgba(2, 3, vec![0; 25]).err(), Some(DecodeError::MalformedBuffer));
    assert_eq!(Raster::from_rgba(0, 3, vec![]).err(), Some(DecodeError::MalformedBuffer));
    assert_eq!(Raster::from_rgba(3, 0, vec![]).err(), Some(DecodeError::MalformedBuffer));
    assert!(Raster { width: 1, height: 1, data: vec![0; 4] }.is_valid());
    assert!(!Raster { width: 1, height: 1, data: vec![0; 3] }.is_valid());
}

#[test]
fn develop_swaps_dimensions_on_quarter_turns() {
    let samples: Vec<u16> = (0..12).map(|i| i * 20).collect();
    for (o, dims) in [
        (Orientation::Identity, (4, 3)),
        (Orientation::Rotate90, (3, 4)),
        (Orientation::Rotate180, (4, 3)),
        (Orientation::Rotate270, (3, 4)),
    ] {
        for p in PATTERNS {
            let mut f = frame(4, 3, samples.clone(), p);
            f.orientation = o;
            let r = f.develop().unwrap();
            assert_eq!((r.width, r.height), dims);
            assert_eq!(r.data.len(), 48);
            assert!(r.data.chunks(4).all(|px| px[3] == 255));
        }
    }
}

#[test]
fn develop_refuses_frames_below_one_tile() {
    assert_eq!(
        frame(1, 4, vec![1, 2, 3, 4], CfaPattern::Rggb).develop().err(),
        Some(DecodeError::FrameTooSmall)
    );
    assert_eq!(
        frame(1, 1, vec![1], CfaPattern::Bggr).develop().err(),
        Some(DecodeError::FrameTooSmall)
    );
}

#[test]
fn develop_with_embedded_gains_and_rotation() {
    // RGGB 2x2, intensities 10 / 20 / 30 / 40: every pixel is (10, 20, 40)
    // before balance, except that green comes from the left neighbour.
    let gains = ChannelGains {
        red: Gain { num: 2, den: 1 },
        green: Gain { num: 1, den: 2 },
        blue: Gain { num: 10, den: 1 },
        green2: Gain::unity(),
    };
    let f = SensorFrame::new(
        2,
        2,
        vec![10, 20, 30, 40],
        CfaPattern::Rggb,
        ChannelLevels::uniform(0, 255),
        WhiteBalance::Embedded(gains),
        Orientation::Rotate90,
    )
    .unwrap();
    let r = f.develop().unwrap();
    // Demosaiced: (10,20,40) (10,20,40) / (10,30,40) (10,30,40); balanced:
    // (20,10,255) twice, (20,15,255) twice; turned clockwise the bottom row
    // becomes the left column.
    assert_eq!(
        r.data,
        vec![20, 15, 255, 255, 20, 10, 255, 255, 20, 15, 255, 255, 20, 10, 255, 255]
    );
}

#[test]
fn rgb_frame_is_checked() {
    assert!(RgbFrame::new(2, 3, vec![0; 18]).is_ok());
    assert_eq!(RgbFrame::new(2, 3, vec![0; 17]).err(), Some(DecodeError::MalformedBuffer));
    assert_eq!(RgbFrame::new(2, 3, vec![0; 21]).err(), Some(DecodeError::MalformedBuffer));
    assert_eq!(RgbFrame::new(0, 0, vec![]).err(), Some(DecodeError::MalformedBuffer));
}

#[test]
fn intensity_of_single_sites() {
    let levels = ChannelLevels {
        red: Levels { black: 0, white: 100 },
        green: Levels { black: 100, white: 200 },
        blue: Levels { black: 0, white: 1000 },
    };
    let f = SensorFrame::new(
        2,
        2,
        vec![50, 150, 175, 250],
        CfaPattern::Rggb,
        levels,
        WhiteBalance::Estimate,
        Orientation::Identity,
    )
    .unwrap();
    assert_eq!(f.intensity_at(0), 127);
    assert_eq!(f.intensity_at(1), 127);
    assert_eq!(f.intensity_at(2), 191);
    assert_eq!(f.intensity_at(3), 63);
    assert_eq!(f.normalize().pixels, vec![127, 127, 191, 63]);
}
