use crate::cfa::{CfaPattern, spec_pattern};
use crate::develop::RasterView;
use crate::error::DecodeError;
use crate::frame::{Orientation, Raster, SensorFrame, SensorView, frame_defect};
use crate::ieee::{sample_from_bits, spec_sample, spec_white_balance, white_balance_from_bits};
use crate::levels::{ChannelLevels, Levels};
use vstd::prelude::*;

verus! {

#[verifier::external_type_specification]
#[verifier::external_body]
pub struct ExRawLoaderError(rawloader::RawLoaderError);

/// The samples of a parsed RAW file, as integers or as the bit patterns of
/// single-precision floats.
#[derive(Debug, PartialEq, Eq)]
pub enum RawSamples {
    Integer(Vec<u16>),
    FloatBits(Vec<u32>),
}

/// What a RAW container holds, as plain values.
#[derive(Debug, PartialEq, Eq)]
pub struct RawParts {
    pub width: usize,
    pub height: usize,
    /// The token of the colour filter array.
    pub cfa_name: String,
    /// Black levels in the order red, green, blue, fourth colour.
    pub black_levels: [u16; 4],
    /// White levels in the same order.
    pub white_levels: [u16; 4],
    /// The bit patterns of the four white-balance coefficients.
    pub gain_bits: [u32; 4],
    /// The orientation as its TIFF tag value.
    pub orientation_code: u16,
    pub samples: RawSamples,
}

/// What `rawloader` makes of the bytes of a file: the parts of the RAW image,
/// or nothing where it does not take the bytes for one.
pub uninterp spec fn rawloader_decode(bytes: Seq<u8>) -> Option<RawParts>;

/// `rawloader::decode` on an in-memory buffer, its `RawImage` taken apart
/// field by field, floats as their bit patterns and the orientation through
/// `Orientation::to_u16`. Trusted: the parts are those named by
/// [`rawloader_decode`].
#[verifier::external_body]
fn parse_raw(buf: &Vec<u8>) -> (r: Result<RawParts, rawloader::RawLoaderError>)
    ensures
        r is Ok <==> rawloader_decode(buf@) is Some,
        r matches Ok(parts) ==> rawloader_decode(buf@) == Some(parts),
{
    let image = rawloader::decode(&mut std::io::Cursor::new(buf))?;
    Ok(RawParts {
        width: image.width,
        height: image.height,
        cfa_name: image.cfa.name,
        black_levels: image.blacklevels,
        white_levels: image.whitelevels,
        gain_bits: image.wb_coeffs.map(|g| g.to_bits()),
        orientation_code: image.orientation.to_u16(),
        samples: match image.data {
            rawloader::RawImageData::Integer(v) => RawSamples::Integer(v),
            rawloader::RawImageData::Float(v) => RawSamples::FloatBits(v.iter().map(|s| s.to_bits()).collect()),
        },
    })
}

/// The rotation that a TIFF orientation value asks for. Mirrored and unknown
/// orientations are left as they are.
pub open spec fn spec_orientation(code: u16) -> Orientation {
    if code == 6 {
        Orientation::Rotate90
    } else if code == 3 {
        Orientation::Rotate180
    } else if code == 8 {
        Orientation::Rotate270
    } else {
        Orientation::Identity
    }
}

/// The rotation that a TIFF orientation value asks for.
pub fn orientation_from_code(code: u16) -> (r: Orientation)
    ensures
        r == spec_orientation(code),
{
    if code == 6 {
        Orientation::Rotate90
    } else if code == 3 {
        Orientation::Rotate180
    } else if code == 8 {
        Orientation::Rotate270
    } else {
        Orientation::Identity
    }
}

/// The levels of the three filter colours, from arrays in the order red,
/// green, blue, fourth colour.
pub open spec fn spec_levels(black: [u16; 4], white: [u16; 4]) -> ChannelLevels {
    ChannelLevels {
        red: Levels { black: black[0], white: white[0] },
        green: Levels { black: black[1], white: white[1] },
        blue: Levels { black: black[2], white: white[2] },
    }
}

/// The levels of the three filter colours.
pub fn levels_from_arrays(black: &[u16; 4], white: &[u16; 4]) -> (r: ChannelLevels)
    ensures
        r == spec_levels(*black, *white),
{
    ChannelLevels {
        red: Levels { black: black[0], white: white[0] },
        green: Levels { black: black[1], white: white[1] },
        blue: Levels { black: black[2], white: white[2] },
    }
}

impl RawSamples {
    /// The samples as 16-bit integers: as they are, or each float scaled by
    /// 65536 and cut to 16 bits.
    pub open spec fn spec_integers(&self) -> Seq<u16> {
        match self {
            RawSamples::Integer(v) => v@,
            RawSamples::FloatBits(b) => Seq::new(b@.len(), |i: int| spec_sample(b@[i]) as u16),
        }
    }

    /// Brings the samples into the one integer domain of the pipeline.
    pub fn into_integers(self) -> (r: Vec<u16>)
        ensures
            r@ == self.spec_integers(),
    {
        match self {
            RawSamples::Integer(v) => v,
            RawSamples::FloatBits(b) => {
                let n = b.len();
                let mut out: Vec<u16> = Vec::with_capacity(n);
                let mut i: usize = 0;
                while i < n
                    invariant
                        n == b@.len(),
                        i <= n,
                        out@.len() == i,
                        forall|k: int| 0 <= k < i ==> out@[k] as int == spec_sample(b@[k]),
                    decreases n - i,
                {
                    out.push(sample_from_bits(b[i]));
                    i += 1;
                }
                assert(out@ =~= Seq::new(b@.len(), |i: int| spec_sample(b@[i]) as u16));
                out
            },
        }
    }
}

impl RawParts {
    /// The frame that the parts describe, or the error with which they are
    /// refused: an unsupported pattern first, then any defect of the frame.
    pub open spec fn spec_frame(&self) -> Result<SensorView, DecodeError> {
        if spec_pattern(self.cfa_name@) is None {
            Err(DecodeError::UnsupportedCfaPattern)
        } else {
            let levels = spec_levels(self.black_levels, self.white_levels);
            let white_balance = spec_white_balance(self.gain_bits);
            let samples = self.samples.spec_integers();
            match frame_defect(
                self.width as int,
                self.height as int,
                samples.len() as int,
                levels,
                white_balance,
            ) {
                Some(e) => Err(e),
                None => Ok(
                    SensorView {
                        width: self.width as int,
                        height: self.height as int,
                        samples,
                        pattern: spec_pattern(self.cfa_name@)->Some_0,
                        levels,
                        white_balance,
                        orientation: spec_orientation(self.orientation_code),
                    },
                ),
            }
        }
    }

    /// Builds the sensor frame that the parts describe.
    pub fn into_frame(self) -> (r: Result<SensorFrame, DecodeError>)
        ensures
            match self.spec_frame() {
                Ok(view) => r matches Ok(frame) && frame.wf() && frame@ == view,
                Err(e) => r matches Err(f) && f == e,
            },
    {
        let pattern = CfaPattern::from_name(self.cfa_name.as_str())?;
        let levels = levels_from_arrays(&self.black_levels, &self.white_levels);
        let white_balance = white_balance_from_bits(self.gain_bits);
        let orientation = orientation_from_code(self.orientation_code);
        let samples = self.samples.into_integers();
        SensorFrame::new(
            self.width,
            self.height,
            samples,
            pattern,
            levels,
            white_balance,
            orientation,
        )
    }
}

/// What decoding a buffer as RAW gives, from what the parser made of it.
pub open spec fn spec_raw_outcome(parsed: Option<RawParts>) -> Result<RasterView, DecodeError> {
    match parsed {
        None => Err(DecodeError::NotThisFormat),
        Some(parts) => match parts.spec_frame() {
            Err(e) => Err(e),
            Ok(view) => view.developed(),
        },
    }
}

/// Develops what the parser made of a buffer: the second half of
/// [`load_image_raw`].
pub fn develop_parsed(parsed: Option<RawParts>) -> (r: Result<Raster, DecodeError>)
    ensures
        match spec_raw_outcome(parsed) {
            Ok(view) => r matches Ok(raster) && raster.wf() && raster@ == view,
            Err(e) => r matches Err(f) && f == e,
        },
{
    match parsed {
        None => Err(DecodeError::NotThisFormat),
        Some(parts) => {
            let frame = parts.into_frame()?;
            frame.develop()
        },
    }
}

/// Decodes a camera RAW file held in memory into an RGBA image.
pub fn load_image_raw(buf: &Vec<u8>) -> (r: Result<Raster, DecodeError>)
    ensures
        match spec_raw_outcome(rawloader_decode(buf@)) {
            Ok(view) => r matches Ok(raster) && raster.wf() && raster@ == view,
            Err(e) => r matches Err(f) && f == e,
        },
{
    match parse_raw(buf) {
        Ok(parts) => develop_parsed(Some(parts)),
        Err(_) => develop_parsed(None),
    }
}

} // verus!
