use crate::cfa::CfaPattern;
use crate::error::DecodeError;
use crate::gain::ChannelGains;
use crate::levels::ChannelLevels;
use vstd::prelude::*;

verus! {

/// The most pixels a frame may have, so that sums over a frame fit 64 bits
/// and both dimensions fit 32.
pub const MAX_PIXELS: usize = 0xFFFF_FFFF;

/// The most pixels a frame may have on this machine: [`MAX_PIXELS`], or less
/// where four bytes per pixel would not fit an address.
pub open spec fn spec_pixel_limit() -> int {
    if usize::MAX / 4 < MAX_PIXELS {
        (usize::MAX / 4) as int
    } else {
        MAX_PIXELS as int
    }
}

/// The most pixels a frame may have on this machine.
pub fn pixel_limit() -> (r: usize)
    ensures
        r == spec_pixel_limit(),
{
    if usize::MAX / 4 < MAX_PIXELS {
        usize::MAX / 4
    } else {
        MAX_PIXELS
    }
}

/// Dimensions and a length that belong together: both dimensions positive,
/// `per_pixel` entries for each pixel, and no more pixels than the limit.
pub open spec fn fits(width: int, height: int, len: int, per_pixel: int) -> bool {
    &&& width > 0
    &&& height > 0
    &&& width * height <= spec_pixel_limit()
    &&& len == width * height * per_pixel
}

/// The rotation that brings a frame upright.
#[derive(Clone, Copy, Debug, PartialEq, Eq, Structural)]
pub enum Orientation {
    Identity,
    Rotate90,
    Rotate180,
    Rotate270,
}

/// Where the white-balance gains of a frame come from.
#[derive(Clone, Copy, Debug, PartialEq, Eq, Structural)]
pub enum WhiteBalance {
    /// The file carried these gains.
    Embedded(ChannelGains),
    /// The gains are to be estimated from the frame itself.
    Estimate,
}

impl WhiteBalance {
    /// Embedded gains are well formed.
    pub open spec fn wf(&self) -> bool {
        match self {
            WhiteBalance::Embedded(gains) => gains.wf(),
            WhiteBalance::Estimate => true,
        }
    }

    /// Tells whether embedded gains are well formed.
    pub fn is_valid(&self) -> (r: bool)
        ensures
            r == self.wf(),
    {
        match self {
            WhiteBalance::Embedded(gains) => gains.is_valid(),
            WhiteBalance::Estimate => true,
        }
    }
}

/// Raw sensor data as parsed from a file, with what is needed to develop it.
#[derive(Debug, PartialEq, Eq)]
pub struct SensorFrame {
    pub width: usize,
    pub height: usize,
    /// One sample per photosite, row by row.
    pub samples: Vec<u16>,
    pub pattern: CfaPattern,
    pub levels: ChannelLevels,
    pub white_balance: WhiteBalance,
    pub orientation: Orientation,
}

/// The mathematical content of a sensor frame.
pub struct SensorView {
    pub width: int,
    pub height: int,
    pub samples: Seq<u16>,
    pub pattern: CfaPattern,
    pub levels: ChannelLevels,
    pub white_balance: WhiteBalance,
    pub orientation: Orientation,
}

impl View for SensorFrame {
    type V = SensorView;

    open spec fn view(&self) -> SensorView {
        SensorView {
            width: self.width as int,
            height: self.height as int,
            samples: self.samples@,
            pattern: self.pattern,
            levels: self.levels,
            white_balance: self.white_balance,
            orientation: self.orientation,
        }
    }
}

/// The error, if any, with which a buffer of one entry per pixel is refused
/// for these dimensions: it is malformed where a dimension is zero or the
/// count is not their product, and too large above the pixel limit.
pub open spec fn buffer_defect(width: int, height: int, count: int) -> Option<DecodeError> {
    if width <= 0 || height <= 0 || width * height != count {
        Some(DecodeError::MalformedBuffer)
    } else if count > spec_pixel_limit() {
        Some(DecodeError::FrameTooLarge)
    } else {
        None
    }
}

/// The error, if any, with which a sensor frame of these parts is refused: a
/// defect of the buffer first, then levels whose white is not above black,
/// then embedded gains that are out of range.
pub open spec fn frame_defect(
    width: int,
    height: int,
    sample_count: int,
    levels: ChannelLevels,
    white_balance: WhiteBalance,
) -> Option<DecodeError> {
    if buffer_defect(width, height, sample_count) is Some {
        buffer_defect(width, height, sample_count)
    } else if !levels.wf() {
        Some(DecodeError::InvalidLevels)
    } else if !white_balance.wf() {
        Some(DecodeError::InvalidGains)
    } else {
        None
    }
}

impl SensorFrame {
    /// One sample per pixel, positive dimensions within the limit, white
    /// levels above black levels, gains well formed.
    pub open spec fn wf(&self) -> bool {
        &&& fits(self.width as int, self.height as int, self.samples@.len() as int, 1)
        &&& self.levels.wf()
        &&& self.white_balance.wf()
    }

    /// Puts a frame together, or says what is wrong with its parts.
    pub fn new(
        width: usize,
        height: usize,
        samples: Vec<u16>,
        pattern: CfaPattern,
        levels: ChannelLevels,
        white_balance: WhiteBalance,
        orientation: Orientation,
    ) -> (r: Result<SensorFrame, DecodeError>)
        ensures
            match frame_defect(
                width as int,
                height as int,
                samples@.len() as int,
                levels,
                white_balance,
            ) {
                Some(e) => r == Err::<SensorFrame, DecodeError>(e),
                None => r matches Ok(f) && f.wf() && f == (SensorFrame {
                    width,
                    height,
                    samples,
                    pattern,
                    levels,
                    white_balance,
                    orientation,
                }),
            },
    {
        if !dimensions_match(width, height, samples.len()) {
            return Err(DecodeError::MalformedBuffer);
        }
        if samples.len() > pixel_limit() {
            return Err(DecodeError::FrameTooLarge);
        }
        if !levels.is_valid() {
            return Err(DecodeError::InvalidLevels);
        }
        if !white_balance.is_valid() {
            return Err(DecodeError::InvalidGains);
        }
        Ok(SensorFrame { width, height, samples, pattern, levels, white_balance, orientation })
    }
}

/// Tells whether both dimensions are positive and their product is `count`.
pub fn dimensions_match(width: usize, height: usize, count: usize) -> (r: bool)
    ensures
        r == (width > 0 && height > 0 && width * height == count),
{
    if width == 0 || height == 0 {
        return false;
    }
    match width.checked_mul(height) {
        Some(product) => product == count,
        None => false,
    }
}

/// One 8-bit linear intensity per photosite, row by row.
#[derive(Debug, PartialEq, Eq)]
pub struct MonoFrame {
    pub width: usize,
    pub height: usize,
    pub pixels: Vec<u8>,
}

impl MonoFrame {
    /// One intensity per pixel, positive dimensions within the limit.
    pub open spec fn wf(&self) -> bool {
        fits(self.width as int, self.height as int, self.pixels@.len() as int, 1)
    }

    /// Puts a frame together, or says what is wrong with its parts.
    pub fn new(width: usize, height: usize, pixels: Vec<u8>) -> (r: Result<MonoFrame, DecodeError>)
        ensures
            match buffer_defect(width as int, height as int, pixels@.len() as int) {
                Some(e) => r == Err::<MonoFrame, DecodeError>(e),
                None => r matches Ok(f) && f.wf() && f == (MonoFrame { width, height, pixels }),
            },
    {
        if !dimensions_match(width, height, pixels.len()) {
            return Err(DecodeError::MalformedBuffer);
        }
        if pixels.len() > pixel_limit() {
            return Err(DecodeError::FrameTooLarge);
        }
        Ok(MonoFrame { width, height, pixels })
    }
}

/// Interleaved 8-bit RGB triples, row by row.
#[derive(Debug, PartialEq, Eq)]
pub struct RgbFrame {
    pub width: usize,
    pub height: usize,
    pub data: Vec<u8>,
}

impl RgbFrame {
    /// Three bytes per pixel, positive dimensions within the limit.
    pub open spec fn wf(&self) -> bool {
        fits(self.width as int, self.height as int, self.data@.len() as int, 3)
    }

    /// Puts a frame together, or says what is wrong with its parts: it is
    /// malformed where a dimension is zero or there are not three bytes for
    /// each pixel, and too large above the pixel limit.
    pub fn new(width: usize, height: usize, data: Vec<u8>) -> (r: Result<RgbFrame, DecodeError>)
        ensures
            match if data@.len() % 3 != 0 {
                Some(DecodeError::MalformedBuffer)
            } else {
                buffer_defect(width as int, height as int, data@.len() as int / 3)
            } {
                Some(e) => r == Err::<RgbFrame, DecodeError>(e),
                None => r matches Ok(f) && f.wf() && f == (RgbFrame { width, height, data }),
            },
    {
        if data.len() % 3 != 0 || !dimensions_match(width, height, data.len() / 3) {
            return Err(DecodeError::MalformedBuffer);
        }
        if data.len() / 3 > pixel_limit() {
            return Err(DecodeError::FrameTooLarge);
        }
        Ok(RgbFrame { width, height, data })
    }
}

/// A decoded image: interleaved 8-bit RGBA, row by row.
#[derive(Debug, PartialEq, Eq)]
pub struct Raster {
    pub width: u32,
    pub height: u32,
    pub data: Vec<u8>,
}

impl Raster {
    /// Four bytes per pixel and positive dimensions.
    pub open spec fn wf(&self) -> bool {
        &&& self.width > 0
        &&& self.height > 0
        &&& self.data@.len() == self.width * self.height * 4
    }

    /// Tells whether the raster is well formed.
    pub fn is_valid(&self) -> (r: bool)
        ensures
            r == self.wf(),
    {
        if self.width == 0 || self.height == 0 {
            return false;
        }
        assert(self.width * self.height <= u32::MAX * u32::MAX) by (nonlinear_arith)
            requires
                self.width <= u32::MAX,
                self.height <= u32::MAX,
        ;
        let pixels: u64 = (self.width as u64) * (self.height as u64);
        let len: u64 = self.data.len() as u64;
        len % 4 == 0 && len / 4 == pixels
    }

    /// Takes RGBA bytes with their dimensions, if they belong together.
    pub fn from_rgba(width: u32, height: u32, data: Vec<u8>) -> (r: Result<Raster, DecodeError>)
        ensures
            r is Ok <==> width > 0 && height > 0 && data@.len() == width * height * 4,
            r matches Ok(raster) ==> raster == (Raster { width, height, data }) && raster.wf(),
            r matches Err(e) ==> e == DecodeError::MalformedBuffer,
    {
        if width == 0 || height == 0 {
            return Err(DecodeError::MalformedBuffer);
        }
        assert(width * height <= u32::MAX * u32::MAX) by (nonlinear_arith)
            requires
                width <= u32::MAX,
                height <= u32::MAX,
        ;
        let pixels: u64 = (width as u64) * (height as u64);
        let len: u64 = data.len() as u64;
        if len % 4 != 0 || len / 4 != pixels {
            return Err(DecodeError::MalformedBuffer);
        }
        Ok(Raster { width, height, data })
    }
}

} // verus!
