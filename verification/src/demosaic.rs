use crate::cfa::CfaPattern;
use crate::error::DecodeError;
use crate::frame::{MonoFrame, RgbFrame};
use vstd::prelude::*;

verus! {

#[verifier::external_type_specification]
pub struct ExBayerError(bayer::BayerError);

#[verifier::external_type_specification]
#[verifier::external_body]
pub struct ExIoError(std::io::Error);

/// The RGB triples that `bayer` reconstructs from a mosaic of the given
/// pattern and dimensions by nearest-neighbour interpolation.
pub uninterp spec fn bayer_nearest_neighbour(
    pattern: CfaPattern,
    width: nat,
    height: nat,
    mono: Seq<u8>,
) -> Seq<u8>;

/// `bayer::run_demosaic` at 8 bits with `Demosaic::NearestNeighbour`, reading
/// the mosaic from `mono` and writing RGB triples over `dst`.
///
/// Trusted: the call fails with `WrongResolution` where a dimension is below
/// 2, which is the first test of the algorithm, and succeeds otherwise, since
/// the depths agree and the reader holds one byte for each photosite; on
/// success `dst` holds the triples named by [`bayer_nearest_neighbour`]. The
/// preconditions keep clear of the assertions in `RasterMut::new`.
#[verifier::external_body]
fn run_nearest_neighbour(
    mono: &Vec<u8>,
    pattern: CfaPattern,
    width: usize,
    height: usize,
    dst: &mut Vec<u8>,
) -> (r: Result<(), bayer::BayerError>)
    requires
        width > 0,
        height > 0,
        mono@.len() == width * height,
        old(dst)@.len() == 3 * width * height,
    ensures
        final(dst)@.len() == old(dst)@.len(),
        r is Ok <==> (width >= 2 && height >= 2),
        r is Ok ==> final(dst)@ == bayer_nearest_neighbour(pattern, width as nat, height as nat, mono@),
        r matches Err(e) ==> e is WrongResolution,
{
    let cfa = match pattern {
        CfaPattern::Rggb => bayer::CFA::RGGB,
        CfaPattern::Grbg => bayer::CFA::GRBG,
        CfaPattern::Bggr => bayer::CFA::BGGR,
        CfaPattern::Gbrg => bayer::CFA::GBRG,
    };
    let mut raster = bayer::RasterMut::new(width, height, bayer::RasterDepth::Depth8, dst);
    let mut reader = std::io::Cursor::new(mono);
    bayer::run_demosaic(
        &mut reader,
        bayer::BayerDepth::Depth8,
        cfa,
        bayer::Demosaic::NearestNeighbour,
        &mut raster,
    )
}

/// The error that stands for a failure of the demosaicing call.
pub open spec fn spec_demosaic_error(e: bayer::BayerError) -> DecodeError {
    if e is WrongResolution {
        DecodeError::FrameTooSmall
    } else {
        DecodeError::MalformedBuffer
    }
}

/// Maps a failure of the demosaicing call to an error of this library.
pub fn demosaic_error(e: bayer::BayerError) -> (r: DecodeError)
    ensures
        r == spec_demosaic_error(e),
{
    match e {
        bayer::BayerError::WrongResolution => DecodeError::FrameTooSmall,
        _ => DecodeError::MalformedBuffer,
    }
}

/// The outcome of demosaicing a mosaic of the given dimensions: the
/// reconstructed triples, or the refusal of a frame that is smaller than the
/// filter tile.
pub open spec fn spec_demosaic(
    pattern: CfaPattern,
    width: int,
    height: int,
    pixels: Seq<u8>,
) -> Result<Seq<u8>, DecodeError> {
    if width >= 2 && height >= 2 {
        Ok(bayer_nearest_neighbour(pattern, width as nat, height as nat, pixels))
    } else {
        Err(DecodeError::FrameTooSmall)
    }
}

impl MonoFrame {
    /// Reconstructs an RGB frame of the same dimensions from the mosaic.
    pub fn demosaic(&self, pattern: CfaPattern) -> (r: Result<RgbFrame, DecodeError>)
        requires
            self.wf(),
        ensures
            match spec_demosaic(pattern, self.width as int, self.height as int, self.pixels@) {
                Ok(data) => r matches Ok(rgb) && rgb.wf() && rgb.width == self.width && rgb.height
                    == self.height && rgb.data@ == data,
                Err(e) => r matches Err(f) && f == e,
            },
    {
        let n = self.pixels.len();
        let mut data: Vec<u8> = vec![0u8; 3 * n];
        assert(3 * n == 3 * self.width * self.height) by (nonlinear_arith)
            requires
                n == self.width * self.height,
        ;
        match run_nearest_neighbour(&self.pixels, pattern, self.width, self.height, &mut data) {
            Ok(()) => Ok(RgbFrame { width: self.width, height: self.height, data }),
            Err(e) => Err(demosaic_error(e)),
        }
    }
}

} // verus!
