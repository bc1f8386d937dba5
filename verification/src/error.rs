use vstd::prelude::*;

verus! {

/// Why a decode attempt gave no image.
#[derive(Clone, Copy, Debug, PartialEq, Eq, Structural)]
pub enum DecodeError {
    /// Every candidate decoder refused the buffer.
    NoLoaderSucceeded,
    /// The colour filter array is not one of the four Bayer tiles.
    UnsupportedCfaPattern,
    /// The number of samples or bytes does not match the declared dimensions,
    /// or a dimension is zero.
    MalformedBuffer,
    /// A white level is not above its black level.
    InvalidLevels,
    /// An embedded white-balance gain is out of range.
    InvalidGains,
    /// The frame has more pixels than the pipeline's arithmetic can carry.
    FrameTooLarge,
    /// The frame is narrower or shorter than one tile of the filter array.
    FrameTooSmall,
    /// A decoder refused the buffer as not being in its format.
    NotThisFormat,
    /// The library holds no decoder of the kind that was asked for.
    DecoderUnavailable,
}

impl DecodeError {
    /// A short description for messages.
    pub fn message(&self) -> (r: &'static str)
        ensures
            r@ == Self::spec_message(*self),
    {
        match self {
            DecodeError::NoLoaderSucceeded => "No loaders available",
            DecodeError::UnsupportedCfaPattern => "Unsupported CFA",
            DecodeError::MalformedBuffer => "Sample count does not match the dimensions",
            DecodeError::InvalidLevels => "White level is not above black level",
            DecodeError::InvalidGains => "White-balance gain is out of range",
            DecodeError::FrameTooLarge => "Frame is too large",
            DecodeError::FrameTooSmall => "Frame is smaller than the filter tile",
            DecodeError::NotThisFormat => "Not in this format",
            DecodeError::DecoderUnavailable => "No decoder of this kind",
        }
    }

    /// The text that [`DecodeError::message`] returns.
    pub open spec fn spec_message(e: DecodeError) -> Seq<char> {
        match e {
            DecodeError::NoLoaderSucceeded => "No loaders available"@,
            DecodeError::UnsupportedCfaPattern => "Unsupported CFA"@,
            DecodeError::MalformedBuffer => "Sample count does not match the dimensions"@,
            DecodeError::InvalidLevels => "White level is not above black level"@,
            DecodeError::InvalidGains => "White-balance gain is out of range"@,
            DecodeError::FrameTooLarge => "Frame is too large"@,
            DecodeError::FrameTooSmall => "Frame is smaller than the filter tile"@,
            DecodeError::NotThisFormat => "Not in this format"@,
            DecodeError::DecoderUnavailable => "No decoder of this kind"@,
        }
    }
}

} // verus!
