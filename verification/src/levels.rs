use crate::cfa::CfaColor;
use vstd::prelude::*;

verus! {

/// The sensor values that stand for true black and for saturation.
#[derive(Clone, Copy, Debug, PartialEq, Eq, Structural)]
pub struct Levels {
    pub black: u16,
    pub white: u16,
}

impl Levels {
    /// White lies above black.
    pub open spec fn wf(&self) -> bool {
        self.black < self.white
    }

    /// Tells whether white lies above black.
    pub fn is_valid(&self) -> (r: bool)
        ensures
            r == self.wf(),
    {
        self.black < self.white
    }

    /// The 8-bit intensity of a sample: its place between black and white on
    /// a scale of 255, rounded down, and 0 or 255 outside them.
    pub open spec fn spec_intensity(&self, sample: u16) -> int {
        if sample <= self.black {
            0
        } else {
            let scaled = ((sample - self.black) * 255) / (self.white - self.black);
            if scaled > 255 {
                255
            } else {
                scaled
            }
        }
    }

    /// The 8-bit intensity of a sample.
    pub fn intensity(&self, sample: u16) -> (r: u8)
        requires
            self.wf(),
        ensures
            r as int == self.spec_intensity(sample),
    {
        if sample <= self.black {
            0
        } else {
            let span: u32 = (self.white - self.black) as u32;
            let above: u32 = (sample - self.black) as u32;
            let scaled: u32 = above * 255 / span;
            if scaled > 255 {
                255
            } else {
                scaled as u8
            }
        }
    }
}

/// Black and white levels for each colour of the filter array.
#[derive(Clone, Copy, Debug, PartialEq, Eq, Structural)]
pub struct ChannelLevels {
    pub red: Levels,
    pub green: Levels,
    pub blue: Levels,
}

impl ChannelLevels {
    /// Each colour's white lies above its black.
    pub open spec fn wf(&self) -> bool {
        self.red.wf() && self.green.wf() && self.blue.wf()
    }

    /// Tells whether each colour's white lies above its black.
    pub fn is_valid(&self) -> (r: bool)
        ensures
            r == self.wf(),
    {
        self.red.is_valid() && self.green.is_valid() && self.blue.is_valid()
    }

    /// The levels of one colour.
    pub open spec fn spec_of(&self, color: CfaColor) -> Levels {
        match color {
            CfaColor::Red => self.red,
            CfaColor::Green => self.green,
            CfaColor::Blue => self.blue,
        }
    }

    /// The levels of one colour.
    pub fn of(&self, color: CfaColor) -> (r: Levels)
        ensures
            r == self.spec_of(color),
    {
        match color {
            CfaColor::Red => self.red,
            CfaColor::Green => self.green,
            CfaColor::Blue => self.blue,
        }
    }

    /// The same levels for all three colours.
    pub fn uniform(black: u16, white: u16) -> (r: ChannelLevels)
        ensures
            r.red == (Levels { black, white }),
            r.green == r.red,
            r.blue == r.red,
    {
        let l = Levels { black, white };
        ChannelLevels { red: l, green: l, blue: l }
    }
}

/// An intensity is an 8-bit value, whatever the sample and the levels.
pub proof fn lemma_intensity_in_range(levels: Levels, sample: u16)
    requires
        levels.wf(),
    ensures
        0 <= levels.spec_intensity(sample) <= 255,
        sample <= levels.black ==> levels.spec_intensity(sample) == 0,
        sample >= levels.white ==> levels.spec_intensity(sample) == 255,
{
    if sample > levels.black {
        let span = (levels.white - levels.black) as int;
        let above = (sample - levels.black) as int;
        assert(0 <= (above * 255) / span) by (nonlinear_arith)
            requires
                above > 0,
                span > 0,
        ;
        if sample >= levels.white {
            assert((above * 255) / span >= 255) by (nonlinear_arith)
                requires
                    above >= span,
                    span > 0,
            ;
        }
    }
}

/// A brighter sample never gets a lower intensity.
pub proof fn lemma_intensity_monotonic(levels: Levels, a: u16, b: u16)
    requires
        levels.wf(),
        a <= b,
    ensures
        levels.spec_intensity(a) <= levels.spec_intensity(b),
{
    lemma_intensity_in_range(levels, a);
    lemma_intensity_in_range(levels, b);
    if a > levels.black {
        let span = (levels.white - levels.black) as int;
        let x = (a - levels.black) as int;
        let y = (b - levels.black) as int;
        assert((x * 255) / span <= (y * 255) / span) by (nonlinear_arith)
            requires
                0 < x <= y,
                span > 0,
        ;
    }
}

} // verus!
