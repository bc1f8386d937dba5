use vstd::prelude::*;

verus! {

/// Largest numerator of a well-formed gain: 255 times it still fits 128 bits.
pub const GAIN_NUM_MAX: u128 = 0x0101_0101_0101_0101_0101_0101_0101_0101;

/// A non-negative multiplier for one colour channel, held as a fraction.
///
/// A zero denominator stands for the outcome of a division by zero: over a
/// positive numerator the gain is unbounded, over zero it is undefined.
#[derive(Clone, Copy, Debug, PartialEq, Eq, Structural)]
pub struct Gain {
    pub num: u128,
    pub den: u128,
}

impl Gain {
    /// The numerator leaves room for the multiplication by a channel value.
    pub open spec fn wf(&self) -> bool {
        self.num <= GAIN_NUM_MAX
    }

    /// Tells whether the gain is well formed.
    pub fn is_valid(&self) -> (r: bool)
        ensures
            r == self.wf(),
    {
        self.num <= GAIN_NUM_MAX
    }

    /// The gain is exactly one.
    pub open spec fn is_unity(&self) -> bool {
        self.den > 0 && self.num == self.den
    }

    /// The channel value after the gain: the product rounded down and capped
    /// at 255. An unbounded gain saturates every value but 0; an undefined
    /// gain gives 0.
    pub open spec fn spec_scale(&self, channel: u8) -> int {
        if self.den == 0 {
            if self.num > 0 && channel > 0 {
                255
            } else {
                0
            }
        } else {
            let product = (channel * self.num) / (self.den as int);
            if product > 255 {
                255
            } else {
                product
            }
        }
    }

    /// Applies the gain to a channel value.
    pub fn scale(&self, channel: u8) -> (r: u8)
        requires
            self.wf(),
        ensures
            r as int == self.spec_scale(channel),
    {
        if self.den == 0 {
            if self.num > 0 && channel > 0 {
                255
            } else {
                0
            }
        } else {
            assert(channel * self.num <= 255 * GAIN_NUM_MAX) by (nonlinear_arith)
                requires
                    channel <= 255,
                    self.num <= GAIN_NUM_MAX,
            ;
            let product: u128 = (channel as u128) * self.num / self.den;
            if product > 255 {
                255
            } else {
                product as u8
            }
        }
    }

    /// The gain of exactly one.
    pub fn unity() -> (r: Gain)
        ensures
            r == (Gain { num: 1, den: 1 }),
            r.wf(),
            r.is_unity(),
    {
        Gain { num: 1, den: 1 }
    }

    /// A gain from its fraction; `None` where the numerator is too large.
    pub fn new(num: u128, den: u128) -> (r: Option<Gain>)
        ensures
            r is Some <==> num <= GAIN_NUM_MAX,
            r matches Some(g) ==> g == (Gain { num, den }) && g.wf(),
    {
        if num <= GAIN_NUM_MAX {
            Some(Gain { num, den })
        } else {
            None
        }
    }
}

/// Gains for the red, green and blue channels, and for the second green site
/// of the filter tile.
#[derive(Clone, Copy, Debug, PartialEq, Eq, Structural)]
pub struct ChannelGains {
    pub red: Gain,
    pub green: Gain,
    pub blue: Gain,
    pub green2: Gain,
}

impl ChannelGains {
    /// All four gains are well formed.
    pub open spec fn wf(&self) -> bool {
        self.red.wf() && self.green.wf() && self.blue.wf() && self.green2.wf()
    }

    /// Tells whether all four gains are well formed.
    pub fn is_valid(&self) -> (r: bool)
        ensures
            r == self.wf(),
    {
        self.red.is_valid() && self.green.is_valid() && self.blue.is_valid()
            && self.green2.is_valid()
    }

    /// The gain that applies to channel 0, 1 or 2 of an RGB triple.
    pub open spec fn spec_for_channel(&self, channel: int) -> Gain {
        if channel == 0 {
            self.red
        } else if channel == 1 {
            self.green
        } else {
            self.blue
        }
    }

    /// The gain that applies to channel 0, 1 or 2 of an RGB triple.
    pub fn for_channel(&self, channel: usize) -> (r: Gain)
        requires
            channel < 3,
        ensures
            r == self.spec_for_channel(channel as int),
    {
        if channel == 0 {
            self.red
        } else if channel == 1 {
            self.green
        } else {
            self.blue
        }
    }

    /// Gains that change nothing.
    pub fn unity() -> (r: ChannelGains)
        ensures
            r.wf(),
            r.red.is_unity(),
            r.green.is_unity(),
            r.blue.is_unity(),
            r.green2.is_unity(),
    {
        let one = Gain::unity();
        ChannelGains { red: one, green: one, blue: one, green2: one }
    }
}

/// Whatever the gain and the channel value, the result is an 8-bit value.
pub proof fn lemma_scale_in_range(gain: Gain, channel: u8)
    ensures
        0 <= gain.spec_scale(channel) <= 255,
{
    if gain.den != 0 {
        let n = gain.num as int;
        let d = gain.den as int;
        let c = channel as int;
        assert(0 <= (c * n) / d) by (nonlinear_arith)
            requires
                0 <= c,
                0 <= n,
                0 < d,
        ;
    }
}

/// A gain of one changes no channel value.
pub proof fn lemma_unity_keeps(gain: Gain, channel: u8)
    requires
        gain.is_unity(),
    ensures
        gain.spec_scale(channel) == channel,
{
    let d = gain.den as int;
    let c = channel as int;
    assert((c * d) / d == c) by (nonlinear_arith)
        requires
            0 < d,
    ;
}

/// A brighter channel value never comes out darker than a dimmer one.
pub proof fn lemma_scale_monotonic(gain: Gain, a: u8, b: u8)
    requires
        a <= b,
    ensures
        gain.spec_scale(a) <= gain.spec_scale(b),
{
    if gain.den != 0 {
        let n = gain.num as int;
        let d = gain.den as int;
        let x = a as int;
        let y = b as int;
        assert((x * n) / d <= (y * n) / d) by (nonlinear_arith)
            requires
                0 <= x <= y,
                0 <= n,
                0 < d,
        ;
    }
}

} // verus!
