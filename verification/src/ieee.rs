use crate::frame::WhiteBalance;
use crate::gain::{ChannelGains, Gain};
use vstd::arithmetic::power2::{
    lemma2_to64, lemma_pow2_pos, lemma_pow2_strictly_increases, lemma_pow2_unfold, pow2,
};
use vstd::prelude::*;

verus! {

/// Number of fraction bits in a single-precision bit pattern.
pub const FRACTION_BITS: u32 = 23;

/// Two to the power of [`FRACTION_BITS`]: the hidden bit of a normal number.
pub const HIDDEN_BIT: u32 = 0x0080_0000;

/// The sign bit of a single-precision bit pattern.
pub const SIGN_BIT: u32 = 0x8000_0000;

/// The factor by which float samples are scaled is two to this power. The
/// factor is taken as given; whether it suits every sensor encoding is open.
pub const SAMPLE_SHIFT: u32 = 16;

/// The sign bit is set.
pub open spec fn spec_is_negative(bits: u32) -> bool {
    bits >= SIGN_BIT
}

/// The biased exponent field.
pub open spec fn spec_exponent(bits: u32) -> int {
    (bits / HIDDEN_BIT) as int % 256
}

/// The fraction field.
pub open spec fn spec_fraction(bits: u32) -> int {
    (bits % HIDDEN_BIT) as int
}

/// The pattern is a NaN.
pub open spec fn spec_is_nan(bits: u32) -> bool {
    spec_exponent(bits) == 255 && spec_fraction(bits) != 0
}

/// The pattern is neither a NaN nor an infinity.
pub open spec fn spec_is_finite(bits: u32) -> bool {
    spec_exponent(bits) != 255
}

/// The integer significand of a finite pattern: the fraction, with the
/// hidden bit on top for a normal number.
pub open spec fn spec_significand(bits: u32) -> int {
    if spec_exponent(bits) == 0 {
        spec_fraction(bits)
    } else {
        spec_fraction(bits) + HIDDEN_BIT
    }
}

/// The power of two that the significand of a finite pattern is multiplied
/// by: the magnitude is `spec_significand * 2^spec_power`.
pub open spec fn spec_power(bits: u32) -> int {
    if spec_exponent(bits) == 0 {
        -149
    } else {
        spec_exponent(bits) - 150
    }
}

/// `m * 2^e`, rounded down to an integer.
pub open spec fn shifted(m: int, e: int) -> int {
    if e >= 0 {
        m * pow2(e as nat)
    } else {
        m / (pow2((-e) as nat) as int)
    }
}

/// The sample that a float stands for: its value times 65536, rounded
/// towards zero and held within 16 bits. A NaN gives 0.
pub open spec fn spec_sample(bits: u32) -> int {
    if spec_is_negative(bits) || spec_is_nan(bits) {
        0
    } else if !spec_is_finite(bits) {
        0xFFFF
    } else {
        let scaled = shifted(spec_significand(bits), spec_power(bits) + SAMPLE_SHIFT);
        if scaled > 0xFFFF {
            0xFFFF
        } else {
            scaled
        }
    }
}

/// Two to the power of `e`.
pub fn power_of_two(e: u32) -> (r: u64)
    requires
        e < 64,
    ensures
        r == pow2(e as nat),
        r > 0,
{
    let mut r: u64 = 1;
    let mut i: u32 = 0;
    proof {
        lemma2_to64();
    }
    while i < e
        invariant
            i <= e < 64,
            r == pow2(i as nat),
            r > 0,
        decreases e - i,
    {
        proof {
            lemma_pow2_unfold((i + 1) as nat);
            lemma_pow2_strictly_increases((i + 1) as nat, 64);
            lemma2_to64_top();
        }
        r = r * 2;
        i += 1;
    }
    r
}

proof fn lemma2_to64_top()
    ensures
        pow2(64) == 0x1_0000_0000_0000_0000,
{
    vstd::arithmetic::power2::lemma2_to64_rest();
}

/// The biased exponent field of a bit pattern.
pub fn exponent_of(bits: u32) -> (r: u32)
    ensures
        r == spec_exponent(bits),
        r < 256,
{
    (bits / HIDDEN_BIT) % 256
}

/// The significand of a bit pattern.
pub fn significand_of(bits: u32) -> (r: u32)
    ensures
        r == spec_significand(bits),
        r < 2 * HIDDEN_BIT,
        spec_exponent(bits) != 0 ==> r >= HIDDEN_BIT,
{
    if exponent_of(bits) == 0 {
        bits % HIDDEN_BIT
    } else {
        bits % HIDDEN_BIT + HIDDEN_BIT
    }
}

/// Converts a float sample, given by its bit pattern, to a 16-bit sample.
pub fn sample_from_bits(bits: u32) -> (r: u16)
    ensures
        r as int == spec_sample(bits),
{
    let e = exponent_of(bits);
    if bits >= SIGN_BIT {
        return 0;
    }
    if e == 255 {
        return if bits % HIDDEN_BIT != 0 {
            0
        } else {
            0xFFFF
        };
    }
    let m = significand_of(bits);
    // The value times 65536 is m * 2^(e - 134), with e at least 1.
    let biased: u32 = if e == 0 {
        1
    } else {
        e
    };
    assert(spec_power(bits) + SAMPLE_SHIFT == biased - 134);
    if biased >= 134 {
        proof {
            lemma_pow2_pos((biased - 134) as nat);
            let mi = m as int;
            let f = pow2((biased - 134) as nat) as int;
            assert(mi * f >= mi) by (nonlinear_arith)
                requires
                    f >= 1,
                    mi >= 0,
            ;
        }
        0xFFFF
    } else {
        let down: u32 = 134 - biased;
        if down >= 24 {
            proof {
                lemma2_to64();
                if down > 24 {
                    lemma_pow2_strictly_increases(24, down as nat);
                }
                let mi = m as int;
                let d = pow2(down as nat) as int;
                assert(mi / d == 0) by (nonlinear_arith)
                    requires
                        0 <= mi < 0x100_0000,
                        d >= 0x100_0000,
                ;
            }
            0
        } else {
            let scaled: u64 = (m as u64) / power_of_two(down);
            if scaled > 0xFFFF {
                0xFFFF
            } else {
                scaled as u16
            }
        }
    }
}

/// The gain that a float stands for.
///
/// A finite value of at least 2^-9 and below 256 is held exactly. Smaller
/// ones and negative ones are held as 0, larger ones as 256: on an 8-bit
/// channel they act alike. Positive infinity is the unbounded gain and a NaN
/// the undefined one.
pub open spec fn spec_gain(bits: u32) -> Gain {
    if spec_is_nan(bits) {
        Gain { num: 0, den: 0 }
    } else if spec_is_negative(bits) || spec_significand(bits) == 0 {
        Gain { num: 0, den: 1 }
    } else if !spec_is_finite(bits) {
        Gain { num: 1, den: 0 }
    } else if spec_power(bits) >= -15 {
        Gain { num: 256, den: 1 }
    } else if spec_power(bits) < -32 {
        Gain { num: 0, den: 1 }
    } else {
        Gain {
            num: spec_significand(bits) as u128,
            den: pow2((-spec_power(bits)) as nat) as u128,
        }
    }
}

/// Converts a float gain, given by its bit pattern, to a fraction.
pub fn gain_from_bits(bits: u32) -> (r: Gain)
    ensures
        r == spec_gain(bits),
        r.wf(),
{
    let e = exponent_of(bits);
    if e == 255 {
        return if bits % HIDDEN_BIT != 0 {
            Gain { num: 0, den: 0 }
        } else if bits >= SIGN_BIT {
            Gain { num: 0, den: 1 }
        } else {
            Gain { num: 1, den: 0 }
        };
    }
    let m = significand_of(bits);
    if bits >= SIGN_BIT || m == 0 {
        return Gain { num: 0, den: 1 };
    }
    if e >= 135 {
        return Gain { num: 256, den: 1 };
    }
    if e < 118 {
        return Gain { num: 0, den: 1 };
    }
    Gain { num: m as u128, den: power_of_two(150 - e) as u128 }
}

/// On every 8-bit channel value the fraction of a finite float that is not
/// negative gives the exact product of the value and the float's magnitude,
/// rounded down and capped at 255. A product formed in single precision is
/// rounded first and can come out one higher.
pub proof fn lemma_gain_acts_as_float(bits: u32, channel: u8)
    requires
        spec_is_finite(bits),
        !spec_is_negative(bits),
    ensures
        spec_gain(bits).spec_scale(channel) == if shifted(
            channel * spec_significand(bits),
            spec_power(bits),
        ) > 255 {
            255
        } else {
            shifted(channel * spec_significand(bits), spec_power(bits))
        },
{
    let m = spec_significand(bits);
    let pw = spec_power(bits);
    let c = channel as int;
    let g = spec_gain(bits);
    let exact = shifted(c * m, pw);
    lemma2_to64();
    vstd::arithmetic::power2::lemma2_to64_rest();
    assert(0 <= m < 0x100_0000);
    assert(0 <= c * m <= 255 * m) by (nonlinear_arith)
        requires
            0 <= c <= 255,
            0 <= m,
    ;
    if m == 0 || c == 0 {
        assert(c * m == 0) by (nonlinear_arith)
            requires
                m == 0 || c == 0,
        ;
        if pw < 0 {
            lemma_pow2_pos((-pw) as nat);
            let d = pow2((-pw) as nat) as int;
            assert(0int / d == 0) by (nonlinear_arith)
                requires
                    d > 0,
            ;
        } else {
            let f = pow2(pw as nat) as int;
            assert(0int * f == 0) by (nonlinear_arith);
        }
        assert(exact == 0);
        if g.den != 0 {
            let n = g.num as int;
            let d = g.den as int;
            assert((c * n) / d == 0) by (nonlinear_arith)
                requires
                    c == 0 || n == 0,
                    d > 0,
            ;
        }
    } else if pw >= -15 {
        assert(m >= 0x80_0000);
        assert(c * m >= 0x80_0000) by (nonlinear_arith)
            requires
                c >= 1,
                m >= 0x80_0000,
        ;
        if pw >= 0 {
            lemma_pow2_pos(pw as nat);
            let f = pow2(pw as nat) as int;
            assert((c * m) * f >= 0x80_0000) by (nonlinear_arith)
                requires
                    c * m >= 0x80_0000,
                    f >= 1,
            ;
        } else {
            if -pw < 15 {
                lemma_pow2_strictly_increases((-pw) as nat, 15);
            }
            lemma_pow2_pos((-pw) as nat);
            let d = pow2((-pw) as nat) as int;
            assert((c * m) / d >= 256) by (nonlinear_arith)
                requires
                    c * m >= 0x80_0000,
                    0 < d <= 0x8000,
            ;
        }
        assert(exact >= 256);
        assert(g == Gain { num: 256, den: 1 });
        assert((c * 256) / 1 >= 256);
    } else if pw < -32 {
        if -pw > 33 {
            lemma_pow2_strictly_increases(33, (-pw) as nat);
        }
        let d = pow2((-pw) as nat) as int;
        assert((c * m) / d == 0) by (nonlinear_arith)
            requires
                0 <= c * m < 0x1_0000_0000,
                d >= 0x2_0000_0000,
        ;
        assert(g == Gain { num: 0, den: 1 });
        assert((c * 0) / 1 == 0);
    } else {
        lemma_pow2_strictly_increases((-pw) as nat, 33);
        lemma_pow2_pos((-pw) as nat);
        assert(g.num == m && g.den == pow2((-pw) as nat));
    }
}

/// The white balance that four float gains stand for: they are used where
/// all four are finite, and otherwise the gains are to be estimated.
pub open spec fn spec_white_balance(bits: [u32; 4]) -> WhiteBalance {
    if spec_is_finite(bits[0]) && spec_is_finite(bits[1]) && spec_is_finite(bits[2])
        && spec_is_finite(bits[3]) {
        WhiteBalance::Embedded(
            ChannelGains {
                red: spec_gain(bits[0]),
                green: spec_gain(bits[1]),
                blue: spec_gain(bits[2]),
                green2: spec_gain(bits[3]),
            },
        )
    } else {
        WhiteBalance::Estimate
    }
}

/// Decides once where the gains of a frame come from.
pub fn white_balance_from_bits(bits: [u32; 4]) -> (r: WhiteBalance)
    ensures
        r == spec_white_balance(bits),
        r.wf(),
{
    if exponent_of(bits[0]) != 255 && exponent_of(bits[1]) != 255 && exponent_of(bits[2]) != 255
        && exponent_of(bits[3]) != 255 {
        WhiteBalance::Embedded(
            ChannelGains {
                red: gain_from_bits(bits[0]),
                green: gain_from_bits(bits[1]),
                blue: gain_from_bits(bits[2]),
                green2: gain_from_bits(bits[3]),
            },
        )
    } else {
        WhiteBalance::Estimate
    }
}

} // verus!
