use crate::cfa::{CfaColor, CfaPattern};
use crate::frame::{MonoFrame, RgbFrame};
use crate::gain::{ChannelGains, Gain, lemma_scale_in_range};
use crate::normalize::{site_color, spec_site_color};
use vstd::prelude::*;

verus! {

/// The sum of the intensities under one filter colour, over the photosites
/// with indices from `lo` up to but not including `hi`.
pub open spec fn range_sum(
    pixels: Seq<u8>,
    pattern: CfaPattern,
    width: int,
    color: CfaColor,
    lo: int,
    hi: int,
) -> int
    decreases hi - lo,
{
    if hi <= lo {
        0
    } else {
        range_sum(pixels, pattern, width, color, lo, hi - 1) + if spec_site_color(
            pattern,
            width,
            hi - 1,
        ) == color {
            pixels[hi - 1] as int
        } else {
            0
        }
    }
}

/// The number of photosites under one filter colour, among those with
/// indices from `lo` up to but not including `hi`.
pub open spec fn range_count(
    pattern: CfaPattern,
    width: int,
    color: CfaColor,
    lo: int,
    hi: int,
) -> int
    decreases hi - lo,
{
    if hi <= lo {
        0
    } else {
        range_count(pattern, width, color, lo, hi - 1) + if spec_site_color(pattern, width, hi - 1)
            == color {
            1int
        } else {
            0
        }
    }
}

/// Largest value of a field of a well-formed tally.
pub const TALLY_MAX: u64 = 0x00FF_FFFF_FFFF_FFFF;

/// Sums and counts of intensities by filter colour: a partial result of the
/// gray-world estimate that can be merged with others by addition.
#[derive(Clone, Copy, Debug, PartialEq, Eq, Structural)]
pub struct Tally {
    pub red_sum: u64,
    pub green_sum: u64,
    pub blue_sum: u64,
    pub red_count: u64,
    pub green_count: u64,
    pub blue_count: u64,
}

impl Tally {
    /// Every field leaves room for a merge and for the products of the gains.
    pub open spec fn wf(&self) -> bool {
        &&& self.red_sum <= TALLY_MAX
        &&& self.green_sum <= TALLY_MAX
        &&& self.blue_sum <= TALLY_MAX
        &&& self.red_count <= TALLY_MAX
        &&& self.green_count <= TALLY_MAX
        &&& self.blue_count <= TALLY_MAX
    }

    /// The tally covers exactly the photosites from `lo` up to `hi`.
    pub open spec fn covers(
        &self,
        pixels: Seq<u8>,
        pattern: CfaPattern,
        width: int,
        lo: int,
        hi: int,
    ) -> bool {
        &&& self.red_sum == range_sum(pixels, pattern, width, CfaColor::Red, lo, hi)
        &&& self.green_sum == range_sum(pixels, pattern, width, CfaColor::Green, lo, hi)
        &&& self.blue_sum == range_sum(pixels, pattern, width, CfaColor::Blue, lo, hi)
        &&& self.red_count == range_count(pattern, width, CfaColor::Red, lo, hi)
        &&& self.green_count == range_count(pattern, width, CfaColor::Green, lo, hi)
        &&& self.blue_count == range_count(pattern, width, CfaColor::Blue, lo, hi)
    }

    /// The tally of no photosite.
    pub fn zero() -> (r: Tally)
        ensures
            r == (Tally {
                red_sum: 0,
                green_sum: 0,
                blue_sum: 0,
                red_count: 0,
                green_count: 0,
                blue_count: 0,
            }),
            r.wf(),
    {
        Tally {
            red_sum: 0,
            green_sum: 0,
            blue_sum: 0,
            red_count: 0,
            green_count: 0,
            blue_count: 0,
        }
    }

    /// Field by field, the sum of two tallies.
    pub open spec fn spec_merge(self, other: Tally) -> Tally {
        Tally {
            red_sum: (self.red_sum + other.red_sum) as u64,
            green_sum: (self.green_sum + other.green_sum) as u64,
            blue_sum: (self.blue_sum + other.blue_sum) as u64,
            red_count: (self.red_count + other.red_count) as u64,
            green_count: (self.green_count + other.green_count) as u64,
            blue_count: (self.blue_count + other.blue_count) as u64,
        }
    }

    /// Combines two partial tallies by addition.
    pub fn merge(self, other: Tally) -> (r: Tally)
        requires
            self.wf(),
            other.wf(),
        ensures
            r == self.spec_merge(other),
            r.red_sum == self.red_sum + other.red_sum,
            r.green_sum == self.green_sum + other.green_sum,
            r.blue_sum == self.blue_sum + other.blue_sum,
            r.red_count == self.red_count + other.red_count,
            r.green_count == self.green_count + other.green_count,
            r.blue_count == self.blue_count + other.blue_count,
    {
        Tally {
            red_sum: self.red_sum + other.red_sum,
            green_sum: self.green_sum + other.green_sum,
            blue_sum: self.blue_sum + other.blue_sum,
            red_count: self.red_count + other.red_count,
            green_count: self.green_count + other.green_count,
            blue_count: self.blue_count + other.blue_count,
        }
    }

    /// The gray-world gains of a tally: red and blue are scaled so that their
    /// averages meet the green average, and green stays as it is.
    pub open spec fn spec_gains(&self) -> ChannelGains {
        ChannelGains {
            red: Gain {
                num: (self.green_sum * self.red_count) as u128,
                den: (self.green_count * self.red_sum) as u128,
            },
            green: Gain { num: 1, den: 1 },
            blue: Gain {
                num: (self.green_sum * self.blue_count) as u128,
                den: (self.green_count * self.blue_sum) as u128,
            },
            green2: Gain { num: 1, den: 1 },
        }
    }

    /// The gray-world gains of a tally.
    pub fn gains(&self) -> (r: ChannelGains)
        requires
            self.wf(),
        ensures
            r == self.spec_gains(),
            r.wf(),
    {
        proof {
            lemma_product_bound(self.green_sum, self.red_count);
            lemma_product_bound(self.green_count, self.red_sum);
            lemma_product_bound(self.green_sum, self.blue_count);
            lemma_product_bound(self.green_count, self.blue_sum);
        }
        let green = Gain::unity();
        ChannelGains {
            red: Gain {
                num: (self.green_sum as u128) * (self.red_count as u128),
                den: (self.green_count as u128) * (self.red_sum as u128),
            },
            green,
            blue: Gain {
                num: (self.green_sum as u128) * (self.blue_count as u128),
                den: (self.green_count as u128) * (self.blue_sum as u128),
            },
            green2: green,
        }
    }
}

proof fn lemma_product_bound(a: u64, b: u64)
    requires
        a <= TALLY_MAX,
        b <= TALLY_MAX,
    ensures
        a * b <= 0x0000_FFFF_FFFF_FFFF_FE00_0000_0000_0001,
        a * b <= crate::gain::GAIN_NUM_MAX,
{
    assert(a * b <= 0x00FF_FFFF_FFFF_FFFF * 0x00FF_FFFF_FFFF_FFFF) by (nonlinear_arith)
        requires
            a <= 0x00FF_FFFF_FFFF_FFFF,
            b <= 0x00FF_FFFF_FFFF_FFFF,
    ;
}

/// A sum over a range is at most 255 for each photosite under the colour,
/// and a count is at most the length of the range.
pub proof fn lemma_range_bounds(
    pixels: Seq<u8>,
    pattern: CfaPattern,
    width: int,
    color: CfaColor,
    lo: int,
    hi: int,
)
    requires
        lo <= hi,
    ensures
        0 <= range_count(pattern, width, color, lo, hi) <= hi - lo,
        0 <= range_sum(pixels, pattern, width, color, lo, hi) <= 255 * range_count(
            pattern,
            width,
            color,
            lo,
            hi,
        ),
    decreases hi - lo,
{
    if lo < hi {
        lemma_range_bounds(pixels, pattern, width, color, lo, hi - 1);
    }
}

/// Sums and counts over two adjacent ranges add up to those over the joined
/// range: partial tallies may be formed over any split and merged by
/// addition.
pub proof fn lemma_range_split(
    pixels: Seq<u8>,
    pattern: CfaPattern,
    width: int,
    color: CfaColor,
    lo: int,
    mid: int,
    hi: int,
)
    requires
        lo <= mid <= hi,
    ensures
        range_sum(pixels, pattern, width, color, lo, hi) == range_sum(
            pixels,
            pattern,
            width,
            color,
            lo,
            mid,
        ) + range_sum(pixels, pattern, width, color, mid, hi),
        range_count(pattern, width, color, lo, hi) == range_count(pattern, width, color, lo, mid)
            + range_count(pattern, width, color, mid, hi),
    decreases hi - mid,
{
    if mid < hi {
        lemma_range_split(pixels, pattern, width, color, lo, mid, hi - 1);
    }
}

/// Merging is commutative and associative, and the tallies of two adjacent
/// ranges merge into the tally of the joined range.
pub proof fn lemma_merge_laws(
    a: Tally,
    b: Tally,
    c: Tally,
    pixels: Seq<u8>,
    pattern: CfaPattern,
    width: int,
    lo: int,
    mid: int,
    hi: int,
)
    requires
        a.wf(),
        b.wf(),
        c.wf(),
        lo <= mid <= hi,
    ensures
        a.spec_merge(b) == b.spec_merge(a),
        a.spec_merge(b).wf() && b.spec_merge(c).wf() ==> a.spec_merge(b).spec_merge(c)
            == a.spec_merge(b.spec_merge(c)),
        a.covers(pixels, pattern, width, lo, mid) && b.covers(pixels, pattern, width, mid, hi)
            ==> a.spec_merge(b).covers(pixels, pattern, width, lo, hi),
{
    lemma_range_split(pixels, pattern, width, CfaColor::Red, lo, mid, hi);
    lemma_range_split(pixels, pattern, width, CfaColor::Green, lo, mid, hi);
    lemma_range_split(pixels, pattern, width, CfaColor::Blue, lo, mid, hi);
}

/// The tally of a whole frame of the given width.
pub open spec fn spec_tally(pixels: Seq<u8>, pattern: CfaPattern, width: int) -> Tally {
    let n = pixels.len() as int;
    Tally {
        red_sum: range_sum(pixels, pattern, width, CfaColor::Red, 0, n) as u64,
        green_sum: range_sum(pixels, pattern, width, CfaColor::Green, 0, n) as u64,
        blue_sum: range_sum(pixels, pattern, width, CfaColor::Blue, 0, n) as u64,
        red_count: range_count(pattern, width, CfaColor::Red, 0, n) as u64,
        green_count: range_count(pattern, width, CfaColor::Green, 0, n) as u64,
        blue_count: range_count(pattern, width, CfaColor::Blue, 0, n) as u64,
    }
}

/// The gray-world gains of a frame: those of its tally.
pub open spec fn spec_gray_world(pixels: Seq<u8>, pattern: CfaPattern, width: int) -> ChannelGains {
    spec_tally(pixels, pattern, width).spec_gains()
}

/// The bytes of an RGB frame after each channel of each pixel went through
/// its gain.
pub open spec fn spec_balanced(data: Seq<u8>, gains: ChannelGains) -> Seq<u8> {
    Seq::new(data.len(), |i: int| gains.spec_for_channel(i % 3).spec_scale(data[i]) as u8)
}

impl MonoFrame {
    /// Tallies the photosites with indices from `lo` up to but not including
    /// `hi`.
    pub fn tally_range(&self, pattern: CfaPattern, lo: usize, hi: usize) -> (t: Tally)
        requires
            self.wf(),
            lo <= hi <= self.pixels@.len(),
        ensures
            t.covers(self.pixels@, pattern, self.width as int, lo as int, hi as int),
            t.wf(),
    {
        let mut t = Tally::zero();
        let mut i: usize = lo;
        while i < hi
            invariant
                self.wf(),
                lo <= i <= hi <= self.pixels@.len(),
                t.covers(self.pixels@, pattern, self.width as int, lo as int, i as int),
            decreases hi - i,
        {
            proof {
                lemma_range_bounds(
                    self.pixels@,
                    pattern,
                    self.width as int,
                    CfaColor::Red,
                    lo as int,
                    i as int,
                );
                lemma_range_bounds(
                    self.pixels@,
                    pattern,
                    self.width as int,
                    CfaColor::Green,
                    lo as int,
                    i as int,
                );
                lemma_range_bounds(
                    self.pixels@,
                    pattern,
                    self.width as int,
                    CfaColor::Blue,
                    lo as int,
                    i as int,
                );
            }
            let v: u64 = self.pixels[i] as u64;
            match site_color(pattern, self.width, i) {
                CfaColor::Red => {
                    t.red_sum = t.red_sum + v;
                    t.red_count = t.red_count + 1;
                },
                CfaColor::Green => {
                    t.green_sum = t.green_sum + v;
                    t.green_count = t.green_count + 1;
                },
                CfaColor::Blue => {
                    t.blue_sum = t.blue_sum + v;
                    t.blue_count = t.blue_count + 1;
                },
            }
            i += 1;
        }
        proof {
            lemma_range_bounds(
                self.pixels@,
                pattern,
                self.width as int,
                CfaColor::Red,
                lo as int,
                hi as int,
            );
            lemma_range_bounds(
                self.pixels@,
                pattern,
                self.width as int,
                CfaColor::Green,
                lo as int,
                hi as int,
            );
            lemma_range_bounds(
                self.pixels@,
                pattern,
                self.width as int,
                CfaColor::Blue,
                lo as int,
                hi as int,
            );
        }
        t
    }

    /// Estimates white-balance gains on the assumption that the scene
    /// averages to gray.
    pub fn gray_world(&self, pattern: CfaPattern) -> (gains: ChannelGains)
        requires
            self.wf(),
        ensures
            gains == spec_gray_world(self.pixels@, pattern, self.width as int),
            gains.wf(),
    {
        let t = self.tally_range(pattern, 0, self.pixels.len());
        t.gains()
    }
}

/// Where every intensity of a range is `v`, the sum under a colour is `v`
/// times the count under it.
pub proof fn lemma_uniform_sum(
    pixels: Seq<u8>,
    pattern: CfaPattern,
    width: int,
    color: CfaColor,
    lo: int,
    hi: int,
    v: u8,
)
    requires
        0 <= lo <= hi <= pixels.len(),
        forall|i: int| lo <= i < hi ==> pixels[i] == v,
    ensures
        range_sum(pixels, pattern, width, color, lo, hi) == v * range_count(
            pattern,
            width,
            color,
            lo,
            hi,
        ),
    decreases hi - lo,
{
    if lo < hi {
        lemma_uniform_sum(pixels, pattern, width, color, lo, hi - 1, v);
        let c = range_count(pattern, width, color, lo, hi - 1);
        assert(v * (c + 1) == v * c + v) by (nonlinear_arith);
    }
}

/// A range that holds a photosite of a colour counts at least one of it.
pub proof fn lemma_count_positive(
    pattern: CfaPattern,
    width: int,
    color: CfaColor,
    lo: int,
    hi: int,
    k: int,
)
    requires
        lo <= k < hi,
        spec_site_color(pattern, width, k) == color,
    ensures
        range_count(pattern, width, color, lo, hi) >= 1,
    decreases hi - lo,
{
    if k < hi - 1 {
        lemma_count_positive(pattern, width, color, lo, hi - 1, k);
    } else {
        lemma_range_bounds(Seq::<u8>::empty(), pattern, width, color, lo, hi - 1);
    }
}

/// A frame of at least 2x2 photosites holds every filter colour.
pub proof fn lemma_every_color_present(pattern: CfaPattern, width: int, height: int, color: CfaColor)
    requires
        width >= 2,
        height >= 2,
    ensures
        range_count(pattern, width, color, 0, width * height) >= 1,
{
    let n = width * height;
    assert(n >= 2 * width) by (nonlinear_arith)
        requires
            width >= 2,
            height >= 2,
            n == width * height,
    ;
    assert(0int % width == 0 && 0int / width == 0);
    assert(1int % width == 1 && 1int / width == 0) by {
        vstd::arithmetic::div_mod::lemma_small_mod(1, width as nat);
        vstd::arithmetic::div_mod::lemma_basic_div(1, width);
    }
    assert(width % width == 0 && width / width == 1) by {
        vstd::arithmetic::div_mod::lemma_mod_self_0(width);
        vstd::arithmetic::div_mod::lemma_div_by_self(width);
    }
    assert((width + 1) % width == 1 && (width + 1) / width == 1) by {
        vstd::arithmetic::div_mod::lemma_fundamental_div_mod_converse(width + 1, width, 1, 1);
    }
    let k = if spec_site_color(pattern, width, 0) == color {
        0
    } else if spec_site_color(pattern, width, 1) == color {
        1
    } else if spec_site_color(pattern, width, width) == color {
        width
    } else {
        width + 1
    };
    lemma_count_positive(pattern, width, color, 0, n, k);
}

/// On a frame of at least 2x2 photosites that all hold the same intensity
/// above zero, the gray-world estimate is exactly one for every channel, and
/// so changes no channel value.
pub proof fn lemma_gray_frame_unity(mono: MonoFrame, pattern: CfaPattern, v: u8)
    requires
        mono.wf(),
        mono.width >= 2,
        mono.height >= 2,
        v > 0,
        forall|i: int| 0 <= i < mono.pixels@.len() ==> mono.pixels@[i] == v,
    ensures
        spec_gray_world(mono.pixels@, pattern, mono.width as int).red.is_unity(),
        spec_gray_world(mono.pixels@, pattern, mono.width as int).green.is_unity(),
        spec_gray_world(mono.pixels@, pattern, mono.width as int).blue.is_unity(),
        spec_gray_world(mono.pixels@, pattern, mono.width as int).green2.is_unity(),
        forall|channel: int, value: u8|
            0 <= channel < 3 ==> #[trigger] spec_gray_world(mono.pixels@, pattern, mono.width as int).spec_for_channel(
                channel,
            ).spec_scale(value) == value,
{
    let w = mono.width as int;
    let n = mono.pixels@.len() as int;
    let px = mono.pixels@;
    lemma_uniform_sum(px, pattern, w, CfaColor::Red, 0, n, v);
    lemma_uniform_sum(px, pattern, w, CfaColor::Green, 0, n, v);
    lemma_uniform_sum(px, pattern, w, CfaColor::Blue, 0, n, v);
    lemma_every_color_present(pattern, w, mono.height as int, CfaColor::Red);
    lemma_every_color_present(pattern, w, mono.height as int, CfaColor::Green);
    lemma_every_color_present(pattern, w, mono.height as int, CfaColor::Blue);
    lemma_range_bounds(px, pattern, w, CfaColor::Red, 0, n);
    lemma_range_bounds(px, pattern, w, CfaColor::Green, 0, n);
    lemma_range_bounds(px, pattern, w, CfaColor::Blue, 0, n);
    let cr = range_count(pattern, w, CfaColor::Red, 0, n);
    let cg = range_count(pattern, w, CfaColor::Green, 0, n);
    let cb = range_count(pattern, w, CfaColor::Blue, 0, n);
    let t = spec_tally(px, pattern, w);
    assert(n <= 0xFFFF_FFFF);
    assert(t.red_sum == v * cr && t.green_sum == v * cg && t.blue_sum == v * cb);
    assert(t.red_count == cr && t.green_count == cg && t.blue_count == cb);
    assert((v * cg) * cr == cg * (v * cr) && (v * cg) * cb == cg * (v * cb) && cg * (v * cr) > 0
        && cg * (v * cb) > 0 && cg * (v * cr) <= 0xFFFF_FFFF * (255 * 0xFFFF_FFFF) && cg * (v * cb)
        <= 0xFFFF_FFFF * (255 * 0xFFFF_FFFF)) by (nonlinear_arith)
        requires
            1 <= cr <= 0xFFFF_FFFF,
            1 <= cg <= 0xFFFF_FFFF,
            1 <= cb <= 0xFFFF_FFFF,
            1 <= v <= 255,
    ;
    let g = spec_gray_world(mono.pixels@, pattern, mono.width as int);
    assert(g.red.is_unity());
    assert(g.blue.is_unity());
    assert forall|channel: int, value: u8| 0 <= channel < 3 implies #[trigger] g.spec_for_channel(
        channel,
    ).spec_scale(value) == value by {
        crate::gain::lemma_unity_keeps(g.spec_for_channel(channel), value);
    }
}

impl RgbFrame {
    /// Applies the gains in place, pixel by pixel.
    pub fn apply_gains(&mut self, gains: &ChannelGains)
        requires
            old(self).wf(),
            gains.wf(),
        ensures
            final(self).wf(),
            final(self).width == old(self).width,
            final(self).height == old(self).height,
            final(self).data@ == spec_balanced(old(self).data@, *gains),
    {
        let n = self.data.len();
        let mut i: usize = 0;
        while i < n
            invariant
                gains.wf(),
                self.width == old(self).width,
                self.height == old(self).height,
                n == old(self).data@.len(),
                self.data@.len() == n,
                i <= n,
                forall|k: int| 0 <= k < i ==> self.data@[k] == spec_balanced(old(self).data@, *gains)[k],
                forall|k: int| i <= k < n ==> self.data@[k] == old(self).data@[k],
            decreases n - i,
        {
            let gain = gains.for_channel(i % 3);
            let value = gain.scale(self.data[i]);
            proof {
                lemma_scale_in_range(gain, old(self).data@[i as int]);
            }
            self.data.set(i, value);
            i += 1;
        }
        assert(self.data@ =~= spec_balanced(old(self).data@, *gains));
    }
}

/// After white balance every channel is the capped product of its old value
/// and its gain, which is an 8-bit value whatever the gain.
pub proof fn lemma_balanced_in_range(rgb: RgbFrame, gains: ChannelGains, i: int)
    requires
        0 <= i < rgb.data@.len(),
    ensures
        0 <= gains.spec_for_channel(i % 3).spec_scale(rgb.data@[i]) <= 255,
        spec_balanced(rgb.data@, gains)[i] as int == gains.spec_for_channel(i % 3).spec_scale(
            rgb.data@[i],
        ),
{
    lemma_scale_in_range(gains.spec_for_channel(i % 3), rgb.data@[i]);
}

} // verus!
