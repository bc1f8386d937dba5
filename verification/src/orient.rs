use crate::frame::{Orientation, RgbFrame};
use vstd::arithmetic::div_mod::lemma_fundamental_div_mod_converse;
use vstd::prelude::*;

verus! {

/// The mathematical content of an RGB frame.
pub struct RgbView {
    pub width: int,
    pub height: int,
    pub data: Seq<u8>,
}

impl RgbView {
    /// Positive dimensions and three bytes per pixel.
    pub open spec fn wf(self) -> bool {
        &&& self.width > 0
        &&& self.height > 0
        &&& self.data.len() == self.width * self.height * 3
    }

    /// The channel `c` of the pixel in column `x` of row `y`.
    pub open spec fn at(self, x: int, y: int, c: int) -> u8 {
        self.data[(y * self.width + x) * 3 + c]
    }

    /// The frame turned a quarter clockwise: its pixel in column `x` of row
    /// `y` is the old pixel in column `y` of the row `x` places above the
    /// last.
    pub open spec fn turned(self) -> RgbView {
        RgbView {
            width: self.height,
            height: self.width,
            data: Seq::new(
                self.data.len(),
                |j: int| self.at((j / 3) / self.height, self.height - 1 - (j / 3) % self.height, j % 3),
            ),
        }
    }

    /// The frame turned upside down.
    pub open spec fn flipped(self) -> RgbView {
        RgbView {
            width: self.width,
            height: self.height,
            data: Seq::new(
                self.data.len(),
                |j: int|
                    self.at(
                        self.width - 1 - (j / 3) % self.width,
                        self.height - 1 - (j / 3) / self.width,
                        j % 3,
                    ),
            ),
        }
    }

    /// The frame turned a quarter counter-clockwise.
    pub open spec fn turned_back(self) -> RgbView {
        RgbView {
            width: self.height,
            height: self.width,
            data: Seq::new(
                self.data.len(),
                |j: int| self.at(self.width - 1 - (j / 3) / self.height, (j / 3) % self.height, j % 3),
            ),
        }
    }

    /// The frame brought upright according to its orientation tag.
    pub open spec fn oriented(self, orientation: Orientation) -> RgbView {
        match orientation {
            Orientation::Identity => self,
            Orientation::Rotate90 => self.turned(),
            Orientation::Rotate180 => self.flipped(),
            Orientation::Rotate270 => self.turned_back(),
        }
    }
}

impl View for RgbFrame {
    type V = RgbView;

    open spec fn view(&self) -> RgbView {
        RgbView { width: self.width as int, height: self.height as int, data: self.data@ }
    }
}

/// The index of a channel of a pixel splits back into its coordinates.
pub proof fn lemma_index_split(width: int, height: int, x: int, y: int, c: int)
    requires
        0 <= x < width,
        0 <= y < height,
        0 <= c < 3,
    ensures
        0 <= y * width + x < width * height,
        0 <= (y * width + x) * 3 + c < width * height * 3,
        ((y * width + x) * 3 + c) / 3 == y * width + x,
        ((y * width + x) * 3 + c) % 3 == c,
        (y * width + x) % width == x,
        (y * width + x) / width == y,
{
    assert(0 <= y * width && y * width + width <= height * width) by (nonlinear_arith)
        requires
            0 <= y < height,
            0 < width,
    ;
    assert(height * width == width * height) by (nonlinear_arith);
    assert(width * height * 3 == (width * height) * 3) by (nonlinear_arith);
    lemma_fundamental_div_mod_converse(y * width + x, width, y, x);
}

/// Every index below the length of a frame is that of a channel of a pixel
/// inside the frame.
pub proof fn lemma_index_coords(width: int, height: int, j: int)
    requires
        width > 0,
        height > 0,
        0 <= j < width * height * 3,
    ensures
        0 <= (j / 3) % width < width,
        0 <= (j / 3) / width < height,
        0 <= j % 3 < 3,
        j == (((j / 3) / width) * width + (j / 3) % width) * 3 + j % 3,
{
    let p = j / 3;
    assert(width * height * 3 == (width * height) * 3) by (nonlinear_arith);
    assert(0 <= p < width * height);
    vstd::arithmetic::div_mod::lemma_fundamental_div_mod(p, width);
    vstd::arithmetic::div_mod::lemma_mod_bound(p, width);
    let q = p / width;
    let r = p % width;
    assert(p == width * q + r);
    assert(0 <= q < height) by (nonlinear_arith)
        requires
            p == width * q + r,
            0 <= r < width,
            0 <= p < width * height,
            width > 0,
    ;
    assert(width * q == q * width) by (nonlinear_arith);
}

/// Two frames of the same dimensions whose pixels agree are the same.
pub proof fn lemma_same_pixels(a: RgbView, b: RgbView)
    requires
        a.wf(),
        b.wf(),
        a.width == b.width,
        a.height == b.height,
        forall|x: int, y: int, c: int|
            0 <= x < a.width && 0 <= y < a.height && 0 <= c < 3 ==> a.at(x, y, c) == b.at(x, y, c),
    ensures
        a == b,
{
    assert forall|j: int| 0 <= j < a.data.len() implies a.data[j] == b.data[j] by {
        lemma_index_coords(a.width, a.height, j);
        let x = (j / 3) % a.width;
        let y = (j / 3) / a.width;
        assert(a.at(x, y, j % 3) == b.at(x, y, j % 3));
    }
    assert(a.data =~= b.data);
}

/// A quarter turn clockwise swaps the dimensions and moves the pixel in
/// column `y` of the row `x` places above the last into column `x` of row
/// `y`.
pub proof fn lemma_turned_at(v: RgbView, x: int, y: int, c: int)
    requires
        v.wf(),
        0 <= x < v.height,
        0 <= y < v.width,
        0 <= c < 3,
    ensures
        v.turned().wf(),
        v.turned().width == v.height,
        v.turned().height == v.width,
        v.turned().at(x, y, c) == v.at(y, v.height - 1 - x, c),
{
    lemma_index_split(v.height, v.width, x, y, c);
    assert(v.height * v.width * 3 == v.width * v.height * 3) by (nonlinear_arith);
}

/// A half turn keeps the dimensions and mirrors both coordinates.
pub proof fn lemma_flipped_at(v: RgbView, x: int, y: int, c: int)
    requires
        v.wf(),
        0 <= x < v.width,
        0 <= y < v.height,
        0 <= c < 3,
    ensures
        v.flipped().wf(),
        v.flipped().width == v.width,
        v.flipped().height == v.height,
        v.flipped().at(x, y, c) == v.at(v.width - 1 - x, v.height - 1 - y, c),
{
    lemma_index_split(v.width, v.height, x, y, c);
}

/// A quarter turn counter-clockwise swaps the dimensions and moves the pixel
/// in row `x` of the column `y` places before the last into column `x` of
/// row `y`.
pub proof fn lemma_turned_back_at(v: RgbView, x: int, y: int, c: int)
    requires
        v.wf(),
        0 <= x < v.height,
        0 <= y < v.width,
        0 <= c < 3,
    ensures
        v.turned_back().wf(),
        v.turned_back().width == v.height,
        v.turned_back().height == v.width,
        v.turned_back().at(x, y, c) == v.at(v.width - 1 - y, x, c),
{
    lemma_index_split(v.height, v.width, x, y, c);
    assert(v.height * v.width * 3 == v.width * v.height * 3) by (nonlinear_arith);
}

/// Quarter turns swap width and height, a half turn keeps them, and the
/// identity changes nothing; every result is a well-formed frame of as many
/// bytes.
pub proof fn lemma_oriented_dimensions(v: RgbView, orientation: Orientation)
    requires
        v.wf(),
    ensures
        v.oriented(orientation).wf(),
        v.oriented(orientation).data.len() == v.data.len(),
        orientation == Orientation::Identity ==> v.oriented(orientation) == v,
        orientation == Orientation::Rotate180 ==> v.oriented(orientation).width == v.width
            && v.oriented(orientation).height == v.height,
        orientation == Orientation::Rotate90 || orientation == Orientation::Rotate270
            ==> v.oriented(orientation).width == v.height && v.oriented(orientation).height
            == v.width,
{
    assert(v.height * v.width * 3 == v.width * v.height * 3) by (nonlinear_arith);
}

/// Two quarter turns make a half turn.
pub proof fn lemma_two_turns(v: RgbView)
    requires
        v.wf(),
    ensures
        v.turned().turned() == v.flipped(),
{
    let t = v.turned();
    lemma_oriented_dimensions(v, Orientation::Rotate90);
    lemma_oriented_dimensions(t, Orientation::Rotate90);
    lemma_oriented_dimensions(v, Orientation::Rotate180);
    assert forall|x: int, y: int, c: int|
        0 <= x < v.width && 0 <= y < v.height && 0 <= c < 3 implies t.turned().at(x, y, c)
        == v.flipped().at(x, y, c) by {
        lemma_turned_at(t, x, y, c);
        lemma_turned_at(v, y, v.width - 1 - x, c);
        lemma_flipped_at(v, x, y, c);
    }
    lemma_same_pixels(t.turned(), v.flipped());
}

/// Three quarter turns clockwise make one counter-clockwise.
pub proof fn lemma_three_turns(v: RgbView)
    requires
        v.wf(),
    ensures
        v.turned().turned().turned() == v.turned_back(),
{
    lemma_two_turns(v);
    let f = v.flipped();
    lemma_oriented_dimensions(v, Orientation::Rotate180);
    lemma_oriented_dimensions(f, Orientation::Rotate90);
    lemma_oriented_dimensions(v, Orientation::Rotate270);
    assert forall|x: int, y: int, c: int|
        0 <= x < v.height && 0 <= y < v.width && 0 <= c < 3 implies f.turned().at(x, y, c)
        == v.turned_back().at(x, y, c) by {
        lemma_turned_at(f, x, y, c);
        lemma_flipped_at(v, y, v.height - 1 - x, c);
        lemma_turned_back_at(v, x, y, c);
    }
    lemma_same_pixels(f.turned(), v.turned_back());
}

/// Four quarter turns bring every frame back to itself.
pub proof fn lemma_four_turns(v: RgbView)
    requires
        v.wf(),
    ensures
        v.turned().turned().turned().turned() == v,
{
    lemma_three_turns(v);
    let b = v.turned_back();
    lemma_oriented_dimensions(v, Orientation::Rotate270);
    lemma_oriented_dimensions(b, Orientation::Rotate90);
    assert forall|x: int, y: int, c: int|
        0 <= x < v.width && 0 <= y < v.height && 0 <= c < 3 implies b.turned().at(x, y, c) == v.at(
        x,
        y,
        c,
    ) by {
        lemma_turned_at(b, x, y, c);
        lemma_turned_back_at(v, y, v.width - 1 - x, c);
    }
    lemma_same_pixels(b.turned(), v);
}

impl RgbFrame {
    /// Copies the three channels of the pixel with index `src` to the end of
    /// `out`.
    fn push_pixel(&self, out: &mut Vec<u8>, src: usize)
        requires
            src * 3 + 2 < self.data@.len(),
        ensures
            final(out)@ == old(out)@.push(self.data@[src * 3]).push(self.data@[src * 3 + 1]).push(
                self.data@[src * 3 + 2],
            ),
    {
        assert(self.data@.len() <= usize::MAX) by {
            vstd::std_specs::vec::axiom_spec_len(&self.data);
        }
        let base = src * 3;
        out.push(self.data[base]);
        out.push(self.data[base + 1]);
        out.push(self.data[base + 2]);
    }

    /// Turns the frame a quarter clockwise.
    pub fn rotate90(&self) -> (r: RgbFrame)
        requires
            self.wf(),
        ensures
            r.wf(),
            r@ == self@.turned(),
    {
        let w = self.width;
        let h = self.height;
        let n = w * h;
        let ghost goal = self@.turned();
        let mut out: Vec<u8> = Vec::with_capacity(self.data.len());
        let mut p: usize = 0;
        while p < n
            invariant
                self.wf(),
                w == self.width,
                h == self.height,
                n == w * h,
                goal == self@.turned(),
                p <= n,
                out@.len() == 3 * p,
                forall|j: int| 0 <= j < 3 * p ==> out@[j] == goal.data[j],
            decreases n - p,
        {
            let x = p % h;
            let y = p / h;
            proof {
                assert(h * w * 3 == w * h * 3) by (nonlinear_arith);
                lemma_index_coords(h as int, w as int, 3 * p);
                lemma_index_split(w as int, h as int, y as int, h - 1 - x, 2);
            }
            let src = (h - 1 - x) * w + y;
            self.push_pixel(&mut out, src);
            p += 1;
        }
        proof {
            assert(w * h * 3 == 3 * (w * h)) by (nonlinear_arith);
            assert(out@ =~= goal.data);
            lemma_oriented_dimensions(self@, Orientation::Rotate90);
        }
        RgbFrame { width: h, height: w, data: out }
    }

    /// Turns the frame upside down.
    pub fn rotate180(&self) -> (r: RgbFrame)
        requires
            self.wf(),
        ensures
            r.wf(),
            r@ == self@.flipped(),
    {
        let w = self.width;
        let h = self.height;
        let n = w * h;
        let ghost goal = self@.flipped();
        let mut out: Vec<u8> = Vec::with_capacity(self.data.len());
        let mut p: usize = 0;
        while p < n
            invariant
                self.wf(),
                w == self.width,
                h == self.height,
                n == w * h,
                goal == self@.flipped(),
                p <= n,
                out@.len() == 3 * p,
                forall|j: int| 0 <= j < 3 * p ==> out@[j] == goal.data[j],
            decreases n - p,
        {
            let x = p % w;
            let y = p / w;
            proof {
                lemma_index_coords(w as int, h as int, 3 * p);
                lemma_index_split(w as int, h as int, w - 1 - x, h - 1 - y, 2);
            }
            let src = (h - 1 - y) * w + (w - 1 - x);
            self.push_pixel(&mut out, src);
            p += 1;
        }
        proof {
            assert(w * h * 3 == 3 * (w * h)) by (nonlinear_arith);
            assert(out@ =~= goal.data);
        }
        RgbFrame { width: w, height: h, data: out }
    }

    /// Turns the frame a quarter counter-clockwise.
    pub fn rotate270(&self) -> (r: RgbFrame)
        requires
            self.wf(),
        ensures
            r.wf(),
            r@ == self@.turned_back(),
    {
        let w = self.width;
        let h = self.height;
        let n = w * h;
        let ghost goal = self@.turned_back();
        let mut out: Vec<u8> = Vec::with_capacity(self.data.len());
        let mut p: usize = 0;
        while p < n
            invariant
                self.wf(),
                w == self.width,
                h == self.height,
                n == w * h,
                goal == self@.turned_back(),
                p <= n,
                out@.len() == 3 * p,
                forall|j: int| 0 <= j < 3 * p ==> out@[j] == goal.data[j],
            decreases n - p,
        {
            let x = p % h;
            let y = p / h;
            proof {
                assert(h * w * 3 == w * h * 3) by (nonlinear_arith);
                lemma_index_coords(h as int, w as int, 3 * p);
                lemma_index_split(w as int, h as int, w - 1 - y, x as int, 2);
            }
            let src = x * w + (w - 1 - y);
            self.push_pixel(&mut out, src);
            p += 1;
        }
        proof {
            assert(w * h * 3 == 3 * (w * h)) by (nonlinear_arith);
            assert(out@ =~= goal.data);
            lemma_oriented_dimensions(self@, Orientation::Rotate270);
        }
        RgbFrame { width: h, height: w, data: out }
    }

    /// Brings the frame upright according to its orientation tag.
    pub fn orient(self, orientation: Orientation) -> (r: RgbFrame)
        requires
            self.wf(),
        ensures
            r.wf(),
            r@ == self@.oriented(orientation),
    {
        match orientation {
            Orientation::Identity => self,
            Orientation::Rotate90 => self.rotate90(),
            Orientation::Rotate180 => self.rotate180(),
            Orientation::Rotate270 => self.rotate270(),
        }
    }
}

} // verus!
