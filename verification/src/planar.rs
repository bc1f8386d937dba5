use crate::error::DecodeError;
use crate::frame::{Raster, RgbFrame, pixel_limit, spec_pixel_limit};
use vstd::prelude::*;

verus! {

/// An interleaved RGB plane whose rows may be padded: row `y` starts at byte
/// `y * stride`.
#[derive(Debug, PartialEq, Eq)]
pub struct StridedPlane {
    pub width: u32,
    pub height: u32,
    /// Bytes from the start of one row to the start of the next.
    pub stride: usize,
    pub data: Vec<u8>,
}

impl StridedPlane {
    /// Positive dimensions within the pixel limit, rows that do not overlap,
    /// and data that reaches to the end of the last row.
    pub open spec fn wf(&self) -> bool {
        &&& self.width > 0
        &&& self.height > 0
        &&& self.width * self.height <= spec_pixel_limit()
        &&& self.stride >= 3 * self.width
        &&& (self.height - 1) * self.stride + 3 * self.width <= self.data@.len()
    }

    /// Tells whether the plane is well formed.
    pub fn is_valid(&self) -> (r: bool)
        ensures
            r == self.wf(),
    {
        if self.width == 0 || self.height == 0 {
            return false;
        }
        let w: u64 = self.width as u64;
        let h: u64 = self.height as u64;
        assert(w * h <= 0xFFFF_FFFF * 0xFFFF_FFFF) by (nonlinear_arith)
            requires
                w <= 0xFFFF_FFFF,
                h <= 0xFFFF_FFFF,
        ;
        if w * h > pixel_limit() as u64 {
            return false;
        }
        let row: u64 = 3 * w;
        let stride: u64 = self.stride as u64;
        if stride < row {
            return false;
        }
        // The start of the last row must lie inside the data.
        let len: u64 = self.data.len() as u64;
        if len < row {
            return false;
        }
        let room: u64 = (len - row) / stride;
        proof {
            let s = stride as int;
            let avail = (len - row) as int;
            let hm = (h - 1) as int;
            assert(s > 0);
            assert((hm * s <= avail) <==> (hm <= avail / s)) by (nonlinear_arith)
                requires
                    s > 0,
                    avail >= 0,
                    hm >= 0,
            ;
        }
        h - 1 <= room
    }

    /// The rows of the plane without their padding, one after the other.
    pub open spec fn spec_packed(&self) -> Seq<u8> {
        Seq::new(
            (self.width * self.height * 3) as nat,
            |j: int| self.data@[(j / (3 * self.width)) * self.stride + j % (3 * self.width)],
        )
    }

    /// Copies the rows of the plane, without their padding, into a frame.
    pub fn pack(&self) -> (r: Result<RgbFrame, DecodeError>)
        ensures
            r is Ok <==> self.wf(),
            r matches Ok(rgb) ==> rgb.wf() && rgb.width == self.width && rgb.height == self.height
                && rgb.data@ == self.spec_packed(),
            r matches Err(e) ==> e == DecodeError::MalformedBuffer,
    {
        if !self.is_valid() {
            return Err(DecodeError::MalformedBuffer);
        }
        let w = self.width as usize;
        let h = self.height as usize;
        assert(w * h <= spec_pixel_limit());
        let row = 3 * w;
        let len = self.data.len();
        let ghost goal = self.spec_packed();
        let mut out: Vec<u8> = Vec::new();
        let mut y: usize = 0;
        while y < h
            invariant
                self.wf(),
                w == self.width,
                h == self.height,
                row == 3 * w,
                len == self.data@.len(),
                goal == self.spec_packed(),
                y <= h,
                out@.len() == y * row,
                forall|j: int| 0 <= j < y * row ==> out@[j] == goal[j],
            decreases h - y,
        {
            proof {
                assert(0 <= y * self.stride && y * self.stride + row <= (h - 1) * self.stride + row)
                    by (nonlinear_arith)
                    requires
                        0 <= y <= h - 1,
                        self.stride >= 0,
                ;
                assert((y + 1) * row == y * row + row) by (nonlinear_arith);
                assert((y + 1) * row <= h * row) by (nonlinear_arith)
                    requires
                        y + 1 <= h,
                        row >= 0,
                ;
                assert(h * row == w * h * 3) by (nonlinear_arith)
                    requires
                        row == 3 * w,
                ;
            }
            let start = y * self.stride;
            let mut x: usize = 0;
            while x < row
                invariant
                    self.wf(),
                    w == self.width,
                    h == self.height,
                    row == 3 * w,
                    len == self.data@.len(),
                    goal == self.spec_packed(),
                    y < h,
                    x <= row,
                    start == y * self.stride,
                    start + row <= self.data@.len(),
                    (y + 1) * row == y * row + row,
                    (y + 1) * row <= w * h * 3,
                    out@.len() == y * row + x,
                    forall|j: int| 0 <= j < y * row + x ==> out@[j] == goal[j],
                decreases row - x,
            {
                proof {
                    let j = y * row + x;
                    vstd::arithmetic::div_mod::lemma_fundamental_div_mod_converse(
                        j as int,
                        row as int,
                        y as int,
                        x as int,
                    );
                }
                out.push(self.data[start + x]);
                x += 1;
            }
            y += 1;
        }
        proof {
            assert(h * row == w * h * 3) by (nonlinear_arith)
                requires
                    row == 3 * w,
            ;
            assert(out@ =~= goal);
        }
        Ok(RgbFrame { width: w, height: h, data: out })
    }

    /// The RGBA image of the plane: its rows packed and every pixel given an
    /// alpha of 255.
    pub fn to_raster(&self) -> (r: Result<Raster, DecodeError>)
        ensures
            r is Ok <==> self.wf(),
            r matches Ok(raster) ==> raster.wf() && raster.width == self.width && raster.height
                == self.height && raster.data@ == crate::develop::spec_rgba(self.spec_packed()),
            r matches Err(e) ==> e == DecodeError::MalformedBuffer,
    {
        let rgb = self.pack()?;
        Ok(rgb.to_rgba())
    }
}

} // verus!
