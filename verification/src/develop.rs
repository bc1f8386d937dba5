use crate::balance::{spec_balanced, spec_gray_world};
use crate::demosaic::spec_demosaic;
use crate::error::DecodeError;
use crate::frame::{Orientation, Raster, RgbFrame, SensorFrame, SensorView, WhiteBalance};
use crate::gain::ChannelGains;
use crate::orient::{RgbView, lemma_oriented_dimensions};
use vstd::prelude::*;

verus! {

/// The mathematical content of a decoded image.
pub struct RasterView {
    pub width: int,
    pub height: int,
    pub data: Seq<u8>,
}

impl View for Raster {
    type V = RasterView;

    open spec fn view(&self) -> RasterView {
        RasterView { width: self.width as int, height: self.height as int, data: self.data@ }
    }
}

/// RGB triples widened to RGBA with an alpha of 255 throughout.
pub open spec fn spec_rgba(data: Seq<u8>) -> Seq<u8> {
    Seq::new(
        (data.len() / 3 * 4) as nat,
        |j: int|
            if j % 4 == 3 {
                255u8
            } else {
                data[(j / 4) * 3 + j % 4]
            },
    )
}

impl RgbFrame {
    /// Converts to RGBA by giving every pixel an alpha of 255.
    pub fn to_rgba(&self) -> (r: Raster)
        requires
            self.wf(),
        ensures
            r.wf(),
            r@ == (RasterView {
                width: self.width as int,
                height: self.height as int,
                data: spec_rgba(self.data@),
            }),
    {
        let n = self.width * self.height;
        assert(self.width <= n && self.height <= n && self.data@.len() == n * 3) by (nonlinear_arith)
            requires
                n == self.width * self.height,
                self.width > 0,
                self.height > 0,
                self.data@.len() == self.width * self.height * 3,
        ;
        let mut out: Vec<u8> = Vec::with_capacity(n * 4);
        let mut p: usize = 0;
        while p < n
            invariant
                self.data@.len() == n * 3,
                n * 4 <= usize::MAX,
                p <= n,
                out@.len() == 4 * p,
                forall|j: int| 0 <= j < 4 * p ==> out@[j] == spec_rgba(self.data@)[j],
            decreases n - p,
        {
            out.push(self.data[3 * p]);
            out.push(self.data[3 * p + 1]);
            out.push(self.data[3 * p + 2]);
            out.push(255);
            p += 1;
        }
        assert(out@ =~= spec_rgba(self.data@));
        assert(out@.len() == self.width * self.height * 4) by (nonlinear_arith)
            requires
                out@.len() == 4 * n,
                n == self.width * self.height,
        ;
        Raster { width: self.width as u32, height: self.height as u32, data: out }
    }
}

impl SensorView {
    /// The gains that the frame is balanced with: those it carries, or else
    /// the gray-world estimate from its intensities.
    pub open spec fn gains(self) -> ChannelGains {
        match self.white_balance {
            WhiteBalance::Embedded(gains) => gains,
            WhiteBalance::Estimate => spec_gray_world(self.normalized(), self.pattern, self.width),
        }
    }

    /// Whether bringing the frame upright swaps its dimensions.
    pub open spec fn swaps(self) -> bool {
        self.orientation == Orientation::Rotate90 || self.orientation == Orientation::Rotate270
    }

    /// The width of the frame once upright.
    pub open spec fn upright_width(self) -> int {
        if self.swaps() {
            self.height
        } else {
            self.width
        }
    }

    /// The height of the frame once upright.
    pub open spec fn upright_height(self) -> int {
        if self.swaps() {
            self.width
        } else {
            self.height
        }
    }

    /// What developing the frame gives: the intensities demosaiced, balanced,
    /// brought upright and widened to RGBA, or the refusal of the demosaicing
    /// step.
    pub open spec fn developed(self) -> Result<RasterView, DecodeError> {
        match spec_demosaic(self.pattern, self.width, self.height, self.normalized()) {
            Err(e) => Err(e),
            Ok(rgb) => {
                let upright = (RgbView {
                    width: self.width,
                    height: self.height,
                    data: spec_balanced(rgb, self.gains()),
                }).oriented(self.orientation);
                Ok(
                    RasterView {
                        width: upright.width,
                        height: upright.height,
                        data: spec_rgba(upright.data),
                    },
                )
            },
        }
    }
}

impl SensorFrame {
    /// Develops the frame into an RGBA image: normalise, demosaic, balance,
    /// orient, add alpha.
    pub fn develop(&self) -> (r: Result<Raster, DecodeError>)
        requires
            self.wf(),
        ensures
            match self@.developed() {
                Ok(view) => r matches Ok(raster) && raster.wf() && raster@ == view,
                Err(e) => r matches Err(f) && f == e,
            },
            r is Ok <==> self.width >= 2 && self.height >= 2,
            r matches Ok(raster) ==> raster.width == self@.upright_width() && raster.height
                == self@.upright_height() && raster.data@.len() == self.width * self.height * 4,
            r matches Ok(raster) ==> forall|p: int|
                0 <= p < self.width * self.height ==> #[trigger] raster.data@[4 * p + 3] == 255,
    {
        let mono = self.normalize();
        let mut rgb = mono.demosaic(self.pattern)?;
        let gains = match self.white_balance {
            WhiteBalance::Embedded(gains) => gains,
            WhiteBalance::Estimate => mono.gray_world(self.pattern),
        };
        rgb.apply_gains(&gains);
        let upright = rgb.orient(self.orientation);
        let raster = upright.to_rgba();
        proof {
            lemma_oriented_dimensions(rgb@, self.orientation);
            let n = self.width * self.height;
            assert(upright.data@.len() == n * 3);
            assert(raster.data@.len() == n * 4);
            assert forall|p: int| 0 <= p < n implies #[trigger] raster.data@[4 * p + 3] == 255 by {
                lemma_rgba_pixels(upright.data@, p, 0);
            }
        }
        Ok(raster)
    }
}

/// Widening to RGBA keeps the three colour channels of every pixel and sets
/// its alpha to 255.
pub proof fn lemma_rgba_pixels(data: Seq<u8>, p: int, c: int)
    requires
        data.len() % 3 == 0,
        0 <= p < data.len() / 3,
        0 <= c < 3,
    ensures
        spec_rgba(data).len() == data.len() / 3 * 4,
        spec_rgba(data)[4 * p + 3] == 255,
        spec_rgba(data)[4 * p + c] == data[3 * p + c],
{
}

} // verus!
