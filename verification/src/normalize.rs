use crate::cfa::{CfaColor, CfaPattern};
use crate::frame::{MonoFrame, SensorFrame, SensorView};
use crate::levels::lemma_intensity_in_range;
use vstd::prelude::*;

verus! {

/// The filter colour of the photosite with index `i` in a frame of the given
/// width, counting row by row.
pub open spec fn spec_site_color(pattern: CfaPattern, width: int, i: int) -> CfaColor {
    pattern.spec_color_at(i % width, i / width)
}

/// The filter colour of the photosite with index `i`.
pub fn site_color(pattern: CfaPattern, width: usize, i: usize) -> (c: CfaColor)
    requires
        width > 0,
    ensures
        c == spec_site_color(pattern, width as int, i as int),
{
    pattern.color_at(i % width, i / width)
}

impl SensorView {
    /// The intensity of the photosite with index `i`: its sample between the
    /// black and white levels of its filter colour.
    pub open spec fn intensity_at(self, i: int) -> int {
        self.levels.spec_of(spec_site_color(self.pattern, self.width, i)).spec_intensity(
            self.samples[i],
        )
    }

    /// The intensities of all photosites, row by row.
    pub open spec fn normalized(self) -> Seq<u8> {
        Seq::new(self.samples.len(), |i: int| self.intensity_at(i) as u8)
    }
}

impl SensorFrame {
    /// The intensity of the photosite with index `i`. It depends on that
    /// photosite alone, so the photosites can be worked on in any order.
    pub fn intensity_at(&self, i: usize) -> (r: u8)
        requires
            self.wf(),
            i < self.samples@.len(),
        ensures
            r as int == self@.intensity_at(i as int),
    {
        let color = site_color(self.pattern, self.width, i);
        self.levels.of(color).intensity(self.samples[i])
    }

    /// Maps every sample to an 8-bit linear intensity.
    pub fn normalize(&self) -> (mono: MonoFrame)
        requires
            self.wf(),
        ensures
            mono.wf(),
            mono.width == self.width,
            mono.height == self.height,
            mono.pixels@ == self@.normalized(),
    {
        let n = self.samples.len();
        let mut pixels: Vec<u8> = Vec::with_capacity(n);
        let mut i: usize = 0;
        while i < n
            invariant
                self.wf(),
                n == self.samples@.len(),
                i <= n,
                pixels@.len() == i,
                forall|k: int| 0 <= k < i ==> pixels@[k] as int == self@.intensity_at(k),
            decreases n - i,
        {
            pixels.push(self.intensity_at(i));
            i += 1;
        }
        proof {
            assert forall|k: int| 0 <= k < n implies pixels@[k] == self@.normalized()[k] by {
                lemma_intensity_in_range(
                    self.levels.spec_of(spec_site_color(self.pattern, self.width as int, k)),
                    self.samples@[k],
                );
            }
            assert(pixels@ =~= self@.normalized());
        }
        MonoFrame { width: self.width, height: self.height, pixels }
    }
}

/// A normalised frame has one intensity for each sample, and each is the
/// 8-bit value that the sample's levels give.
pub proof fn lemma_normalized_shape(frame: SensorFrame)
    requires
        frame.wf(),
    ensures
        frame@.normalized().len() == frame.width * frame.height,
        forall|i: int|
            0 <= i < frame.width * frame.height ==> 0 <= #[trigger] frame@.intensity_at(i) <= 255
                && frame@.normalized()[i] as int == frame@.intensity_at(i),
{
    assert forall|i: int| 0 <= i < frame.width * frame.height implies 0
        <= #[trigger] frame@.intensity_at(i) <= 255 && frame@.normalized()[i] as int
        == frame@.intensity_at(i) by {
        lemma_intensity_in_range(
            frame.levels.spec_of(spec_site_color(frame.pattern, frame.width as int, i)),
            frame.samples@[i],
        );
    }
}

} // verus!
