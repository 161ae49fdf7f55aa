//! Bookkeeping of the rendered waveform image.
//!
//! The image itself is a pixel surface drawn by the front-end; this module keeps
//! the sample range that the surface currently represents, the resolution it was
//! drawn at, and decides, for a requested sample range, how the surface must be
//! updated (full redraw, extension to the left or to the right, or nothing).
use vstd::prelude::*;

verus! {

/// Initial width of the image surfaces, in pixels.
pub const INIT_WIDTH: i32 = 2000;
/// Initial height of the image surfaces, in pixels.
pub const INIT_HEIGHT: i32 = 500;

/// Upper bound for the sample indices and steps handled by the waveform
/// machinery: the first visible sample may reach three times this bound, and a
/// sample window and a step are added to it, which must not overflow.
pub open spec fn sample_limit() -> int {
    usize::MAX as int / 8
}

/// The part of the audio buffer that the rendering logic reads.
#[derive(Clone, Copy, Debug, PartialEq, Eq)]
pub struct AudioBufferBounds {
    /// First sample available in the buffer.
    pub lower: usize,
    /// Sample following the last one available in the buffer.
    pub upper: usize,
    /// First sample of the latest segment received.
    pub segment_lower: usize,
    /// Whether the end of the stream was reached.
    pub eos: bool,
}

impl AudioBufferBounds {
    pub open spec fn wf(self) -> bool {
        &&& self.lower <= self.segment_lower <= self.upper
        &&& self.upper <= sample_limit()
    }
}

/// What the front-end has to draw on the image surface.
#[derive(Clone, Copy, Debug, PartialEq, Eq)]
pub enum RenderAction {
    /// Leave the image as it is.
    Nothing,
    /// The requested range is empty: the image was reset.
    Cleared,
    /// Redraw the whole range `[lower, upper)` on a clean surface.
    Redraw { lower: usize, upper: usize },
    /// Shift the image to the right and draw `[lower, current lower)`.
    AppendLeft { lower: usize },
    /// Possibly shift the image to the left and draw `[max(lower, current upper), upper)`.
    AppendRight { lower: usize, upper: usize },
}

/// The outcome of [`WaveformImage::plan_render`].
#[derive(Clone, Copy, Debug, PartialEq, Eq)]
pub struct RenderPlan {
    pub action: RenderAction,
    /// New surfaces of size `image_width` x `image_height` must be allocated.
    pub new_surfaces: bool,
}

pub struct WaveformImage {
    pub id: usize,
    pub is_ready: bool,
    pub shareable_state_changed: bool,

    pub image_width: i32,
    pub image_height: i32,

    pub req_width: i32,
    pub req_height: i32,
    pub force_redraw: bool,

    pub lower: usize,
    pub upper: usize,

    pub contains_eos: bool,

    /// Whether the position of the first drawn sample is known.
    pub has_first: bool,
    /// Whether the position of the last drawn sample is known.
    pub has_last: bool,

    pub sample_step: usize,
    pub x_step: usize,
}

/// Aligns `value` on a multiple of `step`.
pub open spec fn align_down(value: int, step: int) -> int {
    value / step * step
}

/// The width an image must have to hold `[lower, upper)` at the given steps.
pub open spec fn width_for(lower: usize, upper: usize, x_step: usize, sample_step: usize) -> i32 {
    (((upper - lower) * x_step) / sample_step as int) as i32
}

impl WaveformImage {
    pub open spec fn wf(&self) -> bool {
        &&& self.lower <= self.upper
        &&& self.upper <= sample_limit()
        &&& self.sample_step <= sample_limit()
        &&& self.x_step <= sample_limit()
    }

    /// Whether the image holds samples of the stream.
    pub open spec fn holds_samples(&self) -> bool {
        self.lower < self.upper
    }

    pub fn new(id: usize) -> (image: Self)
        ensures
            image.wf(),
            image.id == id,
            !image.is_ready,
            !image.force_redraw,
            image.lower == 0 && image.upper == 0,
            !image.contains_eos,
            !image.has_first && !image.has_last,
            image.sample_step == 0 && image.x_step == 0,
            image.image_width == 0 && image.image_height == 0,
            image.req_width == 0 && image.req_height == 0,
            !image.shareable_state_changed,
    {
        WaveformImage {
            id,
            is_ready: false,
            shareable_state_changed: false,
            image_width: 0,
            image_height: 0,
            req_width: 0,
            req_height: 0,
            force_redraw: false,
            lower: 0,
            upper: 0,
            contains_eos: false,
            has_first: false,
            has_last: false,
            sample_step: 0,
            x_step: 0,
        }
    }

    /// Clears the image for reuse.
    pub fn cleanup(&mut self)
        ensures
            final(self).wf(),
            final(self).image_width == 0 && final(self).image_height == 0,
            final(self).req_width == 0 && final(self).req_height == 0,
            final(self).sample_conditions_cleared(),
            final(self).id == old(self).id,
            final(self).shareable_state_changed == old(self).shareable_state_changed,
    {
        self.image_width = 0;
        self.image_height = 0;
        self.req_width = 0;
        self.req_height = 0;
        self.cleanup_sample_conditions();
    }

    /// The state of an image after [`Self::cleanup_sample_conditions`].
    pub open spec fn sample_conditions_cleared(&self) -> bool {
        &&& !self.is_ready
        &&& !self.force_redraw
        &&& self.lower == 0 && self.upper == 0
        &&& !self.contains_eos
        &&& !self.has_first && !self.has_last
        &&& self.sample_step == 0 && self.x_step == 0
    }

    /// Forgets the rendered samples and the resolution.
    pub fn cleanup_sample_conditions(&mut self)
        ensures
            final(self).wf(),
            final(self).sample_conditions_cleared(),
            final(self).id == old(self).id,
            final(self).image_width == old(self).image_width,
            final(self).image_height == old(self).image_height,
            final(self).req_width == old(self).req_width,
            final(self).req_height == old(self).req_height,
            final(self).shareable_state_changed == old(self).shareable_state_changed,
    {
        self.is_ready = false;
        self.force_redraw = false;
        self.lower = 0;
        self.upper = 0;
        self.contains_eos = false;
        self.has_first = false;
        self.has_last = false;
        self.sample_step = 0;
        self.x_step = 0;
    }

    /// Registers the dimensions of the area where the image is displayed.
    ///
    /// A change in dimensions forces a redraw on next rendering.
    pub fn update_dimensions(&mut self, width: i32, height: i32)
        requires
            old(self).wf(),
        ensures
            final(self).wf(),
            final(self).force_redraw == (old(self).force_redraw || old(self).req_width != width
                || old(self).req_height != height),
            final(self).force_redraw ==> {
                &&& final(self).shareable_state_changed
                &&& final(self).is_ready == (old(self).sample_step != 0)
                &&& final(self).req_width == width
                &&& final(self).req_height == height
            },
            !final(self).force_redraw ==> {
                &&& final(self).shareable_state_changed == old(self).shareable_state_changed
                &&& final(self).is_ready == old(self).is_ready
                &&& final(self).req_width == old(self).req_width
                &&& final(self).req_height == old(self).req_height
            },
            final(self).same_samples(*old(self)),
    {
        self.force_redraw = self.force_redraw || self.req_width != width || self.req_height != height;
        if self.force_redraw {
            self.shareable_state_changed = true;
            self.is_ready = self.sample_step != 0;
            self.req_width = width;
            self.req_height = height;
        }
    }

    /// The image represents the same samples at the same resolution as `other`.
    pub open spec fn same_samples(&self, other: Self) -> bool {
        &&& self.id == other.id
        &&& self.lower == other.lower
        &&& self.upper == other.upper
        &&& self.contains_eos == other.contains_eos
        &&& self.has_first == other.has_first
        &&& self.has_last == other.has_last
        &&& self.sample_step == other.sample_step
        &&& self.x_step == other.x_step
        &&& self.image_width == other.image_width
        &&& self.image_height == other.image_height
    }

    /// Sets the resolution of the image.
    ///
    /// `step_changed` tells whether the fractional sample step differs from the
    /// previous one, `raw_sample_step` is the integral part of the fractional sample
    /// step and `x_step` the number of pixels between two drawn samples.
    pub fn update_sample_step(&mut self, step_changed: bool, raw_sample_step: usize, x_step: usize)
        requires
            old(self).wf(),
            raw_sample_step <= sample_limit(),
            x_step <= sample_limit(),
        ensures
            final(self).wf(),
            final(self).force_redraw == (old(self).force_redraw || step_changed),
            final(self).is_ready == (final(self).force_redraw && old(self).req_width != 0),
            final(self).sample_step == if raw_sample_step == 0 { 1 } else { raw_sample_step },
            final(self).x_step == x_step,
            final(self).shareable_state_changed,
            final(self).lower == old(self).lower && final(self).upper == old(self).upper,
            final(self).contains_eos == old(self).contains_eos,
            final(self).has_first == old(self).has_first,
            final(self).has_last == old(self).has_last,
            final(self).id == old(self).id,
            final(self).req_width == old(self).req_width,
            final(self).req_height == old(self).req_height,
            final(self).image_width == old(self).image_width,
            final(self).image_height == old(self).image_height,
    {
        self.force_redraw = self.force_redraw || step_changed;
        self.is_ready = self.force_redraw && self.req_width != 0;
        self.sample_step = if raw_sample_step == 0 { 1 } else { raw_sample_step };
        self.x_step = x_step;
        self.shareable_state_changed = true;
    }

    pub fn is_ready(&self) -> (r: bool)
        ensures
            r == self.is_ready,
    {
        self.is_ready
    }

    /// Takes over the resolution and requested dimensions of `other`
    /// when they changed since last time.
    pub fn update_from_other(&mut self, other: &mut WaveformImage)
        requires
            old(self).wf(),
            old(other).wf(),
        ensures
            final(self).wf(),
            final(other).wf(),
            old(other).shareable_state_changed ==> {
                &&& final(self).sample_step == old(other).sample_step
                &&& final(self).x_step == old(other).x_step
                &&& final(self).force_redraw == (old(self).force_redraw || old(self).sample_step
                    != old(other).sample_step || old(self).x_step != old(other).x_step)
                &&& final(self).req_width == old(other).req_width
                &&& final(self).req_height == old(other).req_height
                &&& !final(other).shareable_state_changed
            },
            !old(other).shareable_state_changed ==> {
                &&& final(self).sample_step == old(self).sample_step
                &&& final(self).x_step == old(self).x_step
                &&& final(self).force_redraw == old(self).force_redraw
                &&& final(self).req_width == old(self).req_width
                &&& final(self).req_height == old(self).req_height
                &&& final(other).shareable_state_changed == old(other).shareable_state_changed
            },
            final(self).lower == old(self).lower && final(self).upper == old(self).upper,
            final(self).contains_eos == old(self).contains_eos,
            final(self).is_ready == old(self).is_ready,
            final(self).has_first == old(self).has_first,
            final(self).has_last == old(self).has_last,
            final(self).id == old(self).id,
            final(self).image_width == old(self).image_width,
            final(self).image_height == old(self).image_height,
            final(self).shareable_state_changed == old(self).shareable_state_changed,
            final(other).same_samples(*old(other)),
            final(other).is_ready == old(other).is_ready,
            final(other).force_redraw == old(other).force_redraw,
            final(other).req_width == old(other).req_width,
            final(other).req_height == old(other).req_height,
    {
        if other.shareable_state_changed {
            if self.sample_step != other.sample_step || self.x_step != other.x_step {
                self.sample_step = other.sample_step;
                self.x_step = other.x_step;
                self.force_redraw = true;
            }
            self.req_width = other.req_width;
            self.req_height = other.req_height;
            other.shareable_state_changed = false;
        }
    }

    /// Whether the image must be marked as containing the end of stream
    /// for the aligned request `[lower, upper)`.
    pub open spec fn reaches_eos(&self, buffer: AudioBufferBounds, lower: int, upper: int) -> bool {
        ||| buffer.eos && upper == buffer.upper
        ||| self.contains_eos && (upper == self.upper || (!self.force_redraw && lower
            >= self.lower))
    }

    /// The width of the surfaces needed to draw `[lower, upper)`.
    pub open spec fn target_width(&self, lower: usize, upper: usize) -> i32 {
        let needed = width_for(lower, upper, self.x_step, self.sample_step);
        let base = if self.image_width > 0 { self.image_width } else { INIT_WIDTH };
        if base >= needed { base } else { needed }
    }

    /// Whether the current surfaces can be reused to hold `target_width` pixels.
    pub open spec fn surfaces_fit(&self, target_width: i32, force_redraw: bool) -> bool {
        ||| target_width == self.image_width && self.req_height == self.image_height
        ||| force_redraw && target_width <= self.image_width && self.req_height
            == self.image_height
    }

    /// Decides how to render the requested sample range `[lower, upper)` and updates
    /// the bookkeeping accordingly.
    ///
    /// Bounds are first aligned on the sample step so that successive redraws use the
    /// same samples. The previously rendered image is reused whenever possible.
    #[verifier::rlimit(60)]
    pub fn plan_render(&mut self, buffer: AudioBufferBounds, lower: usize, upper: usize) -> (plan:
        RenderPlan)
        requires
            old(self).wf(),
            buffer.wf(),
            old(self).sample_step > 0,
            upper <= sample_limit(),
            upper * old(self).x_step <= usize::MAX,
        ensures
            final(self).wf(),
            ({
                let step = old(self).sample_step as int;
                let al = align_down(lower as int, step);
                let au = align_down(upper as int, step);
                let eos = old(self).reaches_eos(buffer, al, au);
                let l = if al < buffer.lower { al + step } else { al };
                let fr = old(self).force_redraw || !old(self).is_ready;
                if l >= au {
                    // nothing can be drawn: the image is reset
                    &&& plan == RenderPlan { action: RenderAction::Cleared, new_surfaces: false }
                    &&& final(self).lower == 0 && final(self).upper == 0
                    &&& !final(self).has_first && !final(self).has_last
                    &&& !final(self).contains_eos && !final(self).is_ready
                    &&& final(self).force_redraw == old(self).force_redraw
                } else if au < l + 2 * step {
                    // too small to be drawn
                    &&& plan == RenderPlan { action: RenderAction::Nothing, new_surfaces: false }
                    &&& final(self).contains_eos == eos
                    &&& final(self).lower == old(self).lower && final(self).upper == old(
                        self,
                    ).upper
                    &&& final(self).is_ready == old(self).is_ready
                    &&& final(self).force_redraw == old(self).force_redraw
                    &&& final(self).has_first == old(self).has_first
                    &&& final(self).has_last == old(self).has_last
                } else if !fr && l >= old(self).lower && au <= old(self).upper {
                    // already rendered
                    &&& plan == RenderPlan { action: RenderAction::Nothing, new_surfaces: false }
                    &&& final(self).contains_eos == eos
                    &&& final(self).lower == old(self).lower && final(self).upper == old(
                        self,
                    ).upper
                    &&& final(self).is_ready == old(self).is_ready
                    &&& final(self).force_redraw == fr
                } else {
                    let fr2 = fr || au < old(self).lower || l > old(self).upper;
                    let tw = old(self).target_width(l as usize, au as usize);
                    let reuse = old(self).surfaces_fit(tw, fr2);
                    let fr3 = fr2 || !reuse;
                    let bounded_upper = if au <= align_down(buffer.upper as int, step) {
                        au
                    } else {
                        align_down(buffer.upper as int, step)
                    };
                    &&& plan.new_surfaces == !reuse
                    &&& !reuse ==> final(self).image_width == tw && final(self).image_height
                        == old(self).req_height
                    &&& reuse ==> final(self).image_width == old(self).image_width
                        && final(self).image_height == old(self).image_height
                    &&& final(self).contains_eos == eos
                    &&& final(self).is_ready
                    &&& final(self).force_redraw == fr3
                    &&& final(self).lower == old(self).lower && final(self).upper == old(
                        self,
                    ).upper
                    &&& plan.action == if fr3 {
                        RenderAction::Redraw { lower: l as usize, upper: au as usize }
                    } else if l < old(self).lower {
                        if old(self).has_first {
                            RenderAction::AppendLeft { lower: l as usize }
                        } else {
                            RenderAction::Redraw { lower: l as usize, upper: bounded_upper as usize }
                        }
                    } else if old(self).has_last {
                        RenderAction::AppendRight {
                            lower: if l >= old(self).lower { l as usize } else { old(self).lower },
                            upper: au as usize,
                        }
                    } else {
                        RenderAction::Redraw { lower: l as usize, upper: bounded_upper as usize }
                    }
                }
            }),
            final(self).id == old(self).id,
            final(self).sample_step == old(self).sample_step,
            final(self).x_step == old(self).x_step,
            final(self).req_width == old(self).req_width,
            final(self).req_height == old(self).req_height,
            final(self).shareable_state_changed == old(self).shareable_state_changed,
    {
        let ghost upper_in = upper;
        let step = self.sample_step;
        proof {
            lemma_align_down_le(lower as int, step as int);
            lemma_align_down_le(upper as int, step as int);
            lemma_align_down_le(buffer.upper as int, step as int);
        }
        let mut lower = lower / step * step;
        let upper = upper / step * step;
        if buffer.eos && upper == buffer.upper || self.contains_eos && (upper == self.upper || (
        !self.force_redraw && lower >= self.lower)) {
            self.contains_eos = true;
        } else {
            self.contains_eos = false;
        }

        if lower < buffer.lower {
            lower = lower + step;
        }

        if lower >= upper {
            self.lower = 0;
            self.upper = 0;
            self.has_first = false;
            self.has_last = false;
            self.contains_eos = false;
            self.is_ready = false;
            return RenderPlan { action: RenderAction::Cleared, new_surfaces: false };
        }

        if upper < lower + 2 * step {
            return RenderPlan { action: RenderAction::Nothing, new_surfaces: false };
        }

        self.force_redraw = self.force_redraw || !self.is_ready;

        if !self.force_redraw && lower >= self.lower && upper <= self.upper {
            return RenderPlan { action: RenderAction::Nothing, new_surfaces: false };
        } else if upper < self.lower || lower > self.upper {
            self.force_redraw = true;
        }

        proof {
            let d = (upper - lower) as int;
            let x = self.x_step as int;
            assert(d * x <= upper_in * x) by (nonlinear_arith)
                requires
                    0 <= d <= upper_in,
                    0 <= x,
            ;
        }
        let needed = ((upper - lower) * self.x_step / step) as i32;
        let base = if self.image_width > 0 { self.image_width } else { INIT_WIDTH };
        let target_width = if base >= needed { base } else { needed };
        let reuse = (target_width == self.image_width && self.req_height == self.image_height) || (
        self.force_redraw && target_width <= self.image_width && self.req_height
            == self.image_height);
        if !reuse {
            self.force_redraw = true;
            self.image_width = target_width;
            self.image_height = self.req_height;
        }
        let action = if self.force_redraw {
            RenderAction::Redraw { lower, upper }
        } else if lower < self.lower {
            if self.has_first {
                RenderAction::AppendLeft { lower }
            } else {
                let buffer_upper = buffer.upper / step * step;
                RenderAction::Redraw {
                    lower,
                    upper: if upper <= buffer_upper { upper } else { buffer_upper },
                }
            }
        } else if self.has_last {
            RenderAction::AppendRight {
                lower: if lower >= self.lower { lower } else { self.lower },
                upper,
            }
        } else {
            let buffer_upper = buffer.upper / step * step;
            RenderAction::Redraw {
                lower,
                upper: if upper <= buffer_upper { upper } else { buffer_upper },
            }
        };
        self.is_ready = true;
        RenderPlan { action, new_surfaces: !reuse }
    }

    /// Records the outcome of a [`RenderAction::Redraw`] of `[lower, upper)`:
    /// `drawn` tells whether the samples could be drawn.
    pub fn complete_redraw(&mut self, drawn: bool, lower: usize, upper: usize)
        requires
            old(self).wf(),
            lower <= upper <= sample_limit(),
        ensures
            final(self).wf(),
            drawn ==> {
                &&& final(self).lower == lower && final(self).upper == upper
                &&& final(self).has_first && final(self).has_last
                &&& !final(self).force_redraw
            },
            !drawn ==> {
                &&& final(self).lower == old(self).lower && final(self).upper == old(self).upper
                &&& final(self).has_first == old(self).has_first
                &&& final(self).has_last == old(self).has_last
                &&& final(self).force_redraw
            },
            final(self).contains_eos == old(self).contains_eos,
            final(self).is_ready == old(self).is_ready,
            final(self).sample_step == old(self).sample_step,
            final(self).x_step == old(self).x_step,
            final(self).id == old(self).id,
            final(self).image_width == old(self).image_width,
            final(self).image_height == old(self).image_height,
            final(self).req_width == old(self).req_width,
            final(self).req_height == old(self).req_height,
            final(self).shareable_state_changed == old(self).shareable_state_changed,
    {
        if drawn {
            self.has_first = true;
            self.has_last = true;
            self.lower = lower;
            self.upper = upper;
            self.force_redraw = false;
        } else {
            self.force_redraw = true;
        }
    }
}

/// Aligning down never increases a value.
pub proof fn lemma_align_down_le(value: int, step: int)
    requires
        0 <= value,
        0 < step,
    ensures
        0 <= align_down(value, step) <= value,
        align_down(value, step) % step == 0,
{
    assert(0 <= value / step * step <= value) by (nonlinear_arith)
        requires
            0 <= value,
            0 < step,
    ;
    vstd::arithmetic::div_mod::lemma_mod_multiples_basic(value / step, step);
}

} // verus!
