//! The sample window logic of a waveform buffer.
//!
//! A waveform buffer hosts one of the two buffers of the double buffering mechanism
//! used to render the audio waveform. It decides which samples must be rendered
//! and which part of the rendered image is visible, so that the waveform scrolls
//! between frames with the current playback position in the middle, allowing the
//! user to seek forward or backward around the current position.
use vstd::prelude::*;

use crate::waveform_image::{
    align_down, lemma_align_down_le, sample_limit, AudioBufferBounds, RenderPlan, WaveformImage,
};

verus! {

/// Constraint on the first visible sample.
#[derive(Clone, Copy, Debug, PartialEq, Eq, Structural)]
pub enum LockState {
    /// The cursor jumped during playback: keep the waveform steady
    /// and bring the cursor back to the center progressively.
    Playing,
    /// A range is being played: keep the waveform steady.
    PlayingRange,
    /// A range was played: the initial position is being restored.
    RestoringInitialPos,
}

/// The part of the rendered image that is currently visible.
#[derive(Clone, Copy, Debug, PartialEq, Eq)]
pub struct ImageWindow {
    /// The first visible sample.
    pub first_sample: usize,
    /// The first sample of the rendered image.
    pub image_lower: usize,
    /// Samples between the first visible sample and the cursor, if the cursor is visible.
    pub cursor_offset: Option<usize>,
}

pub struct WaveformBuffer {
    /// Duration of a sample, in nanoseconds.
    pub sample_duration: u64,
    pub conditions_changed: bool,

    pub image: WaveformImage,

    pub previous_sample: usize,
    pub current_sample: usize,
    /// The sample currently under the cursor (differs from `current_sample` during seeks).
    pub cursor_sample: usize,
    /// The timestamp at the cursor's position.
    pub cursor_position: u64,
    pub first_visible_sample: Option<usize>,
    /// A constraint on the first visible sample: (first sample, lock state).
    pub first_visible_sample_lock: Option<(i64, LockState)>,
    pub sought_sample: Option<usize>,

    /// During playback, the stream of incoming samples refreshes the waveform.
    /// When the end of the stream is reached, no more samples are received,
    /// so the refresh must be forced in order to compute the samples window.
    pub playback_needs_refresh: bool,

    pub req_sample_window: usize,
    pub half_req_sample_window: usize,
    pub quarter_req_sample_window: usize,
}

/// Upper bound for the first visible sample and its lock.
pub open spec fn window_limit() -> int {
    3 * sample_limit()
}

pub open spec fn max_int(a: int, b: int) -> int {
    if a >= b { a } else { b }
}

pub open spec fn min_int(a: int, b: int) -> int {
    if a <= b { a } else { b }
}

impl WaveformBuffer {
    pub open spec fn wf(&self) -> bool {
        &&& self.image.wf()
        &&& self.previous_sample <= sample_limit()
        &&& self.current_sample <= sample_limit()
        &&& self.cursor_sample <= sample_limit()
        &&& self.first_visible_sample matches Some(f) ==> f <= window_limit()
        &&& self.first_visible_sample_lock matches Some((l, _)) ==> 0 <= l <= window_limit()
        &&& self.sought_sample matches Some(s) ==> s <= sample_limit()
        &&& self.req_sample_window <= sample_limit()
        &&& self.req_sample_window == 2 * self.half_req_sample_window
        &&& self.quarter_req_sample_window == self.half_req_sample_window / 2
    }

    /// The position state of `self` is that of `other`.
    pub open spec fn same_positions(&self, other: Self) -> bool {
        &&& self.previous_sample == other.previous_sample
        &&& self.current_sample == other.current_sample
        &&& self.cursor_sample == other.cursor_sample
        &&& self.cursor_position == other.cursor_position
        &&& self.first_visible_sample == other.first_visible_sample
        &&& self.first_visible_sample_lock == other.first_visible_sample_lock
        &&& self.sought_sample == other.sought_sample
    }

    /// The sample conditions of `self` are those of `other`.
    pub open spec fn same_conditions(&self, other: Self) -> bool {
        &&& self.sample_duration == other.sample_duration
        &&& self.conditions_changed == other.conditions_changed
        &&& self.req_sample_window == other.req_sample_window
        &&& self.half_req_sample_window == other.half_req_sample_window
        &&& self.quarter_req_sample_window == other.quarter_req_sample_window
    }

    /// The state of the positions after `reset_sample_conditions`.
    pub open spec fn positions_cleared(&self) -> bool {
        &&& self.previous_sample == 0
        &&& self.current_sample == 0
        &&& self.cursor_sample == 0
        &&& self.cursor_position == 0
        &&& self.first_visible_sample is None
        &&& self.first_visible_sample_lock is None
        &&& self.sought_sample is None
        &&& !self.playback_needs_refresh
        &&& self.req_sample_window == 0
        &&& self.half_req_sample_window == 0
        &&& self.quarter_req_sample_window == 0
    }

    pub fn new(id: usize) -> (buffer: Self)
        ensures
            buffer.wf(),
            buffer.image.id == id,
            buffer.image.sample_conditions_cleared(),
            buffer.positions_cleared(),
            buffer.sample_duration == 0,
            !buffer.conditions_changed,
    {
        WaveformBuffer {
            sample_duration: 0,
            conditions_changed: false,
            image: WaveformImage::new(id),
            previous_sample: 0,
            current_sample: 0,
            cursor_sample: 0,
            cursor_position: 0,
            first_visible_sample: None,
            first_visible_sample_lock: None,
            sought_sample: None,
            playback_needs_refresh: false,
            req_sample_window: 0,
            half_req_sample_window: 0,
            quarter_req_sample_window: 0,
        }
    }

    fn reset(&mut self)
        requires
            old(self).wf(),
        ensures
            final(self).wf(),
            !final(self).conditions_changed,
            final(self).positions_cleared(),
            final(self).image.sample_conditions_cleared(),
            final(self).image.image_width == 0 && final(self).image.image_height == 0,
            final(self).image.req_width == 0 && final(self).image.req_height == 0,
            final(self).image.id == old(self).image.id,
            final(self).sample_duration == old(self).sample_duration,
    {
        self.conditions_changed = false;
        self.reset_sample_conditions();
        self.image.cleanup();
    }

    /// Forgets the positions and the sample window.
    pub fn reset_sample_conditions(&mut self)
        requires
            old(self).wf(),
        ensures
            final(self).wf(),
            final(self).positions_cleared(),
            final(self).image.sample_conditions_cleared(),
            final(self).image.id == old(self).image.id,
            final(self).image.image_width == old(self).image.image_width,
            final(self).image.image_height == old(self).image.image_height,
            final(self).image.req_width == old(self).image.req_width,
            final(self).image.req_height == old(self).image.req_height,
            final(self).image.shareable_state_changed == old(self).image.shareable_state_changed,
            final(self).sample_duration == old(self).sample_duration,
            final(self).conditions_changed == old(self).conditions_changed,
    {
        self.previous_sample = 0;
        self.current_sample = 0;
        self.cursor_sample = 0;
        self.cursor_position = 0;
        self.first_visible_sample = None;
        self.first_visible_sample_lock = None;
        self.sought_sample = None;
        self.playback_needs_refresh = false;
        self.req_sample_window = 0;
        self.half_req_sample_window = 0;
        self.quarter_req_sample_window = 0;
        self.image.cleanup_sample_conditions();
    }

    /// The sample that a seek to `position` targets, aligned on the sample step.
    pub open spec fn sought_sample_for(&self, position: u64) -> usize {
        align_down(
            ((position / self.sample_duration) as usize) as int,
            self.image.sample_step as int,
        ) as usize
    }

    /// Whether a seek to `position` can be handled.
    pub open spec fn can_seek_to(&self, position: u64) -> bool {
        self.image.sample_step == 0 || (self.sample_duration > 0 && position / self.sample_duration
            <= sample_limit())
    }

    /// The lock set by a seek during playback to `sought`.
    pub open spec fn playing_seek_lock(&self, sought: usize) -> Option<(i64, LockState)> {
        match self.first_visible_sample {
            Some(first) => if sought >= first && sought <= first + self.req_sample_window
                && self.image.upper - self.image.lower >= self.req_sample_window {
                Some((first as i64, LockState::Playing))
            } else {
                None
            },
            None => None,
        }
    }

    /// The state after a seek to `position`.
    pub open spec fn after_seek(self, position: u64, is_playing: bool) -> Self {
        if self.image.sample_step == 0 {
            self
        } else {
            let sought = self.sought_sample_for(position);
            let (first, lock) = if is_playing {
                (self.first_visible_sample, self.playing_seek_lock(sought))
            } else {
                match self.first_visible_sample_lock {
                    Some((f, LockState::PlayingRange)) => (
                        Some(f as usize),
                        Some((f, LockState::RestoringInitialPos)),
                    ),
                    _ => (None, None),
                }
            };
            WaveformBuffer {
                sought_sample: Some(sought),
                cursor_sample: sought,
                first_visible_sample: first,
                first_visible_sample_lock: lock,
                ..self
            }
        }
    }

    /// The state after starting a range playback.
    pub open spec fn after_start_play_range(self) -> Self {
        if self.image.sample_step != 0 && self.first_visible_sample is Some {
            WaveformBuffer {
                first_visible_sample_lock: Some(
                    (self.first_visible_sample->0 as i64, LockState::PlayingRange),
                ),
                ..self
            }
        } else {
            self
        }
    }

    /// The state after switching to paused.
    pub open spec fn after_switch_to_paused(self) -> Self {
        match self.first_visible_sample_lock {
            Some((_, LockState::PlayingRange)) | Some((_, LockState::RestoringInitialPos)) => self,
            _ => WaveformBuffer {
                first_visible_sample: None,
                first_visible_sample_lock: None,
                ..self
            },
        }
    }

    /// Moves the cursor to the sample at `position`.
    ///
    /// While playing, the first visible sample is locked when the sought sample is
    /// visible so that the waveform doesn't scroll abruptly. When not playing, the
    /// position preceding a range playback is restored if a range was played.
    pub fn seek(&mut self, position: u64, is_playing: bool)
        requires
            old(self).wf(),
            old(self).can_seek_to(position),
        ensures
            final(self).wf(),
            *final(self) == old(self).after_seek(position, is_playing),
    {
        if self.image.sample_step == 0 {
            return ;
        }
        let step = self.image.sample_step;
        let sample = (position / self.sample_duration) as usize;
        proof {
            lemma_align_down_le(sample as int, step as int);
        }
        let sought_sample = sample / step * step;

        if is_playing {
            match self.first_visible_sample {
                Some(first_visible_sample) => {
                    if sought_sample >= first_visible_sample && sought_sample <= first_visible_sample
                        + self.req_sample_window && self.image.upper - self.image.lower
                        >= self.req_sample_window {
                        self.first_visible_sample_lock = Some(
                            (first_visible_sample as i64, LockState::Playing),
                        );
                    } else {
                        self.first_visible_sample_lock = None;
                    }
                },
                None => {
                    self.first_visible_sample_lock = None;
                },
            }
        } else {
            self.first_visible_sample = match self.first_visible_sample_lock {
                Some((first_visible_sample, lock_state)) => match lock_state {
                    LockState::PlayingRange => {
                        self.first_visible_sample_lock = Some(
                            (first_visible_sample, LockState::RestoringInitialPos),
                        );
                        Some(first_visible_sample as usize)
                    },
                    _ => {
                        self.first_visible_sample_lock = None;
                        None
                    },
                },
                None => None,
            };
        }

        self.sought_sample = Some(sought_sample);
        self.cursor_sample = sought_sample;
    }

    /// Locks the first visible sample while a range is being played.
    pub fn start_play_range(&mut self)
        requires
            old(self).wf(),
        ensures
            final(self).wf(),
            *final(self) == old(self).after_start_play_range(),
    {
        if self.image.sample_step == 0 {
            return ;
        }
        if let Some(first_visible_sample) = self.first_visible_sample {
            self.first_visible_sample_lock = Some(
                (first_visible_sample as i64, LockState::PlayingRange),
            );
        }
    }

    /// Whether the position `(position, sample)` queried from the pipeline can be taken into account.
    pub open spec fn can_refresh_position(&self, sample: usize) -> bool {
        &&& sample <= sample_limit()
        &&& (self.previous_sample != sample && self.image.contains_eos) ==> self.image.upper > 0
    }

    /// The state after taking the current playback position into account.
    pub open spec fn refreshed(self, position: u64, sample: usize) -> Self {
        if self.previous_sample != sample {
            let sample = if self.image.contains_eos && sample >= self.image.upper {
                (self.image.upper - 1) as usize
            } else {
                sample
            };
            WaveformBuffer {
                previous_sample: match self.sought_sample {
                    None => self.current_sample,
                    Some(_) => sample,
                },
                sought_sample: None,
                current_sample: sample,
                cursor_sample: sample,
                cursor_position: position,
                ..self
            }
        } else {
            self
        }
    }

    /// Takes the current playback position `position`, at sample `sample`, into account.
    pub fn refresh_position(&mut self, position: u64, sample: usize)
        requires
            old(self).wf(),
            old(self).can_refresh_position(sample),
        ensures
            final(self).wf(),
            *final(self) == old(self).refreshed(position, sample),
    {
        let mut sample = sample;
        if self.previous_sample != sample {
            if self.image.contains_eos && sample >= self.image.upper {
                sample = self.image.upper - 1;
            }
            match self.sought_sample.take() {
                None => {
                    self.previous_sample = self.current_sample;
                },
                Some(_) => {
                    // the stream has synchronized after a seek:
                    // reset previous_sample because of the discontinuity
                    self.previous_sample = sample;
                },
            }
            self.current_sample = sample;
            self.cursor_sample = sample;
            self.cursor_position = position;
        }
    }

    /// The first visible sample when a `Playing` lock at `lock` constrains it.
    /// Returns (first visible sample, lock, sought sample).
    pub open spec fn playing_lock_outcome(self, lock: i64) -> (
        Option<usize>,
        Option<(i64, LockState)>,
        Option<usize>,
    ) {
        let step = self.image.sample_step as int;
        let offset_to_center = self.cursor_sample - self.half_req_sample_window - lock;
        if offset_to_center < -(2 * step) {
            // cursor in first half of the window: keep origin
            (Some(lock as usize), Some((lock, LockState::Playing)), self.sought_sample)
        } else if 0 <= offset_to_center <= 2 * step {
            // reached the center: keep cursor there
            (
                Some(
                    max_int(
                        self.image.lower as int,
                        self.cursor_sample - self.half_req_sample_window,
                    ) as usize,
                ),
                None,
                None,
            )
        } else if lock + self.req_sample_window < self.image.upper {
            // cursor on the right half: progressively get it back to center
            let next_lower = max_int(
                self.image.lower as int,
                2 * self.cursor_sample - 2 * self.previous_sample + lock,
            );
            (
                Some(next_lower as usize),
                Some((next_lower as i64, LockState::Playing)),
                self.sought_sample,
            )
        } else if self.image.lower + self.req_sample_window < self.image.upper {
            // not enough overhead: follow toward the last sample
            let next_lower = self.image.upper - self.req_sample_window;
            (
                Some(next_lower as usize),
                if !self.image.contains_eos {
                    Some((next_lower as i64, LockState::Playing))
                } else {
                    None
                },
                self.sought_sample,
            )
        } else {
            (Some(self.image.lower), None, self.sought_sample)
        }
    }

    /// The first visible sample when no lock constrains it and the cursor is after the
    /// image's first sample.
    pub open spec fn unlocked_first_visible(self) -> Option<usize> {
        let cursor = self.cursor_sample as int;
        let lower = self.image.lower as int;
        let upper = self.image.upper as int;
        let half = self.half_req_sample_window as int;
        let window = self.req_sample_window as int;
        if cursor + half <= upper {
            if cursor > lower + half {
                // cursor can be centered
                Some((cursor - half) as usize)
            } else {
                Some(self.image.lower)
            }
        } else if cursor >= upper {
            if upper + window >= cursor {
                if cursor > lower + window {
                    Some((cursor - window) as usize)
                } else {
                    Some(self.image.lower)
                }
            } else {
                // cursor no longer in range
                None
            }
        } else if lower + window < upper {
            Some((upper - window) as usize)
        } else {
            Some(self.image.lower)
        }
    }

    /// The state after computing the first sample to display from `self`
    /// (whose position is up to date).
    pub open spec fn with_first_visible(self) -> Self {
        if self.cursor_sample >= self.image.lower {
            match self.first_visible_sample_lock {
                Some((lock, LockState::Playing)) => {
                    let (first, new_lock, sought) = self.playing_lock_outcome(lock);
                    WaveformBuffer {
                        first_visible_sample: first,
                        first_visible_sample_lock: new_lock,
                        sought_sample: sought,
                        ..self
                    }
                },
                Some((lock, LockState::PlayingRange)) => WaveformBuffer {
                    first_visible_sample: Some(lock as usize),
                    ..self
                },
                Some((lock, LockState::RestoringInitialPos)) => WaveformBuffer {
                    first_visible_sample: Some(lock as usize),
                    first_visible_sample_lock: None,
                    sought_sample: None,
                    ..self
                },
                None => WaveformBuffer {
                    first_visible_sample: self.unlocked_first_visible(),
                    ..self
                },
            }
        } else if self.cursor_sample + self.req_sample_window > self.image.lower {
            // cursor is close enough to the image: render what can be rendered
            WaveformBuffer { first_visible_sample: Some(self.image.lower), ..self }
        } else {
            // cursor before the image: wait until situation clarifies
            WaveformBuffer { first_visible_sample: None, ..self }
        }
    }

    /// The state after updating to the current position `(position, sample)`
    /// and computing the first sample to display.
    pub open spec fn updated_first_visible(self, position: u64, sample: usize) -> Self {
        if self.image.is_ready {
            self.refreshed(position, sample).with_first_visible()
        } else {
            WaveformBuffer { first_visible_sample: None, ..self }
        }
    }

    proof fn lemma_with_first_visible_wf(self)
        requires
            self.wf(),
        ensures
            self.with_first_visible().wf(),
    {
    }

    /// Updates to the current position and computes the first sample to display.
    #[verifier::rlimit(80)]
    fn update_first_visible_sample(&mut self, position: u64, sample: usize)
        requires
            old(self).wf(),
            old(self).can_refresh_position(sample),
        ensures
            final(self).wf(),
            *final(self) == old(self).updated_first_visible(position, sample),
    {
        if !self.image.is_ready() {
            self.first_visible_sample = None;
            return ;
        }
        self.refresh_position(position, sample);
        proof {
            self.lemma_with_first_visible_wf();
        }
        let ghost refreshed = *self;

        if self.cursor_sample >= self.image.lower {
            match self.first_visible_sample_lock {
                Some((first_visible_sample_lock, lock_state)) => {
                    match lock_state {
                        LockState::Playing => {
                            self.first_visible_sample_lock = None;
                            let step = self.image.sample_step as i64;
                            let offset_to_center = self.cursor_sample as i64
                                - self.half_req_sample_window as i64 - first_visible_sample_lock;
                            if offset_to_center < -(2 * step) {
                                // cursor in first half of the window
                                // keep origin on the first sample upon seek
                                self.first_visible_sample_lock = Some(
                                    (first_visible_sample_lock, lock_state),
                                );
                                self.first_visible_sample = Some(
                                    first_visible_sample_lock as usize,
                                );
                            } else if 0 <= offset_to_center && offset_to_center <= 2 * step {
                                // reached the center => keep cursor there
                                self.sought_sample = None;
                                let centered = self.cursor_sample - self.half_req_sample_window;
                                self.first_visible_sample = Some(
                                    if self.image.lower >= centered {
                                        self.image.lower
                                    } else {
                                        centered
                                    },
                                );
                            } else if (first_visible_sample_lock as usize) + self.req_sample_window
                                < self.image.upper {
                                // Cursor is on the right half of the window
                                // and the target sample window doesn't exceed the end
                                // of the rendered waveform yet
                                // => progressively get cursor back to center
                                let previous_offset = self.previous_sample as i64
                                    - first_visible_sample_lock;
                                let delta_cursor = self.cursor_sample as i64
                                    - self.previous_sample as i64;
                                let candidate = self.cursor_sample as i64 - previous_offset
                                    + delta_cursor;
                                let lower = self.image.lower as i64;
                                let next_lower = if lower >= candidate {
                                    lower
                                } else {
                                    candidate
                                };
                                self.first_visible_sample_lock = Some(
                                    (next_lower, LockState::Playing),
                                );
                                self.first_visible_sample = Some(next_lower as usize);
                            } else {
                                // Not enough overhead to get cursor back to center
                                // Follow toward the last sample
                                let next_lower = if self.image.lower + self.req_sample_window
                                    < self.image.upper {
                                    // buffer window is larger than req_sample_window
                                    // set last buffer to the right
                                    let next_lower = self.image.upper - self.req_sample_window;
                                    if !self.image.contains_eos {
                                        // but keep the constraint in case more samples
                                        // are added afterward
                                        self.first_visible_sample_lock = Some(
                                            (next_lower as i64, LockState::Playing),
                                        );
                                    }
                                    next_lower
                                } else {
                                    // buffer window is smaller than req_sample_window
                                    // set first sample to the left
                                    self.image.lower
                                };
                                self.first_visible_sample = Some(next_lower);
                            }
                        },
                        LockState::PlayingRange => {
                            // keep origin on the first sample upon seek
                            self.first_visible_sample = Some(first_visible_sample_lock as usize);
                        },
                        LockState::RestoringInitialPos => {
                            self.first_visible_sample_lock = None;
                            self.sought_sample = None;
                            self.first_visible_sample = Some(first_visible_sample_lock as usize);
                        },
                    }
                },
                None => {
                    let cursor = self.cursor_sample;
                    let lower = self.image.lower;
                    let upper = self.image.upper;
                    let half = self.half_req_sample_window;
                    let window = self.req_sample_window;
                    self.first_visible_sample = if cursor + half <= upper {
                        // cursor fits in the first half of the window with last sample further
                        if cursor > lower + half {
                            // cursor can be centered
                            Some(cursor - half)
                        } else {
                            // cursor before half of displayable window:
                            // set origin to the first sample in the buffer
                            Some(lower)
                        }
                    } else if cursor >= upper {
                        // cursor appears after image last sample
                        if upper + window >= cursor {
                            // rebase image attempting to keep in range
                            // even if samples are not rendered yet
                            if cursor > lower + window {
                                Some(cursor - window)
                            } else {
                                Some(lower)
                            }
                        } else {
                            // cursor no longer in range, 2 cases:
                            // - seeking forward
                            // - zoomed-in too much to keep up with the audio stream
                            None
                        }
                    } else if lower + window < upper {
                        // buffer window is larger than req_sample_window
                        // set last buffer to the right
                        Some(upper - window)
                    } else {
                        // buffer window is smaller than req_sample_window
                        // set first sample to the left
                        Some(lower)
                    };
                },
            }
        } else if self.cursor_sample + self.req_sample_window > self.image.lower {
            // cursor is close enough to the image
            // => render what can be rendered
            self.first_visible_sample = Some(self.image.lower);
        } else {
            // cursor_sample appears before image first sample
            // => wait until situation clarifies
            self.first_visible_sample = None;
        }
        assert(*self == refreshed.with_first_visible());
    }

    /// Sets the requested sample window to `2 * half_req_sample_window` samples.
    ///
    /// The window holds an even number of samples so that the cursor can be centered.
    pub fn set_sample_window(&mut self, half_req_sample_window: usize)
        requires
            old(self).wf(),
            2 * half_req_sample_window <= sample_limit(),
        ensures
            final(self).wf(),
            *final(self) == (WaveformBuffer {
                req_sample_window: (2 * half_req_sample_window) as usize,
                half_req_sample_window,
                quarter_req_sample_window: half_req_sample_window / 2,
                conditions_changed: true,
                ..*old(self)
            }),
    {
        self.req_sample_window = half_req_sample_window * 2;
        self.quarter_req_sample_window = half_req_sample_window / 2;
        self.half_req_sample_window = half_req_sample_window;
        self.conditions_changed = true;
    }

    /// Sets the resolution of the waveform: see [`WaveformImage::update_sample_step`].
    pub fn update_sample_step(&mut self, step_changed: bool, raw_sample_step: usize, x_step: usize)
        requires
            old(self).wf(),
            raw_sample_step <= sample_limit(),
            x_step <= sample_limit(),
        ensures
            final(self).wf(),
            final(self).conditions_changed,
            final(self).same_positions(*old(self)),
            final(self).playback_needs_refresh == old(self).playback_needs_refresh,
            final(self).sample_duration == old(self).sample_duration,
            final(self).req_sample_window == old(self).req_sample_window,
            final(self).half_req_sample_window == old(self).half_req_sample_window,
            final(self).quarter_req_sample_window == old(self).quarter_req_sample_window,
            final(self).image.sample_step == if raw_sample_step == 0 { 1 } else { raw_sample_step },
            final(self).image.x_step == x_step,
            final(self).image.force_redraw == (old(self).image.force_redraw || step_changed),
            final(self).image.is_ready == (final(self).image.force_redraw && old(
                self,
            ).image.req_width != 0),
            final(self).image.lower == old(self).image.lower,
            final(self).image.upper == old(self).image.upper,
    {
        self.conditions_changed = true;
        self.image.update_sample_step(step_changed, raw_sample_step, x_step);
    }

    /// Moves the first visible sample to `new_first_visible_sample` after a change
    /// of zoom or width, keeping the lock constraint, if any, in sync.
    ///
    /// When the new first sample falls within the first sample step, the first
    /// visible sample is dropped so that the next refresh computes the best range.
    pub fn rebase_first_visible_sample(&mut self, new_first_visible_sample: i64)
        requires
            old(self).wf(),
            new_first_visible_sample <= window_limit(),
        ensures
            final(self).wf(),
            *final(self) == match old(self).first_visible_sample {
                Some(_) => if new_first_visible_sample > old(self).image.sample_step {
                    WaveformBuffer {
                        first_visible_sample: Some(new_first_visible_sample as usize),
                        first_visible_sample_lock: match old(self).first_visible_sample_lock {
                            Some((_, state)) => Some((new_first_visible_sample, state)),
                            None => None,
                        },
                        ..*old(self)
                    }
                } else {
                    WaveformBuffer { first_visible_sample: None, ..*old(self) }
                },
                None => *old(self),
            },
    {
        if self.first_visible_sample.is_some() {
            if new_first_visible_sample > self.image.sample_step as i64 {
                if let Some((_first_visible_sample_lock, lock_state)) =
                    self.first_visible_sample_lock {
                    self.first_visible_sample_lock = Some((new_first_visible_sample, lock_state));
                }
                self.first_visible_sample = Some(new_first_visible_sample as usize);
            } else {
                self.first_visible_sample = None;
            }
        }
    }

    /// The visible part of the image for the state `self`.
    pub open spec fn window_of(self) -> Option<ImageWindow> {
        match self.first_visible_sample {
            Some(first) => Some(
                ImageWindow {
                    first_sample: first,
                    image_lower: self.image.lower,
                    cursor_offset: if self.cursor_sample >= first && self.cursor_sample <= first
                        + self.req_sample_window {
                        Some((self.cursor_sample - first) as usize)
                    } else {
                        None
                    },
                },
            ),
            None => None,
        }
    }

    /// Updates to the current position `(position, sample)` and returns the timestamp at
    /// the cursor together with the part of the image to display.
    ///
    /// This is to be called as close as possible to the actual presentation of the waveform.
    pub fn get_image(&mut self, position: u64, sample: usize) -> (r: (u64, Option<ImageWindow>))
        requires
            old(self).wf(),
            old(self).can_refresh_position(sample),
        ensures
            final(self).wf(),
            *final(self) == old(self).updated_first_visible(position, sample),
            r == (final(self).cursor_position, final(self).window_of()),
    {
        self.update_first_visible_sample(position, sample);
        match self.first_visible_sample {
            Some(first_visible_sample) => {
                let cursor_offset = if self.cursor_sample >= first_visible_sample
                    && self.cursor_sample <= first_visible_sample + self.req_sample_window {
                    Some(self.cursor_sample - first_visible_sample)
                } else {
                    None
                };
                (
                    self.cursor_position,
                    Some(
                        ImageWindow {
                            first_sample: first_visible_sample,
                            image_lower: self.image.lower,
                            cursor_offset,
                        },
                    ),
                )
            },
            None => (self.cursor_position, None),
        }
    }

    /// How the image and the audio buffer `buffer` can be merged:
    /// the merged range, or `None` when they can't be merged.
    pub open spec fn merged_range(self, buffer: AudioBufferBounds) -> Option<(int, int)> {
        let il = self.image.lower as int;
        let iu = self.image.upper as int;
        if buffer.lower <= il && buffer.upper >= iu {
            // image contained in buffer
            Some((buffer.lower as int, buffer.upper as int))
        } else if buffer.lower >= il && buffer.lower < iu {
            // buffer can be merged with the image or is contained in the image
            Some((il, max_int(buffer.upper as int, iu)))
        } else if buffer.lower < il && buffer.upper >= il {
            // image overlaps with buffer on its left
            Some((buffer.lower as int, max_int(buffer.upper as int, iu)))
        } else {
            None
        }
    }

    /// The range to extract from `[lower, upper)` given the current window, if one can
    /// be found, and the state after looking for it.
    pub open spec fn extraction_range(self, lower: int, upper: int) -> (Self, Option<(int, int)>) {
        let window = self.req_sample_window as int;
        let half = self.half_req_sample_window as int;
        let quarter = self.quarter_req_sample_window as int;
        let cursor = self.cursor_sample as int;
        if upper - lower <= window {
            // image can use the full window
            (
                WaveformBuffer {
                    first_visible_sample: None,
                    first_visible_sample_lock: None,
                    ..self
                },
                Some((lower, upper)),
            )
        } else {
            match self.first_visible_sample {
                Some(first) => if cursor >= first && cursor < first + window {
                    // cursor is still in the window => keep it
                    (self, Some((first as int, min_int(upper, first + window + half))))
                } else {
                    match self.first_visible_sample_lock {
                        None => if self.playback_needs_refresh {
                            (self, Some((first as int, upper)))
                        } else {
                            (WaveformBuffer { first_visible_sample: None, ..self }, None)
                        },
                        Some((_, LockState::Playing)) => (
                            WaveformBuffer {
                                first_visible_sample: None,
                                first_visible_sample_lock: None,
                                ..self
                            },
                            None,
                        ),
                        Some((lock, _)) => (
                            self,
                            Some((lock as int, min_int(upper, lock + window + half))),
                        ),
                    }
                },
                None => if cursor > lower + half && cursor < upper {
                    if cursor + half < upper {
                        // cursor can be centered
                        (self, Some((cursor - half, min_int(upper, cursor + window))))
                    } else if upper > lower + window + quarter {
                        (self, Some((upper - window - quarter, upper)))
                    } else if upper > lower + window {
                        (self, Some((upper - window, upper)))
                    } else {
                        (self, None)
                    }
                } else {
                    (self, None)
                },
            }
        }
    }

    /// The state after computing the sample range to render from `buffer`,
    /// and that sample range.
    pub open spec fn sample_range(self, buffer: AudioBufferBounds) -> (Self, (usize, usize)) {
        let (merged, lower, upper) = match self.merged_range(buffer) {
            Some((lower, upper)) => (self, lower, upper),
            None => (
                WaveformBuffer {
                    first_visible_sample: None,
                    first_visible_sample_lock: None,
                    ..self
                },
                buffer.segment_lower as int,
                buffer.upper as int,
            ),
        };
        let (state, range) = merged.extraction_range(lower, upper);
        (
            state,
            match range {
                Some((l, u)) => (l as usize, u as usize),
                None => (
                    buffer.segment_lower,
                    min_int(
                        buffer.upper as int,
                        buffer.segment_lower + self.req_sample_window
                            + self.half_req_sample_window,
                    ) as usize,
                ),
            },
        )
    }

    /// While the cursor lies in the visible window, which starts at the first visible
    /// sample, and the image and the buffer merge into more than a window, the first
    /// visible sample is kept and the range rendered starts there and covers the whole
    /// visible window, as far as the merged samples reach.
    pub proof fn lemma_visible_window_rendered(self, buffer: AudioBufferBounds)
        requires
            self.wf(),
            buffer.wf(),
            self.merged_range(buffer) matches Some((lower, upper)) && upper - lower
                > self.req_sample_window,
            self.first_visible_sample matches Some(first) && first <= self.cursor_sample < first
                + self.req_sample_window,
        ensures
            ({
                let (state, range) = self.sample_range(buffer);
                let upper = self.merged_range(buffer)->Some_0.1;
                let first = self.first_visible_sample->Some_0;
                &&& state.first_visible_sample == Some(first)
                &&& range.0 == first
                &&& min_int(upper, first + self.req_sample_window) <= range.1 <= upper
            }),
    {
        self.lemma_sample_range_wf(buffer);
    }

    proof fn lemma_sample_range_wf(self, buffer: AudioBufferBounds)
        requires
            self.wf(),
            buffer.wf(),
        ensures
            self.sample_range(buffer).0.wf(),
            self.sample_range(buffer).1.1 <= max_int(buffer.upper as int, self.image.upper as int),
    {
    }

    /// Computes the sample range to render, merging the current image with the audio
    /// buffer and adapting to the position of the cursor.
    #[verifier::rlimit(80)]
    pub fn get_sample_range(&mut self, buffer: AudioBufferBounds) -> (range: (usize, usize))
        requires
            old(self).wf(),
            buffer.wf(),
        ensures
            final(self).wf(),
            (*final(self), range) == old(self).sample_range(buffer),
            range.1 <= max_int(buffer.upper as int, old(self).image.upper as int),
    {
        proof {
            self.lemma_sample_range_wf(buffer);
        }
        let ghost initial = *self;
        // First step: see how current waveform and the buffer can merge
        let (lower, upper) = if buffer.lower <= self.image.lower && buffer.upper
            >= self.image.upper {
            // waveform contained in buffer => regular case
            (buffer.lower, buffer.upper)
        } else if buffer.lower >= self.image.lower && buffer.lower < self.image.upper {
            // last segment further than current image origin
            // but buffer can be merged with current waveform
            // or is contained in current waveform
            (
                self.image.lower,
                if buffer.upper >= self.image.upper {
                    buffer.upper
                } else {
                    self.image.upper
                },
            )
        } else if buffer.lower < self.image.lower && buffer.upper >= self.image.lower {
            // current waveform overlaps with buffer on its left
            // or is contained in buffer
            (
                buffer.lower,
                if buffer.upper >= self.image.upper {
                    buffer.upper
                } else {
                    self.image.upper
                },
            )
        } else {
            // not able to merge buffer with current waveform
            // synchronize on latest segment received
            self.first_visible_sample = None;
            self.first_visible_sample_lock = None;
            (buffer.segment_lower, buffer.upper)
        };
        let ghost merged = *self;

        let window = self.req_sample_window;
        let half = self.half_req_sample_window;
        let quarter = self.quarter_req_sample_window;
        let cursor = self.cursor_sample;

        // Second step: find the range to display
        let extraction_range = if upper - lower <= window {
            // image can use the full window
            self.first_visible_sample = None;
            self.first_visible_sample_lock = None;
            Some((lower, upper))
        } else {
            match self.first_visible_sample {
                Some(first_visible_sample) => {
                    if cursor >= first_visible_sample && cursor < first_visible_sample + window {
                        // cursor is still in the window => keep it
                        let end = first_visible_sample + window + half;
                        Some((first_visible_sample, if upper <= end { upper } else { end }))
                    } else {
                        match self.first_visible_sample_lock {
                            None => {
                                if self.playback_needs_refresh {
                                    // refresh to the full available range
                                    Some((first_visible_sample, upper))
                                } else {
                                    self.first_visible_sample = None;
                                    None
                                }
                            },
                            Some((lock, lock_state)) => match lock_state {
                                LockState::Playing => {
                                    self.first_visible_sample = None;
                                    self.first_visible_sample_lock = None;
                                    None
                                },
                                LockState::PlayingRange | LockState::RestoringInitialPos => {
                                    // keep position
                                    let lock = lock as usize;
                                    let end = lock + window + half;
                                    Some((lock, if upper <= end { upper } else { end }))
                                },
                            },
                        }
                    }
                },
                None => {
                    if cursor > lower + half && cursor < upper {
                        // cursor can be centered or is in second half of the window
                        if cursor + half < upper {
                            // cursor can be centered
                            let end = cursor + window;
                            Some((cursor - half, if upper <= end { upper } else { end }))
                        } else if upper > lower + window + quarter {
                            // cursor in second half: attempt to get an optimal range
                            Some((upper - window - quarter, upper))
                        } else if upper > lower + window {
                            Some((upper - window, upper))
                        } else {
                            // use defaults
                            None
                        }
                    } else {
                        // cursor in first half or before range: use defaults
                        None
                    }
                },
            }
        };
        assert(*self == merged.extraction_range(lower as int, upper as int).0);
        assert(match extraction_range {
            Some((l, u)) => merged.extraction_range(lower as int, upper as int).1 == Some(
                (l as int, u as int),
            ),
            None => merged.extraction_range(lower as int, upper as int).1 is None,
        });

        // Third step: fallback to defaults if previous step failed
        match extraction_range {
            Some(range) => range,
            None => {
                let end = buffer.segment_lower + window + half;
                (buffer.segment_lower, if buffer.upper <= end { buffer.upper } else { end })
            },
        }
    }

    /// The first sample that the extraction of samples should consider.
    pub fn get_lower(&self) -> (r: usize)
        requires
            self.wf(),
        ensures
            r == match self.first_visible_sample {
                Some(sample) => if sample > self.half_req_sample_window {
                    (sample - self.half_req_sample_window) as usize
                } else {
                    sample
                },
                None => self.image.lower,
            },
    {
        match self.first_visible_sample {
            Some(sample) => if sample > self.half_req_sample_window {
                sample - self.half_req_sample_window
            } else {
                sample
            },
            None => self.image.lower,
        }
    }

    pub fn get_requested_sample_window(&self) -> (r: usize)
        ensures
            r == self.req_sample_window,
    {
        self.req_sample_window
    }

    /// Clears the buffer for reuse.
    pub fn cleanup(&mut self)
        requires
            old(self).wf(),
        ensures
            final(self).wf(),
            !final(self).conditions_changed,
            final(self).positions_cleared(),
            final(self).image.sample_conditions_cleared(),
            final(self).image.image_width == 0 && final(self).image.image_height == 0,
            final(self).image.req_width == 0 && final(self).image.req_height == 0,
            final(self).image.id == old(self).image.id,
            final(self).sample_duration == 0,
    {
        self.sample_duration = 0;
        self.reset();
    }

    /// Registers the duration of a sample, in nanoseconds, for a new stream.
    ///
    /// The positions and the sample window are reset: the resolution and the
    /// sample window are to be set afterwards for the new stream.
    pub fn set_sample_duration(&mut self, per_sample: u64)
        requires
            old(self).wf(),
        ensures
            final(self).wf(),
            final(self).positions_cleared(),
            final(self).image.sample_conditions_cleared(),
            final(self).sample_duration == per_sample,
            final(self).conditions_changed == old(self).conditions_changed,
            final(self).image.id == old(self).image.id,
            final(self).image.req_width == old(self).image.req_width,
            final(self).image.req_height == old(self).image.req_height,
    {
        self.reset_sample_conditions();
        self.sample_duration = per_sample;
    }

    /// Drops the constraints due to playback when switching to paused.
    ///
    /// A range playback constraint is kept.
    pub fn switch_to_paused(&mut self)
        requires
            old(self).wf(),
        ensures
            final(self).wf(),
            *final(self) == old(self).after_switch_to_paused(),
    {
        match self.first_visible_sample_lock {
            None => self.first_visible_sample = None,
            Some((first_visible_sample, lock_state)) => match lock_state {
                LockState::Playing => {
                    self.first_visible_sample = None;
                    self.first_visible_sample_lock = None;
                },
                LockState::PlayingRange | LockState::RestoringInitialPos => {
                    // don't drop first_visible_sample & first_visible_sample_lock
                },
            },
        }
    }

    /// Takes over the state of `other`, the buffer which was exposed until now.
    ///
    /// The positions come from `other`, the sample conditions too when they changed
    /// there, and `other` learns whether the playback needs a refresh.
    pub fn update_concrete_state(&mut self, other: &mut WaveformBuffer)
        requires
            old(self).wf(),
            old(other).wf(),
        ensures
            final(self).wf(),
            final(other).wf(),
            final(self).same_positions(*old(other)),
            final(other).same_positions(*old(other)),
            final(other).playback_needs_refresh == old(self).playback_needs_refresh,
            final(self).playback_needs_refresh == old(self).playback_needs_refresh,
            old(other).conditions_changed ==> {
                &&& final(self).req_sample_window == old(other).req_sample_window
                &&& final(self).half_req_sample_window == old(other).half_req_sample_window
                &&& final(self).quarter_req_sample_window == old(other).quarter_req_sample_window
                &&& !final(other).conditions_changed
            },
            !old(other).conditions_changed ==> {
                &&& final(self).req_sample_window == old(self).req_sample_window
                &&& final(self).half_req_sample_window == old(self).half_req_sample_window
                &&& final(self).quarter_req_sample_window == old(self).quarter_req_sample_window
                &&& !final(other).conditions_changed
            },
            final(self).conditions_changed == old(self).conditions_changed,
            final(self).sample_duration == old(self).sample_duration,
            final(other).sample_duration == old(other).sample_duration,
            final(other).req_sample_window == old(other).req_sample_window,
            final(self).image.sample_step == if old(other).image.shareable_state_changed {
                old(other).image.sample_step
            } else {
                old(self).image.sample_step
            },
            final(self).image.lower == old(self).image.lower,
            final(self).image.upper == old(self).image.upper,
    {
        self.previous_sample = other.previous_sample;
        self.current_sample = other.current_sample;
        self.cursor_sample = other.cursor_sample;
        self.cursor_position = other.cursor_position;
        self.first_visible_sample = other.first_visible_sample;
        self.first_visible_sample_lock = other.first_visible_sample_lock;
        self.sought_sample = other.sought_sample;

        // playback_needs_refresh is set during extract_samples
        // so other must be updated with self status
        other.playback_needs_refresh = self.playback_needs_refresh;

        if other.conditions_changed {
            self.req_sample_window = other.req_sample_window;
            self.half_req_sample_window = other.half_req_sample_window;
            self.quarter_req_sample_window = other.quarter_req_sample_window;
            other.conditions_changed = false;
        }
        // else: other has nothing new

        self.image.update_from_other(&mut other.image);
    }

    /// Whether the samples of `buffer` can be rendered at the current resolution.
    pub open spec fn can_render(&self, buffer: AudioBufferBounds) -> bool {
        &&& self.image.sample_step > 0
        &&& max_int(buffer.upper as int, self.image.upper as int) * self.image.x_step
            <= usize::MAX
    }

    /// Entry point of the waveform update: merges the samples added to the audio buffer
    /// since last extraction, adapting to the playback position and to the rendering
    /// conditions. Returns what must be drawn, if the conditions are defined.
    pub fn extract_samples(&mut self, buffer: AudioBufferBounds) -> (plan: Option<RenderPlan>)
        requires
            old(self).wf(),
            buffer.wf(),
            old(self).req_sample_window != 0 ==> old(self).can_render(buffer),
        ensures
            final(self).wf(),
            old(self).req_sample_window == 0 ==> plan is None && *final(self) == *old(self),
            old(self).req_sample_window != 0 ==> {
                let (state, range) = old(self).sample_range(buffer);
                &&& plan is Some
                &&& final(self).same_positions(state)
                &&& final(self).same_conditions(state)
                &&& final(self).playback_needs_refresh == (buffer.eos
                    && !final(self).image.contains_eos)
            },
    {
        if self.req_sample_window == 0 {
            // conditions not defined yet
            return None;
        }
        let ghost bound = max_int(buffer.upper as int, self.image.upper as int);
        let ghost x_step = self.image.x_step as int;
        let (lower, upper) = self.get_sample_range(buffer);
        proof {
            assert(upper * x_step <= bound * x_step) by (nonlinear_arith)
                requires
                    0 <= upper <= bound,
                    0 <= x_step,
            ;
        }
        let plan = self.image.plan_render(buffer, lower, upper);
        // there won't be any refresh on behalf of the buffer
        // and image will still need more samples if playback continues
        self.playback_needs_refresh = buffer.eos && !self.image.contains_eos;
        Some(plan)
    }

    /// Renders the current sample range again, if the image is ready.
    pub fn refresh(&mut self, buffer: AudioBufferBounds) -> (plan: Option<RenderPlan>)
        requires
            old(self).wf(),
            buffer.wf(),
            old(self).image.is_ready ==> old(self).can_render(buffer),
        ensures
            final(self).wf(),
            !old(self).image.is_ready ==> plan is None && *final(self) == *old(self),
            old(self).image.is_ready ==> {
                let (state, range) = old(self).sample_range(buffer);
                &&& plan is Some
                &&& final(self).same_positions(state)
                &&& final(self).same_conditions(state)
                &&& final(self).playback_needs_refresh == !final(self).image.contains_eos
            },
    {
        if !self.image.is_ready {
            return None;
        }
        let ghost bound = max_int(buffer.upper as int, self.image.upper as int);
        let ghost x_step = self.image.x_step as int;
        let (lower, upper) = self.get_sample_range(buffer);
        proof {
            assert(upper * x_step <= bound * x_step) by (nonlinear_arith)
                requires
                    0 <= upper <= bound,
                    0 <= x_step,
            ;
        }
        let plan = self.image.plan_render(buffer, lower, upper);
        self.playback_needs_refresh = !self.image.contains_eos;
        Some(plan)
    }
}

/// A range playback, interrupted or not by a pause, followed by a seek while not
/// playing, brings the waveform back to the position it had when the range
/// playback started.
pub proof fn lemma_range_playback_restores_position(buffer: WaveformBuffer, position: u64)
    requires
        buffer.wf(),
        buffer.image.sample_step != 0,
        buffer.first_visible_sample is Some,
        buffer.can_seek_to(position),
    ensures
        ({
            let played = buffer.after_start_play_range();
            let restored = played.after_seek(position, false);
            let paused_restored = played.after_switch_to_paused().after_seek(position, false);
            &&& restored.first_visible_sample == buffer.first_visible_sample
            &&& restored.first_visible_sample_lock == Some(
                (buffer.first_visible_sample->0 as i64, LockState::RestoringInitialPos),
            )
            &&& restored.cursor_sample == buffer.sought_sample_for(position)
            &&& paused_restored == restored
        }),
{
}

/// Once the initial position is being restored, the next display shows the waveform
/// at that position and releases the constraint.
pub proof fn lemma_restoring_releases_constraint(
    buffer: WaveformBuffer,
    position: u64,
    sample: usize,
)
    requires
        buffer.wf(),
        buffer.image.is_ready,
        buffer.can_refresh_position(sample),
        buffer.first_visible_sample_lock matches Some((_, LockState::RestoringInitialPos)),
        buffer.refreshed(position, sample).cursor_sample >= buffer.image.lower,
    ensures
        ({
            let shown = buffer.updated_first_visible(position, sample);
            &&& buffer.first_visible_sample_lock matches Some((lock, _))
                && shown.first_visible_sample == Some(lock as usize)
            &&& shown.first_visible_sample_lock is None
            &&& shown.sought_sample is None
        }),
{
}

/// Without constraint, the cursor is displayed in the middle of the window
/// whenever the rendered samples allow it.
pub proof fn lemma_cursor_centered(buffer: WaveformBuffer, position: u64, sample: usize)
    requires
        buffer.wf(),
        buffer.image.is_ready,
        buffer.first_visible_sample_lock is None,
        buffer.can_refresh_position(sample),
        ({
            let r = buffer.refreshed(position, sample);
            &&& r.image.lower + r.half_req_sample_window < r.cursor_sample
            &&& r.cursor_sample + r.half_req_sample_window <= r.image.upper
        }),
    ensures
        buffer.updated_first_visible(position, sample).window_of() matches Some(window)
            && window.cursor_offset == Some(buffer.half_req_sample_window),
{
}

/// Switching to paused drops any playback constraint, but keeps range playback ones.
pub proof fn lemma_pause_keeps_only_range_constraints(buffer: WaveformBuffer)
    requires
        buffer.wf(),
    ensures
        buffer.after_switch_to_paused().first_visible_sample_lock matches Some((_, state))
            ==> state != LockState::Playing,
        buffer.first_visible_sample_lock matches Some((_, state)) && state
            != LockState::Playing ==> buffer.after_switch_to_paused() == buffer,
{
}

/// The two buffers of the double buffering mechanism: one is exposed to the
/// user interface while the other one is being updated.
pub struct DoubleWaveformBuffer {
    /// Duration covered by the audio buffer, in nanoseconds.
    pub buffer_duration: u64,
    pub exposed: WaveformBuffer,
    pub working: WaveformBuffer,
}

impl DoubleWaveformBuffer {
    pub fn new(buffer_duration: u64) -> (r: Self)
        ensures
            r.buffer_duration == buffer_duration,
            r.exposed.wf() && r.working.wf(),
            r.exposed.image.id == 1 && r.working.image.id == 2,
            r.exposed.positions_cleared() && r.working.positions_cleared(),
    {
        DoubleWaveformBuffer {
            buffer_duration,
            exposed: WaveformBuffer::new(1),
            working: WaveformBuffer::new(2),
        }
    }
}

} // verus!
