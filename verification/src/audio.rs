//! The audio waveform area: the events it handles, and the state machine that
//! follows the playback, the zoom and the moves of the chapters boundaries.
use vstd::prelude::*;

use crate::chapters_boundaries::ChaptersBoundaries;
use crate::main_panel;
use crate::playback;
use crate::timestamp::Timestamp;
use crate::ui_event::{AudioEvent, PlaybackEvent, SeekFlag, UIEvent, UIEventChannel, UIEventView};

verus! {

/// The duration shown on 1000 pixels when a media is opened, in nanoseconds.
pub const INIT_REQ_DURATION_FOR_1000PX: u64 = 4_000_000_000;

/// The shortest duration shown on 1000 pixels (4s / 2^11), in nanoseconds.
pub const MIN_REQ_DURATION_FOR_1000PX: u64 = 1_953_125;

/// The longest duration shown on 1000 pixels, in nanoseconds.
pub const MAX_REQ_DURATION_FOR_1000PX: u64 = 32_000_000_000;

/// Each zoom step divides or multiplies the duration shown by this factor.
pub const REQ_DURATION_SCALE_FACTOR: u64 = 2;

/// A seek step is the duration shown on 1000 pixels divided by this.
pub const SEEK_STEP_DURATION_DIVISOR: u64 = 2;

/// While playing, the other panels learn the cursor position at most once in this
/// period of the media, in nanoseconds.
pub const OTHER_UI_REFRESH_PERIOD: u64 = 50_000_000;

/// A range played from the waveform lasts at least this, in nanoseconds.
pub const MIN_RANGE_DURATION: u64 = 100_000_000;

/// Where the range which starts at `start` ends: at `last`, the last position drawn,
/// unless that makes it shorter than the minimal range duration.
pub fn play_range_end(start: Timestamp, last: Timestamp) -> (end: Timestamp)
    requires
        start.0 <= last.0,
        start.0 + MIN_RANGE_DURATION <= u64::MAX,
    ensures
        end.0 == start.0 + if last.0 - start.0 >= MIN_RANGE_DURATION {
            last.0 - start.0
        } else {
            MIN_RANGE_DURATION as int
        },
{
    let drawn = last.0 - start.0;
    Timestamp(start.0 + if drawn >= MIN_RANGE_DURATION {
        drawn
    } else {
        MIN_RANGE_DURATION
    })
}

/// The state of the waveform area.
#[derive(Clone, Copy, Debug, PartialEq, Eq, Structural)]
pub enum AudioState {
    Disabled,
    /// The cursor hovers the boundary at this position.
    CursorAboveBoundary(Timestamp),
    /// The boundary at this position is being dragged.
    MovingBoundary(Timestamp),
    Playing,
    PlayingRange,
    Paused,
    PausedPlayingRange,
    /// Seeking while paused, or while a range played.
    SeekingPaused,
    /// Seeking while playing.
    SeekingPlaying,
}

/// What must happen to the callback which ticks while the media plays.
#[derive(Clone, Copy, Debug, PartialEq, Eq, Structural)]
pub enum TickCallbackChange {
    Unchanged,
    Register,
    Remove,
}

/// The decisions of the waveform area.
///
/// The drawing and the widgets are left to the caller, which performs what
/// the methods return.
pub struct AudioController {
    pub state: AudioState,
    /// The duration shown on 1000 pixels, in nanoseconds.
    pub requested_duration: u64,
    /// The duration of a step back or forward, in nanoseconds.
    pub seek_step: u64,
    /// An update of the rendering conditions was requested and is still due.
    pub pending_update_conditions: bool,
    /// The tick callback is registered.
    pub tick_registered: bool,
    /// The last cursor position reported to the other panels.
    pub last_other_ui_refresh: Timestamp,
}

/// The state after a pause in `state`, if the pause applies there.
pub open spec fn paused_state(state: AudioState) -> Option<AudioState> {
    match state {
        AudioState::Playing => Some(AudioState::Paused),
        AudioState::PlayingRange => Some(AudioState::PausedPlayingRange),
        _ => None,
    }
}

/// The state after a resume in `state`, if the resume applies there.
pub open spec fn resumed_state(state: AudioState) -> Option<AudioState> {
    match state {
        AudioState::Paused => Some(AudioState::Playing),
        AudioState::PausedPlayingRange => Some(AudioState::PlayingRange),
        _ => None,
    }
}

/// The state while seeking from `state`, if a seek applies there.
pub open spec fn seeking_state(state: AudioState) -> Option<AudioState> {
    match state {
        AudioState::Playing => Some(AudioState::SeekingPlaying),
        AudioState::Paused | AudioState::PlayingRange | AudioState::PausedPlayingRange => Some(
            AudioState::SeekingPaused,
        ),
        _ => None,
    }
}

/// The state once the seek from `state` is done.
pub open spec fn sought_state(state: AudioState) -> AudioState {
    if state is SeekingPlaying {
        AudioState::Playing
    } else {
        AudioState::Paused
    }
}

/// The change of the tick callback when it must be registered.
pub open spec fn registration(registered: bool) -> TickCallbackChange {
    if registered {
        TickCallbackChange::Unchanged
    } else {
        TickCallbackChange::Register
    }
}

/// The change of the tick callback when it must be removed.
pub open spec fn removal(registered: bool) -> TickCallbackChange {
    if registered {
        TickCallbackChange::Remove
    } else {
        TickCallbackChange::Unchanged
    }
}

/// The duration shown after a zoom in from `duration`.
pub open spec fn zoomed_in(duration: u64) -> u64 {
    if duration / REQ_DURATION_SCALE_FACTOR >= MIN_REQ_DURATION_FOR_1000PX {
        (duration / REQ_DURATION_SCALE_FACTOR) as u64
    } else {
        MIN_REQ_DURATION_FOR_1000PX
    }
}

/// The duration shown after a zoom out from `duration`.
pub open spec fn zoomed_out(duration: u64) -> u64 {
    if duration * REQ_DURATION_SCALE_FACTOR <= MAX_REQ_DURATION_FOR_1000PX {
        (duration * REQ_DURATION_SCALE_FACTOR) as u64
    } else {
        MAX_REQ_DURATION_FOR_1000PX
    }
}

/// The first boundary of `boundaries` within `tolerance` of `position`.
pub open spec fn is_first_boundary_near(
    boundaries: Map<u64, crate::chapters_boundaries::SuccessiveChaptersView>,
    position: u64,
    tolerance: u64,
    found: Option<Timestamp>,
) -> bool {
    let lower: int = if position >= tolerance {
        position - tolerance
    } else {
        0
    };
    let upper: int = position + tolerance;
    match found {
        Some(b) => {
            &&& boundaries.contains_key(b.0)
            &&& lower <= b.0 <= upper
            &&& forall|k: u64|
                #![trigger boundaries.contains_key(k)]
                boundaries.contains_key(k) && lower <= k <= upper ==> b.0 <= k
        },
        None => forall|k: u64|
            #![trigger boundaries.contains_key(k)]
            boundaries.contains_key(k) ==> !(lower <= k <= upper),
    }
}

/// `found` is the first boundary within `tolerance` of `position`, which is `None`
/// when the cursor is outside the waveform.
pub open spec fn is_boundary_under(
    boundaries: Map<u64, crate::chapters_boundaries::SuccessiveChaptersView>,
    position: Option<Timestamp>,
    tolerance: u64,
    found: Option<Timestamp>,
) -> bool {
    match position {
        None => found is None,
        Some(ts) => is_first_boundary_near(boundaries, ts.0, tolerance, found),
    }
}

/// The tolerance around the cursor when looking for a boundary, in nanoseconds:
/// twice the duration of the samples drawn on one pixel when a pixel holds more than
/// one sample, else one nanosecond.
///
/// `step_above_one` tells whether a pixel holds more than one sample, and
/// `whole_step` is the whole number of samples per pixel.
pub fn boundary_tolerance(sample_duration: u64, step_above_one: bool, whole_step: u64) -> (r: u64)
    requires
        step_above_one ==> sample_duration * 2 <= u64::MAX,
        step_above_one ==> sample_duration * 2 * whole_step <= u64::MAX,
    ensures
        r == if step_above_one {
            sample_duration * 2 * whole_step
        } else {
            1
        },
{
    if step_above_one {
        sample_duration * 2 * whole_step
    } else {
        1
    }
}

/// The first boundary within `tolerance` of `position`, if any. `position` is the
/// timestamp under the cursor, `None` when the cursor is outside the waveform.
pub fn boundary_at(boundaries: &ChaptersBoundaries, position: Option<Timestamp>, tolerance: u64) -> (r:
    Option<Timestamp>)
    requires
        position matches Some(ts) ==> ts.0 + tolerance <= u64::MAX,
    ensures
        match position {
            None => r is None,
            Some(ts) => is_first_boundary_near(boundaries.view(), ts.0, tolerance, r),
        },
{
    match position {
        None => None,
        Some(ts) => {
            let lower = if ts.0 >= tolerance {
                ts.0 - tolerance
            } else {
                0
            };
            boundaries.first_boundary_in(Timestamp(lower), Timestamp(ts.0 + tolerance))
        },
    }
}

impl AudioController {
    /// The duration shown stays within its limits and the seek step follows it.
    pub open spec fn wf(&self) -> bool {
        &&& MIN_REQ_DURATION_FOR_1000PX <= self.requested_duration <= MAX_REQ_DURATION_FOR_1000PX
        &&& self.seek_step == self.requested_duration / SEEK_STEP_DURATION_DIVISOR
    }

    pub fn new() -> (ctrl: Self)
        ensures
            ctrl.wf(),
            ctrl.state == AudioState::Disabled,
            ctrl.requested_duration == INIT_REQ_DURATION_FOR_1000PX,
            !ctrl.pending_update_conditions,
            !ctrl.tick_registered,
    {
        AudioController {
            state: AudioState::Disabled,
            requested_duration: INIT_REQ_DURATION_FOR_1000PX,
            seek_step: INIT_REQ_DURATION_FOR_1000PX / SEEK_STEP_DURATION_DIVISOR,
            pending_update_conditions: false,
            tick_registered: false,
            last_other_ui_refresh: Timestamp(0),
        }
    }

    /// Forgets the media: the area is disabled and the zoom is reset.
    pub fn cleanup(&mut self)
        ensures
            final(self).wf(),
            final(self).state == AudioState::Disabled,
            final(self).requested_duration == INIT_REQ_DURATION_FOR_1000PX,
            final(self).pending_update_conditions == old(self).pending_update_conditions,
            final(self).tick_registered == old(self).tick_registered,
            final(self).last_other_ui_refresh == Timestamp(0),
    {
        self.last_other_ui_refresh = Timestamp(0);
        self.state = AudioState::Disabled;
        self.requested_duration = INIT_REQ_DURATION_FOR_1000PX;
        self.seek_step = INIT_REQ_DURATION_FOR_1000PX / SEEK_STEP_DURATION_DIVISOR;
    }

    /// Takes a new media into account. Returns whether an update of the rendering
    /// conditions must be requested.
    pub fn new_media(&mut self, is_audio_selected: bool) -> (request_update: bool)
        requires
            old(self).wf(),
        ensures
            final(self).wf(),
            final(self).state == if is_audio_selected {
                AudioState::Paused
            } else {
                old(self).state
            },
            request_update == (is_audio_selected && !old(self).pending_update_conditions),
            final(self).pending_update_conditions == (old(self).pending_update_conditions
                || is_audio_selected),
            final(self).requested_duration == old(self).requested_duration,
            final(self).last_other_ui_refresh == old(self).last_other_ui_refresh,
            final(self).tick_registered == old(self).tick_registered,
    {
        if is_audio_selected {
            self.state = AudioState::Paused;
            self.update_conditions_async()
        } else {
            false
        }
    }

    /// Notes that an update of the rendering conditions is due. Returns whether it
    /// must be requested, which is when none is due yet.
    pub fn update_conditions_async(&mut self) -> (request_update: bool)
        requires
            old(self).wf(),
        ensures
            final(self).wf(),
            request_update == !old(self).pending_update_conditions,
            final(self).pending_update_conditions,
            final(self).state == old(self).state,
            final(self).requested_duration == old(self).requested_duration,
            final(self).last_other_ui_refresh == old(self).last_other_ui_refresh,
            final(self).tick_registered == old(self).tick_registered,
    {
        if self.pending_update_conditions {
            false
        } else {
            self.pending_update_conditions = true;
            true
        }
    }

    /// Takes new rendering conditions into account; `has_dimensions` tells whether
    /// new dimensions of the area come with them. Returns whether the renderer must
    /// be updated, which is when the area is enabled.
    pub fn update_conditions(&mut self, has_dimensions: bool) -> (must_update: bool)
        requires
            old(self).wf(),
        ensures
            final(self).wf(),
            must_update == (old(self).state != AudioState::Disabled),
            final(self).pending_update_conditions == (old(self).pending_update_conditions
                && !has_dimensions),
            final(self).state == old(self).state,
            final(self).requested_duration == old(self).requested_duration,
            final(self).last_other_ui_refresh == old(self).last_other_ui_refresh,
            final(self).tick_registered == old(self).tick_registered,
    {
        if has_dimensions {
            self.pending_update_conditions = false;
        }
        self.state != AudioState::Disabled
    }

    fn register_tick_callback(&mut self) -> (change: TickCallbackChange)
        ensures
            change == registration(old(self).tick_registered),
            final(self).tick_registered,
            final(self).state == old(self).state,
            final(self).requested_duration == old(self).requested_duration,
            final(self).last_other_ui_refresh == old(self).last_other_ui_refresh,
            final(self).seek_step == old(self).seek_step,
            final(self).pending_update_conditions == old(self).pending_update_conditions,
    {
        if self.tick_registered {
            TickCallbackChange::Unchanged
        } else {
            self.tick_registered = true;
            TickCallbackChange::Register
        }
    }

    fn remove_tick_callback(&mut self) -> (change: TickCallbackChange)
        ensures
            change == removal(old(self).tick_registered),
            !final(self).tick_registered,
            final(self).state == old(self).state,
            final(self).requested_duration == old(self).requested_duration,
            final(self).last_other_ui_refresh == old(self).last_other_ui_refresh,
            final(self).seek_step == old(self).seek_step,
            final(self).pending_update_conditions == old(self).pending_update_conditions,
    {
        if self.tick_registered {
            self.tick_registered = false;
            TickCallbackChange::Remove
        } else {
            TickCallbackChange::Unchanged
        }
    }

    /// Pauses. Returns `None` when there is nothing to pause; else the buffer must be
    /// refreshed, the tick callback changed as returned and the area redrawn.
    pub fn pause(&mut self) -> (r: Option<TickCallbackChange>)
        requires
            old(self).wf(),
        ensures
            final(self).wf(),
            match paused_state(old(self).state) {
                Some(state) => {
                    &&& final(self).state == state
                    &&& r == Some(removal(old(self).tick_registered))
                    &&& !final(self).tick_registered
                },
                None => r is None && final(self).state == old(self).state
                    && final(self).tick_registered == old(self).tick_registered,
            },
            final(self).requested_duration == old(self).requested_duration,
            final(self).last_other_ui_refresh == old(self).last_other_ui_refresh,
            final(self).pending_update_conditions == old(self).pending_update_conditions,
    {
        match self.state {
            AudioState::Playing => {
                self.state = AudioState::Paused;
            },
            AudioState::PlayingRange => {
                self.state = AudioState::PausedPlayingRange;
            },
            _ => {
                return None;
            },
        }
        Some(self.remove_tick_callback())
    }

    /// Resumes the playback. Returns the change of the tick callback.
    pub fn play(&mut self) -> (change: TickCallbackChange)
        requires
            old(self).wf(),
        ensures
            final(self).wf(),
            match resumed_state(old(self).state) {
                Some(state) => {
                    &&& final(self).state == state
                    &&& change == registration(old(self).tick_registered)
                    &&& final(self).tick_registered
                },
                None => change == TickCallbackChange::Unchanged && final(self).state == old(self).state && final(self).tick_registered == old(self).tick_registered,
            },
            final(self).requested_duration == old(self).requested_duration,
            final(self).last_other_ui_refresh == old(self).last_other_ui_refresh,
            final(self).pending_update_conditions == old(self).pending_update_conditions,
    {
        match self.state {
            AudioState::Paused => {
                self.state = AudioState::Playing;
            },
            AudioState::PausedPlayingRange => {
                self.state = AudioState::PlayingRange;
            },
            _ => {
                return TickCallbackChange::Unchanged;
            },
        }
        self.register_tick_callback()
    }

    /// Starts playing a range. Returns the change of the tick callback.
    pub fn start_play_range(&mut self) -> (change: TickCallbackChange)
        requires
            old(self).wf(),
            old(self).state is Paused || old(self).state is PausedPlayingRange
                || old(self).state is PlayingRange,
        ensures
            final(self).wf(),
            final(self).state == AudioState::PlayingRange,
            old(self).state is PlayingRange ==> change == TickCallbackChange::Unchanged
                && final(self).tick_registered == old(self).tick_registered,
            !(old(self).state is PlayingRange) ==> change == registration(old(self).tick_registered)
                && final(self).tick_registered,
            final(self).requested_duration == old(self).requested_duration,
            final(self).last_other_ui_refresh == old(self).last_other_ui_refresh,
            final(self).pending_update_conditions == old(self).pending_update_conditions,
    {
        match self.state {
            AudioState::PlayingRange => TickCallbackChange::Unchanged,
            _ => {
                self.state = AudioState::PlayingRange;
                self.register_tick_callback()
            },
        }
    }

    /// Stops playing a range. Returns the change of the tick callback.
    pub fn stop_play_range(&mut self) -> (change: TickCallbackChange)
        requires
            old(self).wf(),
            old(self).state is PlayingRange,
        ensures
            final(self).wf(),
            final(self).state == AudioState::Paused,
            change == removal(old(self).tick_registered),
            !final(self).tick_registered,
            final(self).requested_duration == old(self).requested_duration,
            final(self).last_other_ui_refresh == old(self).last_other_ui_refresh,
            final(self).pending_update_conditions == old(self).pending_update_conditions,
    {
        let change = self.remove_tick_callback();
        self.state = AudioState::Paused;
        change
    }

    /// A seek starts. Returns the change of the tick callback.
    pub fn seek(&mut self) -> (change: TickCallbackChange)
        requires
            old(self).wf(),
        ensures
            final(self).wf(),
            final(self).requested_duration == old(self).requested_duration,
            final(self).last_other_ui_refresh == old(self).last_other_ui_refresh,
            final(self).pending_update_conditions == old(self).pending_update_conditions,
            match seeking_state(old(self).state) {
                Some(state) => final(self).state == state,
                None => final(self).state == old(self).state,
            },
            old(self).state is PlayingRange ==> change == removal(old(self).tick_registered)
                && !final(self).tick_registered,
            !(old(self).state is PlayingRange) ==> change == TickCallbackChange::Unchanged
                && final(self).tick_registered == old(self).tick_registered,
    {
        match self.state {
            AudioState::Playing => {
                self.state = AudioState::SeekingPlaying;
                TickCallbackChange::Unchanged
            },
            AudioState::Paused | AudioState::PausedPlayingRange => {
                self.state = AudioState::SeekingPaused;
                TickCallbackChange::Unchanged
            },
            AudioState::PlayingRange => {
                let change = self.remove_tick_callback();
                self.state = AudioState::SeekingPaused;
                change
            },
            _ => TickCallbackChange::Unchanged,
        }
    }

    /// The seek is done. Returns whether the waveform must be refreshed, which is when
    /// the media is paused.
    pub fn seek_done(&mut self) -> (must_refresh: bool)
        requires
            old(self).wf(),
            old(self).state is SeekingPaused || old(self).state is SeekingPlaying,
        ensures
            final(self).wf(),
            final(self).state == sought_state(old(self).state),
            must_refresh == (old(self).state is SeekingPaused),
            final(self).last_other_ui_refresh == if old(self).state is SeekingPlaying {
                Timestamp(0)
            } else {
                old(self).last_other_ui_refresh
            },
            final(self).requested_duration == old(self).requested_duration,
            final(self).pending_update_conditions == old(self).pending_update_conditions,
            final(self).tick_registered == old(self).tick_registered,
    {
        match self.state {
            AudioState::SeekingPlaying => {
                self.state = AudioState::Playing;
                self.last_other_ui_refresh = Timestamp(0);
                false
            },
            _ => {
                self.state = AudioState::Paused;
                true
            },
        }
    }

    /// Shows a shorter range of time. Returns whether the renderer must be updated.
    pub fn zoom_in(&mut self) -> (must_update: bool)
        requires
            old(self).wf(),
        ensures
            final(self).wf(),
            final(self).requested_duration == zoomed_in(old(self).requested_duration),
            final(self).last_other_ui_refresh == old(self).last_other_ui_refresh,
            must_update == (old(self).requested_duration / REQ_DURATION_SCALE_FACTOR
                >= MIN_REQ_DURATION_FOR_1000PX && old(self).state != AudioState::Disabled),
            final(self).state == old(self).state,
            final(self).tick_registered == old(self).tick_registered,
            final(self).pending_update_conditions == old(self).pending_update_conditions,
    {
        self.requested_duration = self.requested_duration / REQ_DURATION_SCALE_FACTOR;
        let must_update = if self.requested_duration >= MIN_REQ_DURATION_FOR_1000PX {
            self.update_conditions_now()
        } else {
            self.requested_duration = MIN_REQ_DURATION_FOR_1000PX;
            false
        };
        self.seek_step = self.requested_duration / SEEK_STEP_DURATION_DIVISOR;
        must_update
    }

    /// Shows a longer range of time. Returns whether the renderer must be updated.
    pub fn zoom_out(&mut self) -> (must_update: bool)
        requires
            old(self).wf(),
        ensures
            final(self).wf(),
            final(self).requested_duration == zoomed_out(old(self).requested_duration),
            final(self).last_other_ui_refresh == old(self).last_other_ui_refresh,
            must_update == (old(self).requested_duration * REQ_DURATION_SCALE_FACTOR
                <= MAX_REQ_DURATION_FOR_1000PX && old(self).state != AudioState::Disabled),
            final(self).state == old(self).state,
            final(self).tick_registered == old(self).tick_registered,
            final(self).pending_update_conditions == old(self).pending_update_conditions,
    {
        self.requested_duration = self.requested_duration * REQ_DURATION_SCALE_FACTOR;
        let must_update = if self.requested_duration <= MAX_REQ_DURATION_FOR_1000PX {
            self.update_conditions_now()
        } else {
            self.requested_duration = MAX_REQ_DURATION_FOR_1000PX;
            false
        };
        self.seek_step = self.requested_duration / SEEK_STEP_DURATION_DIVISOR;
        must_update
    }

    fn update_conditions_now(&self) -> (must_update: bool)
        ensures
            must_update == (self.state != AudioState::Disabled),
    {
        self.state != AudioState::Disabled
    }

    /// Where a step back from `current` leads: one seek step before, or the start.
    pub fn step_back_target(&self, current: Timestamp) -> (target: Timestamp)
        ensures
            target.0 == if current.0 > self.seek_step {
                current.0 - self.seek_step
            } else {
                0
            },
    {
        if current.0 > self.seek_step {
            Timestamp(current.0 - self.seek_step)
        } else {
            Timestamp(0)
        }
    }

    /// Where a step forward from `current` leads: one seek step after.
    pub fn step_forward_target(&self, current: Timestamp) -> (target: Timestamp)
        requires
            current.0 + self.seek_step <= u64::MAX,
        ensures
            target.0 == current.0 + self.seek_step,
    {
        Timestamp(current.0 + self.seek_step)
    }

    /// The cursor stands at `cursor` (`None` when it is not drawn). Returns the position
    /// to report to the other panels, if any: while playing, not before the period
    /// since the last report elapsed; while paused or moving a boundary, every time.
    pub fn cursor_report(&mut self, cursor: Option<Timestamp>) -> (report: Option<Timestamp>)
        requires
            old(self).wf(),
        ensures
            final(self).wf(),
            final(self).state == old(self).state,
            final(self).requested_duration == old(self).requested_duration,
            final(self).tick_registered == old(self).tick_registered,
            final(self).pending_update_conditions == old(self).pending_update_conditions,
            report == match cursor {
                Some(ts) => match old(self).state {
                    AudioState::Playing => if old(self).last_other_ui_refresh.0 <= ts.0 <= old(
                        self,
                    ).last_other_ui_refresh.0 + OTHER_UI_REFRESH_PERIOD {
                        None
                    } else {
                        Some(ts)
                    },
                    AudioState::Paused | AudioState::MovingBoundary(_) => Some(ts),
                    _ => None,
                },
                None => None,
            },
            final(self).last_other_ui_refresh == match report {
                Some(ts) => ts,
                None => old(self).last_other_ui_refresh,
            },
    {
        let ts = match cursor {
            Some(ts) => ts,
            None => return None,
        };
        match self.state {
            AudioState::Playing => {
                let last = self.last_other_ui_refresh.0;
                if ts.0 >= last && ts.0 - last <= OTHER_UI_REFRESH_PERIOD {
                    return None;
                }
            },
            AudioState::Paused | AudioState::MovingBoundary(_) => {},
            _ => {
                return None;
            },
        }
        self.last_other_ui_refresh = ts;
        Some(ts)
    }

    /// On a tick of the playback: `buffer_ready` tells whether the buffer could be
    /// refreshed when it had to be. Returns whether the area must be redrawn.
    pub fn tick(&self, buffer_ready: bool) -> (must_redraw: bool)
        ensures
            must_redraw == (buffer_ready && (self.state is Playing || self.state is PlayingRange)),
    {
        buffer_ready && match self.state {
            AudioState::Playing | AudioState::PlayingRange => true,
            _ => false,
        }
    }

    /// The cursor moved above `position` (`None` when it is outside the waveform).
    /// While a boundary is dragged, returns the boundary and its new position.
    pub fn motion_notify(
        &mut self,
        channel: &mut UIEventChannel,
        boundaries: &ChaptersBoundaries,
        position: Option<Timestamp>,
        tolerance: u64,
    ) -> (moved: Option<(Timestamp, Timestamp)>)
        requires
            old(self).wf(),
            position matches Some(ts) ==> ts.0 + tolerance <= u64::MAX,
        ensures
            final(self).wf(),
            final(self).requested_duration == old(self).requested_duration,
            final(self).last_other_ui_refresh == old(self).last_other_ui_refresh,
            final(self).tick_registered == old(self).tick_registered,
            final(self).pending_update_conditions == old(self).pending_update_conditions,
            match old(self).state {
                AudioState::MovingBoundary(boundary) => {
                    &&& moved == match position {
                        Some(p) => Some((boundary, p)),
                        None => None::<(Timestamp, Timestamp)>,
                    }
                    &&& final(self).state == old(self).state
                    &&& final(channel).view() == old(channel).view()
                },
                AudioState::Paused => {
                    &&& moved is None
                    &&& exists|found: Option<Timestamp>|
                        {
                            &&& #[trigger] is_boundary_under(
                                boundaries.view(),
                                position,
                                tolerance,
                                found,
                            )
                            &&& match found {
                                Some(b) => final(self).state == AudioState::CursorAboveBoundary(b)
                                    && final(channel).view() == old(channel).view().push(
                                    UIEventView::SetCursorDoubleArrow,
                                ),
                                None => final(self).state == old(self).state && final(channel).view() == old(channel).view(),
                            }
                        }
                },
                AudioState::CursorAboveBoundary(_) => {
                    &&& moved is None
                    &&& exists|found: Option<Timestamp>|
                        {
                            &&& #[trigger] is_boundary_under(
                                boundaries.view(),
                                position,
                                tolerance,
                                found,
                            )
                            &&& match found {
                                Some(b) => final(self).state == AudioState::CursorAboveBoundary(b)
                                    && final(channel).view() == old(channel).view(),
                                None => final(self).state == AudioState::Paused && final(channel).view() == old(channel).view().push(UIEventView::ResetCursor),
                            }
                        }
                },
                _ => moved is None && final(self).state == old(self).state && final(channel).view()
                    == old(channel).view(),
            },
    {
        match self.state {
            AudioState::MovingBoundary(boundary) => {
                return match position {
                    Some(p) => Some((boundary, p)),
                    None => None,
                };
            },
            AudioState::Paused => {
                let found = boundary_at(boundaries, position, tolerance);
                if let Some(boundary) = found {
                    self.state = AudioState::CursorAboveBoundary(boundary);
                    main_panel::set_cursor_double_arrow(channel);
                }
                assert(is_boundary_under(boundaries.view(), position, tolerance, found));
            },
            AudioState::CursorAboveBoundary(_) => {
                let found = boundary_at(boundaries, position, tolerance);
                if let Some(boundary) = found {
                    self.state = AudioState::CursorAboveBoundary(boundary);
                } else {
                    self.state = AudioState::Paused;
                    main_panel::reset_cursor(channel);
                }
                assert(is_boundary_under(boundaries.view(), position, tolerance, found));
            },
            _ => {},
        }
        None
    }

    /// The cursor left the waveform area.
    pub fn leave_drawing_area(&mut self, channel: &mut UIEventChannel)
        requires
            old(self).wf(),
        ensures
            final(self).wf(),
            final(self).requested_duration == old(self).requested_duration,
            final(self).last_other_ui_refresh == old(self).last_other_ui_refresh,
            final(self).tick_registered == old(self).tick_registered,
            final(self).pending_update_conditions == old(self).pending_update_conditions,
            if old(self).state is MovingBoundary || old(self).state is CursorAboveBoundary {
                final(self).state == AudioState::Paused && final(channel).view() == old(channel).view().push(UIEventView::ResetCursor)
            } else {
                final(self).state == old(self).state && final(channel).view() == old(channel).view()
            },
    {
        match self.state {
            AudioState::MovingBoundary(_) | AudioState::CursorAboveBoundary(_) => {
                self.state = AudioState::Paused;
                main_panel::reset_cursor(channel);
            },
            _ => {},
        }
    }

    /// The mouse `button` was pressed above `position` (`None` when outside the
    /// waveform): the left button seeks there or grabs the boundary under the
    /// cursor, the right button plays the range which starts there.
    pub fn button_pressed(
        &mut self,
        channel: &mut UIEventChannel,
        button: u32,
        position: Option<Timestamp>,
    )
        requires
            old(self).wf(),
        ensures
            final(self).wf(),
            final(self).requested_duration == old(self).requested_duration,
            final(self).last_other_ui_refresh == old(self).last_other_ui_refresh,
            final(self).tick_registered == old(self).tick_registered,
            final(self).pending_update_conditions == old(self).pending_update_conditions,
            match (button, position) {
                (1, Some(ts)) => match old(self).state {
                    AudioState::Playing | AudioState::PlayingRange | AudioState::Paused
                    | AudioState::PausedPlayingRange => final(self).state == old(self).state
                        && final(channel).view() == old(channel).view().push(
                        UIEventView::Playback(PlaybackEvent::Seek(ts, SeekFlag::Accurate)),
                    ),
                    AudioState::CursorAboveBoundary(b) => final(self).state
                        == AudioState::MovingBoundary(b) && final(channel).view() == old(channel).view(),
                    _ => final(self).state == old(self).state && final(channel).view() == old(channel).view(),
                },
                (3, Some(start)) => final(self).state == old(self).state && final(channel).view()
                    == old(channel).view().push(
                    UIEventView::Playback(PlaybackEvent::PlayRange(start)),
                ),
                _ => final(self).state == old(self).state && final(channel).view() == old(channel).view(),
            },
    {
        if button == 1 {
            if let Some(ts) = position {
                match self.state {
                    AudioState::Playing | AudioState::PlayingRange | AudioState::Paused
                    | AudioState::PausedPlayingRange => {
                        playback::seek(channel, ts, SeekFlag::Accurate);
                    },
                    AudioState::CursorAboveBoundary(boundary) => {
                        self.state = AudioState::MovingBoundary(boundary);
                    },
                    _ => {},
                }
            }
        } else if button == 3 {
            if let Some(start) = position {
                playback::play_range(channel, start);
            }
        }
    }

    /// The mouse `button` was released: a dragged boundary is dropped when it is the
    /// left one.
    pub fn button_released(&mut self, button: u32)
        requires
            old(self).wf(),
        ensures
            final(self).wf(),
            final(self).requested_duration == old(self).requested_duration,
            final(self).last_other_ui_refresh == old(self).last_other_ui_refresh,
            final(self).tick_registered == old(self).tick_registered,
            final(self).pending_update_conditions == old(self).pending_update_conditions,
            final(self).state == match old(self).state {
                AudioState::MovingBoundary(b) => if button == 1 {
                    AudioState::CursorAboveBoundary(b)
                } else {
                    old(self).state
                },
                _ => old(self).state,
            },
    {
        if let AudioState::MovingBoundary(boundary) = self.state {
            if button == 1 {
                self.state = AudioState::CursorAboveBoundary(boundary);
            }
        }
    }
}

/// Asks the waveform area to redraw.
pub fn refresh(channel: &mut UIEventChannel)
    ensures
        final(channel).view() == old(channel).view().push(UIEventView::Audio(AudioEvent::Refresh)),
{
    channel.send(UIEvent::Audio(AudioEvent::Refresh));
}

/// Asks the playback to step back by one seek step.
pub fn step_back(channel: &mut UIEventChannel)
    ensures
        final(channel).view() == old(channel).view().push(UIEventView::Audio(AudioEvent::StepBack)),
{
    channel.send(UIEvent::Audio(AudioEvent::StepBack));
}

/// Asks the playback to step forward by one seek step.
pub fn step_forward(channel: &mut UIEventChannel)
    ensures
        final(channel).view() == old(channel).view().push(
            UIEventView::Audio(AudioEvent::StepForward),
        ),
{
    channel.send(UIEvent::Audio(AudioEvent::StepForward));
}

/// Signals that the playback position should be polled.
pub fn tick(channel: &mut UIEventChannel)
    ensures
        final(channel).view() == old(channel).view().push(UIEventView::Audio(AudioEvent::Tick)),
{
    channel.send(UIEvent::Audio(AudioEvent::Tick));
}

/// Asks the waveform area to show a shorter range of time.
pub fn zoom_in(channel: &mut UIEventChannel)
    ensures
        final(channel).view() == old(channel).view().push(UIEventView::Audio(AudioEvent::ZoomIn)),
{
    channel.send(UIEvent::Audio(AudioEvent::ZoomIn));
}

/// Asks the waveform area to show a longer range of time.
pub fn zoom_out(channel: &mut UIEventChannel)
    ensures
        final(channel).view() == old(channel).view().push(UIEventView::Audio(AudioEvent::ZoomOut)),
{
    channel.send(UIEvent::Audio(AudioEvent::ZoomOut));
}

/// Resuming after a pause returns to the state which was paused.
pub proof fn lemma_play_undoes_pause(state: AudioState)
    requires
        paused_state(state) is Some,
    ensures
        resumed_state(paused_state(state)->0) == Some(state),
{
}

/// Pausing after a resume returns to the state which was resumed.
pub proof fn lemma_pause_undoes_play(state: AudioState)
    requires
        resumed_state(state) is Some,
    ensures
        paused_state(resumed_state(state)->0) == Some(state),
{
}

/// A zoom out undoes a zoom in which did not reach the shortest duration.
pub proof fn lemma_zoom_out_undoes_zoom_in(duration: u64)
    requires
        duration <= MAX_REQ_DURATION_FOR_1000PX,
        duration / REQ_DURATION_SCALE_FACTOR >= MIN_REQ_DURATION_FOR_1000PX,
        duration % REQ_DURATION_SCALE_FACTOR == 0,
    ensures
        zoomed_out(zoomed_in(duration)) == duration,
{
}

/// A zoom in undoes a zoom out which did not reach the longest duration.
pub proof fn lemma_zoom_in_undoes_zoom_out(duration: u64)
    requires
        MIN_REQ_DURATION_FOR_1000PX <= duration,
        duration * REQ_DURATION_SCALE_FACTOR <= MAX_REQ_DURATION_FOR_1000PX,
    ensures
        zoomed_in(zoomed_out(duration)) == duration,
{
}

/// Zooming keeps the duration shown within its limits.
pub proof fn lemma_zoom_stays_within_limits(duration: u64)
    requires
        MIN_REQ_DURATION_FOR_1000PX <= duration <= MAX_REQ_DURATION_FOR_1000PX,
    ensures
        MIN_REQ_DURATION_FOR_1000PX <= zoomed_in(duration) <= MAX_REQ_DURATION_FOR_1000PX,
        MIN_REQ_DURATION_FOR_1000PX <= zoomed_out(duration) <= MAX_REQ_DURATION_FOR_1000PX,
{
}

/// A seek ends as it started: playing when the media was playing, paused otherwise
/// (a range which played is not resumed).
pub proof fn lemma_seek_returns_to_playback_state(state: AudioState)
    requires
        seeking_state(state) is Some,
    ensures
        sought_state(seeking_state(state)->0) == if state is Playing {
            AudioState::Playing
        } else {
            AudioState::Paused
        },
{
}

/// There is a single first boundary under the cursor, so that what the waveform
/// area finds there is determined.
pub proof fn lemma_boundary_under_unique(
    boundaries: Map<u64, crate::chapters_boundaries::SuccessiveChaptersView>,
    position: Option<Timestamp>,
    tolerance: u64,
    a: Option<Timestamp>,
    b: Option<Timestamp>,
)
    requires
        is_boundary_under(boundaries, position, tolerance, a),
        is_boundary_under(boundaries, position, tolerance, b),
    ensures
        a == b,
{
    if let (Some(_), Some(x), Some(y)) = (position, a, b) {
        assert(boundaries.contains_key(x.0) && boundaries.contains_key(y.0));
    }
    if let (Some(_), Some(x), None) = (position, a, b) {
        assert(boundaries.contains_key(x.0));
    }
    if let (Some(_), None, Some(y)) = (position, a, b) {
        assert(boundaries.contains_key(y.0));
    }
}

} // verus!
