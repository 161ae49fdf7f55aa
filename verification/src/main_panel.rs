//! The main window: the events it handles, and the state machine which drives the
//! playback of the media as the user and the media pipeline ask.
use vstd::prelude::*;
use vstd::string::StringExecFns;

use crate::info_bar;
use crate::timestamp::Timestamp;
use crate::ui_event::{MainEvent, SeekFlag, UIEvent, UIEventChannel, UIEventView, UIFocusContext};

verus! {

/// Asks to show the about dialog.
pub fn about(channel: &mut UIEventChannel)
    ensures
        final(channel).view() == old(channel).view().push(UIEventView::About),
{
    channel.send(UIEvent::Main(MainEvent::About));
}

/// Signals that the user gave up selecting a media.
pub fn cancel_select_media(channel: &mut UIEventChannel)
    ensures
        final(channel).view() == old(channel).view().push(UIEventView::CancelSelectMedia),
{
    channel.send(UIEvent::Main(MainEvent::CancelSelectMedia));
}

/// Asks to open the media at `path`.
pub fn open_media(channel: &mut UIEventChannel, path: &str)
    ensures
        final(channel).view() == old(channel).view().push(UIEventView::OpenMedia(path@)),
{
    channel.send(UIEvent::Main(MainEvent::OpenMedia(path.to_owned())));
}

/// Asks to quit the application.
pub fn quit(channel: &mut UIEventChannel)
    ensures
        final(channel).view() == old(channel).view().push(UIEventView::Quit),
{
    channel.send(UIEvent::Main(MainEvent::Quit));
}

/// Asks to restore the default cursor.
pub fn reset_cursor(channel: &mut UIEventChannel)
    ensures
        final(channel).view() == old(channel).view().push(UIEventView::ResetCursor),
{
    channel.send(UIEvent::Main(MainEvent::ResetCursor));
}

/// Asks to give the focus back to the context which had it last.
pub fn restore_context(channel: &mut UIEventChannel)
    ensures
        final(channel).view() == old(channel).view().push(UIEventView::RestoreContext),
{
    channel.send(UIEvent::Main(MainEvent::RestoreContext));
}

/// Asks to let the user select a media.
pub fn select_media(channel: &mut UIEventChannel)
    ensures
        final(channel).view() == old(channel).view().push(UIEventView::SelectMedia),
{
    channel.send(UIEvent::Main(MainEvent::SelectMedia));
}

/// Asks to show the cursor used to move a boundary.
pub fn set_cursor_double_arrow(channel: &mut UIEventChannel)
    ensures
        final(channel).view() == old(channel).view().push(UIEventView::SetCursorDoubleArrow),
{
    channel.send(UIEvent::Main(MainEvent::SetCursorDoubleArrow));
}

/// Asks to show the waiting cursor.
pub fn set_cursor_waiting(channel: &mut UIEventChannel)
    ensures
        final(channel).view() == old(channel).view().push(UIEventView::SetCursorWaiting),
{
    channel.send(UIEvent::Main(MainEvent::SetCursorWaiting));
}

/// Asks to show every part of the main window.
pub fn show_all(channel: &mut UIEventChannel)
    ensures
        final(channel).view() == old(channel).view().push(UIEventView::ShowAll),
{
    channel.send(UIEvent::Main(MainEvent::ShowAll));
}

/// Asks to give the focus to `ctx`.
pub fn switch_to(channel: &mut UIEventChannel, ctx: UIFocusContext)
    ensures
        final(channel).view() == old(channel).view().push(UIEventView::SwitchTo(ctx)),
{
    channel.send(UIEvent::Main(MainEvent::SwitchTo(ctx)));
}

/// Asks to give the focus to `ctx` until the context is restored.
pub fn temporarily_switch_to(channel: &mut UIEventChannel, ctx: UIFocusContext)
    ensures
        final(channel).view() == old(channel).view().push(UIEventView::TemporarilySwitchTo(ctx)),
{
    channel.send(UIEvent::Main(MainEvent::TemporarilySwitchTo(ctx)));
}

/// Asks to give the focus to the page on display.
pub fn update_focus(channel: &mut UIEventChannel)
    ensures
        final(channel).view() == old(channel).view().push(UIEventView::UpdateFocus),
{
    channel.send(UIEvent::Main(MainEvent::UpdateFocus));
}

/// What the main window must do when the focus moves.
#[derive(Clone, Copy, Debug, PartialEq, Eq, Structural)]
pub struct FocusActions {
    /// Bind the keyboard accelerators for this context.
    pub bind_accels_for: Option<UIFocusContext>,
    /// The chapters panel loses the focus.
    pub loose_info_focus: bool,
    /// Give the focus to the page of this context.
    pub grab_focus_of: Option<UIFocusContext>,
}

/// The page which takes the focus for `ctx`, if any.
pub open spec fn focus_page(ctx: UIFocusContext) -> Option<UIFocusContext> {
    match ctx {
        UIFocusContext::ExportPage | UIFocusContext::PlaybackPage | UIFocusContext::SplitPage
        | UIFocusContext::StreamsPage => Some(ctx),
        _ => None,
    }
}

/// The actions of a switch to `ctx` from `focus`.
pub open spec fn switch_actions(focus: UIFocusContext, ctx: UIFocusContext) -> FocusActions {
    FocusActions {
        bind_accels_for: Some(ctx),
        loose_info_focus: focus == UIFocusContext::PlaybackPage && ctx != UIFocusContext::PlaybackPage,
        grab_focus_of: focus_page(ctx),
    }
}

/// The focus, the saved context and the actions after restoring the context saved in
/// `saved`, from `focus`.
pub open spec fn restored(focus: UIFocusContext, saved: Option<UIFocusContext>) -> (
    UIFocusContext,
    Option<UIFocusContext>,
    FocusActions,
) {
    match saved {
        Some(s) => (s, None, switch_actions(focus, s)),
        None => (
            focus,
            None,
            FocusActions { bind_accels_for: None, loose_info_focus: false, grab_focus_of: None },
        ),
    }
}

/// The part of the main window which has the focus, and the one to restore after a
/// temporary switch.
pub struct FocusTracker {
    pub focus: UIFocusContext,
    pub saved_context: Option<UIFocusContext>,
}

impl FocusTracker {
    pub fn new() -> (r: Self)
        ensures
            r.focus == UIFocusContext::PlaybackPage,
            r.saved_context is None,
    {
        FocusTracker { focus: UIFocusContext::PlaybackPage, saved_context: None }
    }

    /// Gives the focus to `ctx`.
    pub fn update_focus(&mut self, ctx: UIFocusContext) -> (actions: FocusActions)
        ensures
            final(self).focus == ctx,
            final(self).saved_context == old(self).saved_context,
            actions == (FocusActions {
                bind_accels_for: None,
                loose_info_focus: old(self).focus == UIFocusContext::PlaybackPage && ctx
                    != UIFocusContext::PlaybackPage,
                grab_focus_of: focus_page(ctx),
            }),
    {
        let loose_info_focus = self.focus == UIFocusContext::PlaybackPage && ctx
            != UIFocusContext::PlaybackPage;
        let grab_focus_of = match ctx {
            UIFocusContext::ExportPage | UIFocusContext::PlaybackPage | UIFocusContext::SplitPage
            | UIFocusContext::StreamsPage => Some(ctx),
            _ => None,
        };
        self.focus = ctx;
        FocusActions { bind_accels_for: None, loose_info_focus, grab_focus_of }
    }

    /// Switches to `ctx`: its accelerators and the focus.
    pub fn switch_to(&mut self, ctx: UIFocusContext) -> (actions: FocusActions)
        ensures
            final(self).focus == ctx,
            final(self).saved_context == old(self).saved_context,
            actions == switch_actions(old(self).focus, ctx),
    {
        let actions = self.update_focus(ctx);
        FocusActions { bind_accels_for: Some(ctx), ..actions }
    }

    /// Binds the accelerators of `ctx` until the context is restored.
    pub fn temporarily_switch_to(&mut self, ctx: UIFocusContext) -> (actions: FocusActions)
        ensures
            final(self).focus == old(self).focus,
            final(self).saved_context == Some(old(self).focus),
            actions == (FocusActions {
                bind_accels_for: Some(ctx),
                loose_info_focus: false,
                grab_focus_of: None,
            }),
    {
        self.saved_context = Some(self.focus);
        FocusActions { bind_accels_for: Some(ctx), loose_info_focus: false, grab_focus_of: None }
    }

    /// Switches back to the context saved by a temporary switch, if any.
    pub fn restore_context(&mut self) -> (actions: FocusActions)
        ensures
            (final(self).focus, final(self).saved_context, actions) == restored(
                old(self).focus,
                old(self).saved_context,
            ),
    {
        match self.saved_context {
            Some(saved) => {
                self.saved_context = None;
                self.switch_to(saved)
            },
            None => FocusActions { bind_accels_for: None, loose_info_focus: false, grab_focus_of: None },
        }
    }
}

/// The state of the playback at the end of an asynchronous operation.
#[derive(Clone, Copy, Debug, PartialEq, Eq, Structural)]
pub enum PlaybackState {
    Playing,
    Paused,
}

/// What the media pipeline reports.
#[derive(Debug)]
pub enum MediaEvent {
    AsyncDone(PlaybackState),
    Eos,
    FailedToOpenMedia(String),
    GLSinkError,
    InitDone,
    MissingPlugin(String),
    ReadyToRefresh,
    StreamsSelected,
}

/// The abstract value of a [`MediaEvent`].
pub enum MediaEventView {
    AsyncDone(PlaybackState),
    Eos,
    FailedToOpenMedia(Seq<char>),
    GLSinkError,
    InitDone,
    MissingPlugin(Seq<char>),
    ReadyToRefresh,
    StreamsSelected,
}

impl View for MediaEvent {
    type V = MediaEventView;

    open spec fn view(&self) -> MediaEventView {
        match self {
            MediaEvent::AsyncDone(s) => MediaEventView::AsyncDone(*s),
            MediaEvent::Eos => MediaEventView::Eos,
            MediaEvent::FailedToOpenMedia(e) => MediaEventView::FailedToOpenMedia(e@),
            MediaEvent::GLSinkError => MediaEventView::GLSinkError,
            MediaEvent::InitDone => MediaEventView::InitDone,
            MediaEvent::MissingPlugin(p) => MediaEventView::MissingPlugin(p@),
            MediaEvent::ReadyToRefresh => MediaEventView::ReadyToRefresh,
            MediaEvent::StreamsSelected => MediaEventView::StreamsSelected,
        }
    }
}

/// The state of the main window.
#[derive(Clone, Copy, Debug, PartialEq, Eq, Structural)]
pub enum MainState {
    /// The range played to its end: the position held here is to be restored.
    CompletePlayRange(Timestamp),
    EOS,
    Paused,
    /// A range was playing and is paused: the position held here is to be restored.
    PausedPlayingRange(Timestamp),
    /// Waiting for the pause to run what was asked while playing.
    PendingPaused,
    /// Waiting for the pause to let the user select a media.
    PendingSelectMedia,
    /// Waiting for the user to select a media or to give up.
    PendingSelectMediaDecision,
    /// Waiting for the pause to seek to this position.
    PendingSeek(Timestamp),
    Playing,
    /// A range is playing: the position held here is to be restored.
    PlayingRange(Timestamp),
    /// Seeking to this position.
    Seeking(Timestamp),
    Stopped,
    /// Seeking before this position first, so that the waveform can be drawn around it.
    TwoStepsSeek(Timestamp),
}

/// The icon of the play / pause button.
#[derive(Clone, Copy, Debug, PartialEq, Eq, Structural)]
pub enum PlayPauseIcon {
    Pause,
    Playback,
}

/// What the caller must perform, in order, on the widgets and the media pipeline.
#[derive(Debug)]
pub enum MainAction {
    SetIcon(PlayPauseIcon),
    AudioPlay,
    AudioPause,
    AudioSeek,
    AudioStartPlayRange(Timestamp),
    AudioStopPlayRange,
    AudioRefresh,
    /// Tell the panels that the seek to this position is done.
    SeekDone(Timestamp),
    PipelinePlay,
    PipelinePause,
    PipelineSeek(Timestamp, SeekFlag),
    PipelineSeekRange(Timestamp, Timestamp),
    ShowFileDialog,
    /// Tell the panels that the selected streams changed.
    StreamsSelected,
    /// Tell the panels that a media was opened.
    NewMedia,
    /// Run what was asked to run once paused.
    RunPausedCallback,
    /// Stop and drop the media pipeline.
    DropPipeline,
    /// Reset every panel.
    CleanupAll,
    /// Report these missing plugins: their names joined, and how many they are.
    ReportMissingPlugins(String, usize),
    /// Report that the media could not be opened, for this reason, with the missing
    /// plugins if any.
    ReportOpenError(String, Option<(String, usize)>),
    /// Disable the hardware accelerated video sink and tell the user.
    DisableGlSink,
}

/// The abstract value of a [`MainAction`].
pub enum MainActionView {
    SetIcon(PlayPauseIcon),
    AudioPlay,
    AudioPause,
    AudioSeek,
    AudioStartPlayRange(Timestamp),
    AudioStopPlayRange,
    AudioRefresh,
    SeekDone(Timestamp),
    PipelinePlay,
    PipelinePause,
    PipelineSeek(Timestamp, SeekFlag),
    PipelineSeekRange(Timestamp, Timestamp),
    ShowFileDialog,
    StreamsSelected,
    NewMedia,
    RunPausedCallback,
    DropPipeline,
    CleanupAll,
    ReportMissingPlugins(Seq<char>, usize),
    ReportOpenError(Seq<char>, Option<(Seq<char>, usize)>),
    DisableGlSink,
}

impl View for MainAction {
    type V = MainActionView;

    open spec fn view(&self) -> MainActionView {
        match self {
            MainAction::SetIcon(i) => MainActionView::SetIcon(*i),
            MainAction::AudioPlay => MainActionView::AudioPlay,
            MainAction::AudioPause => MainActionView::AudioPause,
            MainAction::AudioSeek => MainActionView::AudioSeek,
            MainAction::AudioStartPlayRange(ts) => MainActionView::AudioStartPlayRange(*ts),
            MainAction::AudioStopPlayRange => MainActionView::AudioStopPlayRange,
            MainAction::AudioRefresh => MainActionView::AudioRefresh,
            MainAction::SeekDone(ts) => MainActionView::SeekDone(*ts),
            MainAction::PipelinePlay => MainActionView::PipelinePlay,
            MainAction::PipelinePause => MainActionView::PipelinePause,
            MainAction::PipelineSeek(ts, f) => MainActionView::PipelineSeek(*ts, *f),
            MainAction::PipelineSeekRange(s, e) => MainActionView::PipelineSeekRange(*s, *e),
            MainAction::ShowFileDialog => MainActionView::ShowFileDialog,
            MainAction::StreamsSelected => MainActionView::StreamsSelected,
            MainAction::NewMedia => MainActionView::NewMedia,
            MainAction::RunPausedCallback => MainActionView::RunPausedCallback,
            MainAction::DropPipeline => MainActionView::DropPipeline,
            MainAction::CleanupAll => MainActionView::CleanupAll,
            MainAction::ReportMissingPlugins(l, n) => MainActionView::ReportMissingPlugins(l@, *n),
            MainAction::ReportOpenError(e, m) => MainActionView::ReportOpenError(
                e@,
                match m {
                    Some((l, n)) => Some((l@, *n)),
                    None => None,
                },
            ),
            MainAction::DisableGlSink => MainActionView::DisableGlSink,
        }
    }
}

/// The abstract values of a sequence of actions.
pub open spec fn actions_view(actions: Seq<MainAction>) -> Seq<MainActionView> {
    actions.map_values(|a: MainAction| a@)
}

/// What the waveform holds around the playback position, to plan a seek while paused.
#[derive(Clone, Copy, Debug, PartialEq, Eq, Structural)]
pub struct WaveformLimits {
    /// The first position held.
    pub lower: Timestamp,
    /// The last position held.
    pub upper: Timestamp,
    /// The duration of half the window drawn, in nanoseconds.
    pub half_window: u64,
    /// The duration the pipeline queues can hold, in nanoseconds.
    pub queue_duration: u64,
}

/// How far back a seek while paused steps first: half the window drawn, no more than
/// the pipeline queues can hold.
pub open spec fn step_back_duration(limits: WaveformLimits) -> u64 {
    if limits.half_window <= limits.queue_duration {
        limits.half_window
    } else {
        limits.queue_duration
    }
}

/// `limits` can be used without overflow.
pub open spec fn limits_fit(limits: WaveformLimits) -> bool {
    limits.lower.0 + step_back_duration(limits) <= u64::MAX
}

/// Where a seek to `target` while paused must go first, if it must go somewhere first:
/// far enough before `target` to draw the waveform around it, unless what is drawn
/// already holds that.
pub open spec fn first_step(target: Timestamp, limits: WaveformLimits) -> Option<Timestamp> {
    let step = step_back_duration(limits);
    if target.0 > step {
        if target.0 < limits.lower.0 + step || target.0 > limits.upper.0 {
            Some(Timestamp((target.0 - step) as u64))
        } else {
            None
        }
    } else {
        Some(Timestamp(0))
    }
}

/// Where a seek to `target` while paused must go first, if it must go somewhere first.
pub fn first_ts_for_paused_seek(target: Timestamp, limits: &WaveformLimits) -> (r: Option<Timestamp>)
    requires
        limits_fit(*limits),
    ensures
        r == first_step(target, *limits),
{
    let step = if limits.half_window <= limits.queue_duration {
        limits.half_window
    } else {
        limits.queue_duration
    };
    if target.0 > step {
        if target.0 < limits.lower.0 + step || target.0 > limits.upper.0 {
            Some(Timestamp(target.0 - step))
        } else {
            None
        }
    } else {
        Some(Timestamp(0))
    }
}

/// The names of `plugins` separated by a comma and a space.
pub open spec fn joined(plugins: Seq<Seq<char>>) -> Seq<char>
    decreases plugins.len(),
{
    if plugins.len() == 0 {
        Seq::empty()
    } else if plugins.len() == 1 {
        plugins[0]
    } else {
        joined(plugins.drop_last()) + seq![',', ' '] + plugins.last()
    }
}

/// The report of the missing `plugins`: none when there is none.
pub open spec fn missing_report(plugins: Seq<Seq<char>>) -> Option<(Seq<char>, usize)> {
    if plugins.len() == 0 {
        None
    } else {
        Some((joined(plugins), plugins.len() as usize))
    }
}

/// The abstract value of a [`MainController`].
pub struct MainModel {
    pub state: MainState,
    pub has_pipeline: bool,
    pub has_paused_callback: bool,
    /// The plugins reported missing since the media was opened, in the order reported.
    pub plugins: Seq<Seq<char>>,
}

/// What an operation of the [`MainController`] results in.
pub struct MainOutcome {
    pub model: MainModel,
    pub actions: Seq<MainActionView>,
    pub events: Seq<UIEventView>,
}

/// The outcome which keeps `m` and does nothing.
pub open spec fn unchanged(m: MainModel) -> MainOutcome {
    MainOutcome { model: m, actions: seq![], events: seq![] }
}

/// The outcome which moves `m` to `state` and performs `actions`.
pub open spec fn moved(m: MainModel, state: MainState, actions: Seq<MainActionView>) -> MainOutcome {
    MainOutcome { model: MainModel { state, ..m }, actions, events: seq![] }
}

/// The actions which hold the playback.
pub open spec fn hold_actions(has_pipeline: bool) -> Seq<MainActionView> {
    seq![MainActionView::AudioPause, MainActionView::SetIcon(PlayPauseIcon::Playback)] + if has_pipeline {
        seq![MainActionView::PipelinePause]
    } else {
        seq![]
    }
}

/// The outcome of a seek to `ts` with `flag` from `m`; `first` is where a seek while
/// paused must go first.
pub open spec fn seek_outcome(
    m: MainModel,
    ts: Timestamp,
    flag: SeekFlag,
    first: Option<Timestamp>,
) -> MainOutcome {
    match m.state {
        MainState::Playing => moved(
            m,
            MainState::Seeking(ts),
            seq![MainActionView::AudioSeek, MainActionView::PipelineSeek(ts, flag)],
        ),
        MainState::Paused | MainState::PausedPlayingRange(_) => match first {
            Some(f) => moved(
                m,
                MainState::TwoStepsSeek(ts),
                seq![MainActionView::AudioSeek, MainActionView::PipelineSeek(f, SeekFlag::Accurate)],
            ),
            None => moved(
                m,
                MainState::Seeking(ts),
                seq![
                    MainActionView::AudioSeek,
                    MainActionView::PipelineSeek(ts, SeekFlag::Accurate),
                ],
            ),
        },
        MainState::PlayingRange(_) => moved(
            m,
            MainState::PendingSeek(ts),
            seq![MainActionView::PipelinePause],
        ),
        MainState::TwoStepsSeek(target) => moved(
            m,
            MainState::Seeking(target),
            seq![MainActionView::PipelineSeek(target, flag)],
        ),
        MainState::EOS => moved(
            m,
            MainState::Seeking(ts),
            seq![
                MainActionView::AudioPlay,
                MainActionView::AudioSeek,
                MainActionView::PipelineSeek(ts, flag),
            ],
        ),
        _ => unchanged(m),
    }
}

/// The outcome of a request to select a media from `m`.
pub open spec fn select_media_outcome(m: MainModel) -> MainOutcome {
    match m.state {
        MainState::Playing | MainState::EOS => MainOutcome {
            model: MainModel { state: MainState::PendingSelectMedia, ..m },
            actions: hold_actions(m.has_pipeline),
            events: seq![UIEventView::SetCursorWaiting],
        },
        _ => MainOutcome {
            model: MainModel { state: MainState::PendingSelectMediaDecision, ..m },
            actions: seq![MainActionView::ShowFileDialog],
            events: seq![UIEventView::HideInfoBar],
        },
    }
}

/// The outcome of the play / pause button from `m`.
pub open spec fn play_pause_outcome(m: MainModel, limits: WaveformLimits) -> MainOutcome {
    if !m.has_pipeline {
        select_media_outcome(m)
    } else {
        let to_play = seq![
            MainActionView::SetIcon(PlayPauseIcon::Pause),
            MainActionView::AudioPlay,
            MainActionView::PipelinePlay,
        ];
        match m.state {
            MainState::Paused => moved(m, MainState::Playing, to_play),
            MainState::PausedPlayingRange(r) => moved(m, MainState::PlayingRange(r), to_play),
            MainState::PlayingRange(r) => moved(
                m,
                MainState::PausedPlayingRange(r),
                seq![
                    MainActionView::SetIcon(PlayPauseIcon::Playback),
                    MainActionView::PipelinePause,
                    MainActionView::AudioPause,
                ],
            ),
            MainState::Playing => moved(
                m,
                MainState::Paused,
                seq![
                    MainActionView::SetIcon(PlayPauseIcon::Playback),
                    MainActionView::AudioPause,
                    MainActionView::PipelinePause,
                ],
            ),
            MainState::EOS => seek_outcome(
                m,
                Timestamp(0),
                SeekFlag::Accurate,
                first_step(Timestamp(0), limits),
            ),
            MainState::Stopped => select_media_outcome(m),
            _ => unchanged(m),
        }
    }
}

/// The outcome of a request to play the range from `start` to `end` in `m`, then to
/// go back to `to_restore`.
pub open spec fn play_range_outcome(
    m: MainModel,
    start: Timestamp,
    end: Timestamp,
    to_restore: Timestamp,
) -> MainOutcome {
    match m.state {
        MainState::Paused | MainState::PlayingRange(_) | MainState::PausedPlayingRange(_) => moved(
            m,
            MainState::PlayingRange(to_restore),
            seq![
                MainActionView::SetIcon(PlayPauseIcon::Pause),
                MainActionView::AudioStartPlayRange(to_restore),
                MainActionView::PipelineSeekRange(start, end),
            ],
        ),
        _ => unchanged(m),
    }
}

/// The state after the user gave up selecting a media in `m`.
pub open spec fn cancel_select_media_outcome(m: MainModel) -> MainModel {
    if m.state is PendingSelectMediaDecision {
        MainModel {
            state: if m.has_pipeline {
                MainState::Paused
            } else {
                MainState::Stopped
            },
            ..m
        }
    } else {
        m
    }
}

/// The outcome of the event `e` from the media pipeline in `m`.
pub open spec fn media_event_outcome(
    m: MainModel,
    e: MediaEventView,
    limits: WaveformLimits,
) -> MainOutcome {
    match m.state {
        MainState::Playing => match e {
            MediaEventView::Eos => moved(
                m,
                MainState::EOS,
                seq![MainActionView::SetIcon(PlayPauseIcon::Playback), MainActionView::AudioPause],
            ),
            MediaEventView::StreamsSelected => moved(
                m,
                m.state,
                seq![MainActionView::StreamsSelected],
            ),
            _ => unchanged(m),
        },
        MainState::PlayingRange(to_restore) => match e {
            MediaEventView::Eos => moved(
                m,
                MainState::CompletePlayRange(to_restore),
                seq![MainActionView::PipelinePause],
            ),
            MediaEventView::StreamsSelected => moved(
                m,
                m.state,
                seq![MainActionView::StreamsSelected],
            ),
            _ => unchanged(m),
        },
        MainState::CompletePlayRange(to_restore) => match e {
            MediaEventView::ReadyToRefresh => moved(
                m,
                m.state,
                seq![MainActionView::PipelineSeek(to_restore, SeekFlag::Accurate)],
            ),
            MediaEventView::AsyncDone(_) => moved(
                m,
                MainState::Paused,
                seq![
                    MainActionView::SetIcon(PlayPauseIcon::Playback),
                    MainActionView::AudioStopPlayRange,
                ],
            ),
            _ => unchanged(m),
        },
        MainState::Seeking(ts) => match e {
            MediaEventView::AsyncDone(s) => moved(
                m,
                if s == PlaybackState::Playing {
                    MainState::Playing
                } else {
                    MainState::Paused
                },
                seq![MainActionView::SeekDone(ts)],
            ),
            _ => unchanged(m),
        },
        MainState::TwoStepsSeek(target) => match e {
            MediaEventView::ReadyToRefresh => seek_outcome(
                m,
                target,
                SeekFlag::Accurate,
                first_step(target, limits),
            ),
            _ => unchanged(m),
        },
        MainState::Paused => match e {
            MediaEventView::ReadyToRefresh => moved(m, m.state, seq![MainActionView::AudioRefresh]),
            MediaEventView::StreamsSelected => moved(
                m,
                m.state,
                seq![MainActionView::StreamsSelected],
            ),
            _ => unchanged(m),
        },
        MainState::EOS | MainState::PausedPlayingRange(_) => match e {
            MediaEventView::StreamsSelected => moved(
                m,
                m.state,
                seq![MainActionView::StreamsSelected],
            ),
            _ => unchanged(m),
        },
        MainState::PendingSeek(ts) => match e {
            MediaEventView::ReadyToRefresh => seek_outcome(
                MainModel { state: MainState::Paused, ..m },
                ts,
                SeekFlag::Accurate,
                first_step(ts, limits),
            ),
            _ => unchanged(m),
        },
        MainState::PendingPaused => match e {
            MediaEventView::ReadyToRefresh => MainOutcome {
                model: MainModel { state: MainState::Paused, has_paused_callback: false, ..m },
                actions: if m.has_paused_callback {
                    seq![MainActionView::RunPausedCallback]
                } else {
                    seq![]
                },
                events: seq![],
            },
            _ => unchanged(m),
        },
        MainState::PendingSelectMedia => match e {
            MediaEventView::ReadyToRefresh => select_media_outcome(m),
            _ => unchanged(m),
        },
        MainState::Stopped | MainState::PendingSelectMediaDecision => match e {
            MediaEventView::InitDone => MainOutcome {
                model: MainModel { state: MainState::Paused, ..m },
                actions: seq![MainActionView::NewMedia, MainActionView::StreamsSelected] + match missing_report(m.plugins) {
                    Some((list, n)) => seq![MainActionView::ReportMissingPlugins(list, n)],
                    None => seq![],
                } + seq![MainActionView::AudioPause],
                events: seq![UIEventView::ResetCursor],
            },
            MediaEventView::MissingPlugin(p) => MainOutcome {
                model: MainModel {
                    plugins: if m.plugins.contains(p) {
                        m.plugins
                    } else {
                        m.plugins.push(p)
                    },
                    ..m
                },
                actions: seq![],
                events: seq![],
            },
            MediaEventView::FailedToOpenMedia(error) => MainOutcome {
                model: MainModel { state: MainState::Stopped, has_pipeline: false, ..m },
                actions: seq![
                    MainActionView::DropPipeline,
                    MainActionView::ReportOpenError(error, missing_report(m.plugins)),
                ],
                events: seq![UIEventView::ResetCursor],
            },
            MediaEventView::GLSinkError => MainOutcome {
                model: MainModel { state: MainState::Stopped, has_pipeline: false, ..m },
                actions: seq![MainActionView::DropPipeline, MainActionView::DisableGlSink],
                events: seq![UIEventView::ResetCursor],
            },
            _ => unchanged(m),
        },
    }
}

/// The decisions of the main window.
///
/// The widgets and the media pipeline are left to the caller, which performs the
/// actions the methods return, in order.
pub struct MainController {
    pub state: MainState,
    pub has_pipeline: bool,
    /// Something asked to run once the playback is paused.
    pub has_paused_callback: bool,
    missing_plugins: Vec<String>,
}

impl View for MainController {
    type V = MainModel;

    closed spec fn view(&self) -> MainModel {
        MainModel {
            state: self.state,
            has_pipeline: self.has_pipeline,
            has_paused_callback: self.has_paused_callback,
            plugins: self.missing_plugins@.map_values(|p: String| p@),
        }
    }
}

/// A media pipeline exists in every state but those which wait for one, and no
/// plugin is reported twice.
pub open spec fn main_wf(m: MainModel) -> bool {
    &&& !(m.state is Stopped || m.state is PendingSelectMediaDecision) ==> m.has_pipeline
    &&& m.plugins.no_duplicates()
}

fn emit(actions: &mut Vec<MainAction>, action: MainAction)
    ensures
        actions_view(final(actions)@) == actions_view(old(actions)@).push(action@),
{
    let ghost before = actions@;
    actions.push(action);
    assert(actions_view(actions@) =~= actions_view(before).push(action@));
}

impl MainController {
    pub closed spec fn wf(&self) -> bool {
        main_wf(self@)
    }

    pub fn new() -> (ctrl: Self)
        ensures
            ctrl.wf(),
            ctrl@.state == MainState::Stopped,
            !ctrl@.has_pipeline,
            !ctrl@.has_paused_callback,
            ctrl@.plugins == Seq::<Seq<char>>::empty(),
    {
        let ctrl = MainController {
            state: MainState::Stopped,
            has_pipeline: false,
            has_paused_callback: false,
            missing_plugins: Vec::new(),
        };
        assert(ctrl@.plugins =~= Seq::<Seq<char>>::empty());
        ctrl
    }

    /// The missing plugins joined, and how many they are; none when there is none.
    pub fn missing_plugins_report(&self) -> (r: Option<(String, usize)>)
        ensures
            match r {
                Some((list, n)) => missing_report(self@.plugins) == Some((list@, n)),
                None => missing_report(self@.plugins) is None,
            },
    {
        let n = self.missing_plugins.len();
        if n == 0 {
            return None;
        }
        let ghost plugins = self@.plugins;
        let mut list = self.missing_plugins[0].clone();
        let sep = ", ";
        proof {
            reveal_strlit(", ");
            assert(plugins.subrange(0, 1) =~= seq![plugins[0]]);
            assert(joined(plugins.subrange(0, 1)) == plugins[0]);
        }
        let mut i: usize = 1;
        while i < n
            invariant
                1 <= i <= n,
                n == self.missing_plugins@.len(),
                plugins == self@.plugins,
                sep@ == seq![',', ' '],
                list@ == joined(plugins.subrange(0, i as int)),
            decreases n - i,
        {
            list.append(sep);
            list.append(self.missing_plugins[i].as_str());
            proof {
                let next = plugins.subrange(0, i + 1);
                assert(next.drop_last() =~= plugins.subrange(0, i as int));
                assert(next.last() == plugins[i as int]);
            }
            i = i + 1;
        }
        assert(plugins.subrange(0, n as int) =~= plugins);
        Some((list, n))
    }

    /// Holds the playback: the waiting cursor shows and the media pauses.
    pub fn hold(&mut self, channel: &mut UIEventChannel) -> (actions: Vec<MainAction>)
        ensures
            final(self)@ == old(self)@,
            actions_view(actions@) == hold_actions(old(self)@.has_pipeline),
            final(channel).view() == old(channel).view().push(UIEventView::SetCursorWaiting),
    {
        let mut actions = Vec::new();
        self.hold_into(channel, &mut actions);
        assert(actions_view(actions@) =~= Seq::<MainActionView>::empty() + hold_actions(
            old(self)@.has_pipeline,
        ));
        actions
    }

    fn hold_into(&mut self, channel: &mut UIEventChannel, actions: &mut Vec<MainAction>)
        ensures
            final(self)@ == old(self)@,
            actions_view(final(actions)@) == actions_view(old(actions)@) + hold_actions(
                old(self)@.has_pipeline,
            ),
            final(channel).view() == old(channel).view().push(UIEventView::SetCursorWaiting),
    {
        set_cursor_waiting(channel);
        emit(actions, MainAction::AudioPause);
        emit(actions, MainAction::SetIcon(PlayPauseIcon::Playback));
        if self.has_pipeline {
            emit(actions, MainAction::PipelinePause);
        }
        assert(actions_view(actions@) =~= actions_view(old(actions)@) + hold_actions(
            old(self)@.has_pipeline,
        ));
    }

    fn select_media_into(&mut self, channel: &mut UIEventChannel, actions: &mut Vec<MainAction>)
        requires
            old(self).wf(),
        ensures
            final(self).wf(),
            final(self)@ == select_media_outcome(old(self)@).model,
            actions_view(final(actions)@) == actions_view(old(actions)@) + select_media_outcome(
                old(self)@,
            ).actions,
            final(channel).view() == old(channel).view() + select_media_outcome(
                old(self)@,
            ).events,
    {
        match self.state {
            MainState::Playing | MainState::EOS => {
                self.hold_into(channel, actions);
                self.state = MainState::PendingSelectMedia;
            },
            _ => {
                self.state = MainState::PendingSelectMediaDecision;
                info_bar::hide_info_bar(channel);
                emit(actions, MainAction::ShowFileDialog);
            },
        }
        assert(final(channel).view() =~= old(channel).view() + select_media_outcome(
            old(self)@,
        ).events);
        assert(actions_view(actions@) =~= actions_view(old(actions)@) + select_media_outcome(
            old(self)@,
        ).actions);
    }

    /// Lets the user select a media, once the playback is held if it is playing.
    pub fn select_media(&mut self, channel: &mut UIEventChannel) -> (actions: Vec<MainAction>)
        requires
            old(self).wf(),
        ensures
            final(self).wf(),
            final(self)@ == select_media_outcome(old(self)@).model,
            actions_view(actions@) == select_media_outcome(old(self)@).actions,
            final(channel).view() == old(channel).view() + select_media_outcome(
                old(self)@,
            ).events,
    {
        let mut actions = Vec::new();
        self.select_media_into(channel, &mut actions);
        assert(actions_view(actions@) =~= Seq::<MainActionView>::empty() + select_media_outcome(
            old(self)@,
        ).actions);
        actions
    }

    fn seek_into(
        &mut self,
        actions: &mut Vec<MainAction>,
        ts: Timestamp,
        flag: SeekFlag,
        limits: &WaveformLimits,
    )
        requires
            old(self).wf(),
            limits_fit(*limits),
        ensures
            final(self).wf(),
            final(self)@ == seek_outcome(old(self)@, ts, flag, first_step(ts, *limits)).model,
            actions_view(final(actions)@) == actions_view(old(actions)@) + seek_outcome(
                old(self)@,
                ts,
                flag,
                first_step(ts, *limits),
            ).actions,
    {
        let ghost outcome = seek_outcome(old(self)@, ts, flag, first_step(ts, *limits));
        match self.state {
            MainState::Playing => {
                self.state = MainState::Seeking(ts);
                emit(actions, MainAction::AudioSeek);
                emit(actions, MainAction::PipelineSeek(ts, flag));
            },
            MainState::Paused | MainState::PausedPlayingRange(_) => {
                match first_ts_for_paused_seek(ts, limits) {
                    Some(first) => {
                        self.state = MainState::TwoStepsSeek(ts);
                        emit(actions, MainAction::AudioSeek);
                        emit(actions, MainAction::PipelineSeek(first, SeekFlag::Accurate));
                    },
                    None => {
                        self.state = MainState::Seeking(ts);
                        emit(actions, MainAction::AudioSeek);
                        emit(actions, MainAction::PipelineSeek(ts, SeekFlag::Accurate));
                    },
                }
            },
            MainState::PlayingRange(_) => {
                self.state = MainState::PendingSeek(ts);
                emit(actions, MainAction::PipelinePause);
            },
            MainState::TwoStepsSeek(target) => {
                self.state = MainState::Seeking(target);
                emit(actions, MainAction::PipelineSeek(target, flag));
            },
            MainState::EOS => {
                self.state = MainState::Seeking(ts);
                emit(actions, MainAction::AudioPlay);
                emit(actions, MainAction::AudioSeek);
                emit(actions, MainAction::PipelineSeek(ts, flag));
            },
            _ => {},
        }
        assert(actions_view(actions@) =~= actions_view(old(actions)@) + outcome.actions);
        assert(self@ == outcome.model);
    }

    /// Seeks to `ts`, as precisely as `flag` says; a seek while paused is always
    /// accurate, and may first go before `ts` as `limits` tell.
    pub fn seek(&mut self, ts: Timestamp, flag: SeekFlag, limits: &WaveformLimits) -> (actions: Vec<
        MainAction,
    >)
        requires
            old(self).wf(),
            limits_fit(*limits),
        ensures
            final(self).wf(),
            final(self)@ == seek_outcome(old(self)@, ts, flag, first_step(ts, *limits)).model,
            actions_view(actions@) == seek_outcome(
                old(self)@,
                ts,
                flag,
                first_step(ts, *limits),
            ).actions,
    {
        let mut actions = Vec::new();
        self.seek_into(&mut actions, ts, flag, limits);
        assert(actions_view(actions@) =~= Seq::<MainActionView>::empty() + seek_outcome(
            old(self)@,
            ts,
            flag,
            first_step(ts, *limits),
        ).actions);
        actions
    }

    /// Plays or pauses, or lets the user select a media when there is none.
    pub fn play_pause(&mut self, channel: &mut UIEventChannel, limits: &WaveformLimits) -> (actions:
        Vec<MainAction>)
        requires
            old(self).wf(),
            limits_fit(*limits),
        ensures
            final(self).wf(),
            final(self)@ == play_pause_outcome(old(self)@, *limits).model,
            actions_view(actions@) == play_pause_outcome(old(self)@, *limits).actions,
            final(channel).view() == old(channel).view() + play_pause_outcome(
                old(self)@,
                *limits,
            ).events,
    {
        let ghost outcome = play_pause_outcome(old(self)@, *limits);
        let mut actions = Vec::new();
        if !self.has_pipeline {
            self.select_media_into(channel, &mut actions);
        } else {
            match self.state {
                MainState::Paused => {
                    self.state = MainState::Playing;
                    emit(&mut actions, MainAction::SetIcon(PlayPauseIcon::Pause));
                    emit(&mut actions, MainAction::AudioPlay);
                    emit(&mut actions, MainAction::PipelinePlay);
                },
                MainState::PausedPlayingRange(to_restore) => {
                    self.state = MainState::PlayingRange(to_restore);
                    emit(&mut actions, MainAction::SetIcon(PlayPauseIcon::Pause));
                    emit(&mut actions, MainAction::AudioPlay);
                    emit(&mut actions, MainAction::PipelinePlay);
                },
                MainState::PlayingRange(to_restore) => {
                    self.state = MainState::PausedPlayingRange(to_restore);
                    emit(&mut actions, MainAction::SetIcon(PlayPauseIcon::Playback));
                    emit(&mut actions, MainAction::PipelinePause);
                    emit(&mut actions, MainAction::AudioPause);
                },
                MainState::Playing => {
                    self.state = MainState::Paused;
                    emit(&mut actions, MainAction::SetIcon(PlayPauseIcon::Playback));
                    emit(&mut actions, MainAction::AudioPause);
                    emit(&mut actions, MainAction::PipelinePause);
                },
                MainState::EOS => {
                    // restart from the beginning
                    self.seek_into(&mut actions, Timestamp(0), SeekFlag::Accurate, limits);
                },
                MainState::Stopped => {
                    self.select_media_into(channel, &mut actions);
                },
                _ => {},
            }
        }
        assert(actions_view(actions@) =~= outcome.actions);
        assert(final(channel).view() =~= old(channel).view() + outcome.events);
        actions
    }

    /// Plays the range from `start` to `end`; `to_restore` is the position to go back
    /// to once it is done.
    pub fn play_range(&mut self, start: Timestamp, end: Timestamp, to_restore: Timestamp) -> (actions:
        Vec<MainAction>)
        requires
            old(self).wf(),
        ensures
            final(self).wf(),
            final(self)@ == play_range_outcome(old(self)@, start, end, to_restore).model,
            actions_view(actions@) == play_range_outcome(old(self)@, start, end, to_restore).actions,
    {
        let mut actions = Vec::new();
        match self.state {
            MainState::Paused | MainState::PlayingRange(_) | MainState::PausedPlayingRange(_) => {
                emit(&mut actions, MainAction::SetIcon(PlayPauseIcon::Pause));
                emit(&mut actions, MainAction::AudioStartPlayRange(to_restore));
                self.state = MainState::PlayingRange(to_restore);
                emit(&mut actions, MainAction::PipelineSeekRange(start, end));
                assert(actions_view(actions@) =~= seq![
                    MainActionView::SetIcon(PlayPauseIcon::Pause),
                    MainActionView::AudioStartPlayRange(to_restore),
                    MainActionView::PipelineSeekRange(start, end),
                ]);
            },
            _ => {
                assert(actions_view(actions@) =~= Seq::<MainActionView>::empty());
            },
        }
        actions
    }

    /// Pauses, then runs what the caller asked: at once when already paused, else when
    /// the pipeline reports that it is paused.
    pub fn pause_and_callback(&mut self) -> (actions: Vec<MainAction>)
        requires
            old(self).wf(),
            old(self)@.state is Playing || old(self)@.state is EOS || old(self)@.state is Paused,
        ensures
            final(self).wf(),
            old(self)@.state is Paused ==> final(self)@ == old(self)@ && actions_view(actions@)
                == hold_actions(old(self)@.has_pipeline).push(MainActionView::RunPausedCallback),
            !(old(self)@.state is Paused) ==> final(self)@ == (MainModel {
                state: MainState::PendingPaused,
                has_paused_callback: true,
                ..old(self)@
            }) && actions_view(actions@) == hold_actions(old(self)@.has_pipeline),
    {
        let mut actions = Vec::new();
        emit(&mut actions, MainAction::AudioPause);
        emit(&mut actions, MainAction::SetIcon(PlayPauseIcon::Playback));
        if self.has_pipeline {
            emit(&mut actions, MainAction::PipelinePause);
        }
        assert(actions_view(actions@) =~= hold_actions(old(self)@.has_pipeline));
        match self.state {
            MainState::Paused => {
                emit(&mut actions, MainAction::RunPausedCallback);
            },
            _ => {
                self.has_paused_callback = true;
                self.state = MainState::PendingPaused;
            },
        }
        actions
    }

    /// Other streams were handed to the pipeline for playback. While playing, the
    /// panels wait for the pipeline to report the new selection; otherwise they take
    /// it into account at once.
    pub fn select_streams(&self) -> (actions: Vec<MainAction>)
        ensures
            actions_view(actions@) == (if self@.state == MainState::Playing {
                Seq::<MainActionView>::empty()
            } else {
                seq![MainActionView::StreamsSelected]
            }),
    {
        let mut actions = Vec::new();
        if !matches!(self.state, MainState::Playing) {
            emit(&mut actions, MainAction::StreamsSelected);
        }
        assert(actions_view(actions@) =~= (if self.state == MainState::Playing {
            Seq::<MainActionView>::empty()
        } else {
            seq![MainActionView::StreamsSelected]
        }));
        actions
    }

    /// Forgets the media before another is opened: the actions stop the pipeline and
    /// reset the panels.
    pub fn close_media(&mut self) -> (actions: Vec<MainAction>)
        requires
            old(self).wf(),
        ensures
            final(self).wf(),
            final(self)@ == (MainModel {
                state: MainState::Stopped,
                has_pipeline: false,
                plugins: Seq::empty(),
                ..old(self)@
            }),
            actions_view(actions@) == (if old(self)@.has_pipeline {
                seq![MainActionView::DropPipeline, MainActionView::CleanupAll]
            } else {
                seq![MainActionView::CleanupAll]
            }),
    {
        let mut actions = Vec::new();
        if self.has_pipeline {
            emit(&mut actions, MainAction::DropPipeline);
            self.has_pipeline = false;
        }
        emit(&mut actions, MainAction::CleanupAll);
        self.state = MainState::Stopped;
        self.missing_plugins.clear();
        assert(self@.plugins =~= Seq::<Seq<char>>::empty());
        assert(actions_view(actions@) =~= if old(self)@.has_pipeline {
            seq![MainActionView::DropPipeline, MainActionView::CleanupAll]
        } else {
            seq![MainActionView::CleanupAll]
        });
        actions
    }

    /// Takes into account the attempt to open a media: `Ok` when its pipeline could be
    /// built, else the reason why not.
    pub fn media_opened(&mut self, channel: &mut UIEventChannel, opened: Result<(), String>) -> (actions:
        Vec<MainAction>)
        requires
            old(self).wf(),
            old(self)@.state is Stopped,
        ensures
            final(self).wf(),
            match opened {
                Ok(()) => {
                    &&& final(self)@ == (MainModel { has_pipeline: true, ..old(self)@ })
                    &&& actions@.len() == 0
                    &&& final(channel).view() == old(channel).view()
                },
                Err(error) => {
                    &&& final(self)@ == old(self)@
                    &&& actions_view(actions@) == seq![
                        MainActionView::ReportOpenError(error@, missing_report(old(self)@.plugins)),
                    ]
                    &&& final(channel).view() == old(channel).view().push(UIEventView::ResetCursor)
                },
            },
    {
        let mut actions = Vec::new();
        match opened {
            Ok(()) => {
                self.has_pipeline = true;
            },
            Err(error) => {
                reset_cursor(channel);
                let missing = self.missing_plugins_report();
                emit(&mut actions, MainAction::ReportOpenError(error, missing));
                assert(actions_view(actions@) =~= seq![
                    MainActionView::ReportOpenError(error@, missing_report(old(self)@.plugins)),
                ]);
            },
        }
        actions
    }

    /// The user gave up selecting a media.
    pub fn cancel_select_media(&mut self)
        requires
            old(self).wf(),
        ensures
            final(self).wf(),
            final(self)@ == cancel_select_media_outcome(old(self)@),
    {
        if self.state == MainState::PendingSelectMediaDecision {
            self.state = if self.has_pipeline {
                MainState::Paused
            } else {
                MainState::Stopped
            };
        }
    }

    /// Notes that `plugin` is missing, unless it was already noted.
    fn insert_missing_plugin(&mut self, plugin: String)
        requires
            old(self).wf(),
        ensures
            final(self).wf(),
            final(self)@ == (MainModel {
                plugins: if old(self)@.plugins.contains(plugin@) {
                    old(self)@.plugins
                } else {
                    old(self)@.plugins.push(plugin@)
                },
                ..old(self)@
            }),
    {
        let ghost plugins = self@.plugins;
        let mut i: usize = 0;
        while i < self.missing_plugins.len()
            invariant
                0 <= i <= self.missing_plugins@.len(),
                plugins == self@.plugins,
                self@ == old(self)@,
                self.wf(),
                forall|j: int| 0 <= j < i ==> plugins[j] != plugin@,
            decreases self.missing_plugins@.len() - i,
        {
            if self.missing_plugins[i] == plugin {
                assert(plugins[i as int] == plugin@);
                return;
            }
            i = i + 1;
        }
        proof {
            assert(!plugins.contains(plugin@)) by {
                if plugins.contains(plugin@) {
                    let j = choose|j: int| 0 <= j < plugins.len() && plugins[j] == plugin@;
                    assert(plugins[j] != plugin@);
                }
            }
        }
        self.missing_plugins.push(plugin);
        assert(self@.plugins =~= plugins.push(plugin@));
    }

    /// Handles `event` from the media pipeline; `limits` tell where a seek while
    /// paused must go first.
    #[verifier::rlimit(40)]
    pub fn handle_media_event(
        &mut self,
        channel: &mut UIEventChannel,
        event: MediaEvent,
        limits: &WaveformLimits,
    ) -> (actions: Vec<MainAction>)
        requires
            old(self).wf(),
            limits_fit(*limits),
            event is InitDone && (old(self)@.state is Stopped
                || old(self)@.state is PendingSelectMediaDecision) ==> old(self)@.has_pipeline,
        ensures
            final(self).wf(),
            final(self)@ == media_event_outcome(old(self)@, event@, *limits).model,
            actions_view(actions@) == media_event_outcome(old(self)@, event@, *limits).actions,
            final(channel).view() == old(channel).view() + media_event_outcome(
                old(self)@,
                event@,
                *limits,
            ).events,
    {
        let ghost outcome = media_event_outcome(old(self)@, event@, *limits);
        let mut actions = Vec::new();
        match self.state {
            MainState::Playing => match event {
                MediaEvent::Eos => {
                    self.state = MainState::EOS;
                    emit(&mut actions, MainAction::SetIcon(PlayPauseIcon::Playback));
                    emit(&mut actions, MainAction::AudioPause);
                },
                MediaEvent::StreamsSelected => emit(&mut actions, MainAction::StreamsSelected),
                _ => {},
            },
            MainState::PlayingRange(to_restore) => match event {
                MediaEvent::Eos => {
                    // end of the range: pause, then seek back to the position to restore
                    emit(&mut actions, MainAction::PipelinePause);
                    self.state = MainState::CompletePlayRange(to_restore);
                },
                MediaEvent::StreamsSelected => emit(&mut actions, MainAction::StreamsSelected),
                _ => {},
            },
            MainState::CompletePlayRange(to_restore) => match event {
                MediaEvent::ReadyToRefresh => {
                    emit(&mut actions, MainAction::PipelineSeek(to_restore, SeekFlag::Accurate));
                },
                MediaEvent::AsyncDone(_) => {
                    emit(&mut actions, MainAction::SetIcon(PlayPauseIcon::Playback));
                    self.state = MainState::Paused;
                    emit(&mut actions, MainAction::AudioStopPlayRange);
                },
                _ => {},
            },
            MainState::Seeking(ts) => match event {
                MediaEvent::AsyncDone(playback_state) => {
                    self.state = match playback_state {
                        PlaybackState::Playing => MainState::Playing,
                        PlaybackState::Paused => MainState::Paused,
                    };
                    emit(&mut actions, MainAction::SeekDone(ts));
                },
                _ => {},
            },
            MainState::TwoStepsSeek(target) => match event {
                MediaEvent::ReadyToRefresh => {
                    self.seek_into(&mut actions, target, SeekFlag::Accurate, limits);
                },
                _ => {},
            },
            MainState::Paused => match event {
                MediaEvent::ReadyToRefresh => emit(&mut actions, MainAction::AudioRefresh),
                MediaEvent::StreamsSelected => emit(&mut actions, MainAction::StreamsSelected),
                _ => {},
            },
            MainState::EOS | MainState::PausedPlayingRange(_) => match event {
                MediaEvent::StreamsSelected => emit(&mut actions, MainAction::StreamsSelected),
                _ => {},
            },
            MainState::PendingSeek(ts) => match event {
                MediaEvent::ReadyToRefresh => {
                    self.state = MainState::Paused;
                    self.seek_into(&mut actions, ts, SeekFlag::Accurate, limits);
                },
                _ => {},
            },
            MainState::PendingPaused => match event {
                MediaEvent::ReadyToRefresh => {
                    self.state = MainState::Paused;
                    if self.has_paused_callback {
                        self.has_paused_callback = false;
                        emit(&mut actions, MainAction::RunPausedCallback);
                    }
                },
                _ => {},
            },
            MainState::PendingSelectMedia => match event {
                MediaEvent::ReadyToRefresh => {
                    self.select_media_into(channel, &mut actions);
                },
                _ => {},
            },
            MainState::Stopped | MainState::PendingSelectMediaDecision => match event {
                MediaEvent::InitDone => {
                    emit(&mut actions, MainAction::NewMedia);
                    emit(&mut actions, MainAction::StreamsSelected);
                    if let Some((list, n)) = self.missing_plugins_report() {
                        emit(&mut actions, MainAction::ReportMissingPlugins(list, n));
                    }
                    emit(&mut actions, MainAction::AudioPause);
                    reset_cursor(channel);
                    self.state = MainState::Paused;
                },
                MediaEvent::MissingPlugin(plugin) => {
                    self.insert_missing_plugin(plugin);
                },
                MediaEvent::FailedToOpenMedia(error) => {
                    self.has_pipeline = false;
                    emit(&mut actions, MainAction::DropPipeline);
                    self.state = MainState::Stopped;
                    reset_cursor(channel);
                    let missing = self.missing_plugins_report();
                    emit(&mut actions, MainAction::ReportOpenError(error, missing));
                },
                MediaEvent::GLSinkError => {
                    self.has_pipeline = false;
                    emit(&mut actions, MainAction::DropPipeline);
                    self.state = MainState::Stopped;
                    reset_cursor(channel);
                    emit(&mut actions, MainAction::DisableGlSink);
                },
                _ => {},
            },
        }
        assert(actions_view(actions@) =~= outcome.actions);
        assert(final(channel).view() =~= old(channel).view() + outcome.events);
        actions
    }
}

/// Pressing play / pause twice while playing or paused comes back to where it was.
pub proof fn lemma_play_pause_twice_restores(m: MainModel, limits: WaveformLimits)
    requires
        m.has_pipeline,
        m.state is Paused || m.state is Playing || m.state is PlayingRange
            || m.state is PausedPlayingRange,
    ensures
        play_pause_outcome(play_pause_outcome(m, limits).model, limits).model == m,
{
}

/// A seek while playing reaches its target: once the pipeline reports it done, the
/// media plays again and the panels learn where it is.
pub proof fn lemma_seek_while_playing_completes(
    m: MainModel,
    ts: Timestamp,
    flag: SeekFlag,
    limits: WaveformLimits,
)
    requires
        m.state is Playing,
    ensures
        ({
            let seeking = seek_outcome(m, ts, flag, first_step(ts, limits));
            let done = media_event_outcome(
                seeking.model,
                MediaEventView::AsyncDone(PlaybackState::Playing),
                limits,
            );
            &&& seeking.actions == seq![
                MainActionView::AudioSeek,
                MainActionView::PipelineSeek(ts, flag),
            ]
            &&& done.model == m
            &&& done.actions == seq![MainActionView::SeekDone(ts)]
        }),
{
}

/// A seek while paused reaches its target, in one step or in two: once the pipeline
/// reports it done, the media is paused again and the panels learn where it is.
pub proof fn lemma_seek_while_paused_completes(m: MainModel, ts: Timestamp, limits: WaveformLimits)
    requires
        m.state is Paused,
    ensures
        ({
            let seeking = seek_outcome(m, ts, SeekFlag::Accurate, first_step(ts, limits));
            let reached = match first_step(ts, limits) {
                Some(_) => media_event_outcome(
                    seeking.model,
                    MediaEventView::ReadyToRefresh,
                    limits,
                ),
                None => seeking,
            };
            let done = media_event_outcome(
                reached.model,
                MediaEventView::AsyncDone(PlaybackState::Paused),
                limits,
            );
            &&& reached.model.state == MainState::Seeking(ts)
            &&& reached.actions.last() == MainActionView::PipelineSeek(ts, SeekFlag::Accurate)
            &&& done.model == m
            &&& done.actions == seq![MainActionView::SeekDone(ts)]
        }),
{
}

/// A range played to its end brings the position back to where it was asked to, and
/// the media ends paused.
pub proof fn lemma_play_range_restores_position(
    m: MainModel,
    start: Timestamp,
    end: Timestamp,
    to_restore: Timestamp,
    limits: WaveformLimits,
)
    requires
        m.state is Paused,
    ensures
        ({
            let playing = play_range_outcome(m, start, end, to_restore);
            let ended = media_event_outcome(playing.model, MediaEventView::Eos, limits);
            let refreshed = media_event_outcome(
                ended.model,
                MediaEventView::ReadyToRefresh,
                limits,
            );
            let done = media_event_outcome(
                refreshed.model,
                MediaEventView::AsyncDone(PlaybackState::Paused),
                limits,
            );
            &&& playing.actions.last() == MainActionView::PipelineSeekRange(start, end)
            &&& refreshed.actions == seq![
                MainActionView::PipelineSeek(to_restore, SeekFlag::Accurate),
            ]
            &&& done.model == m
        }),
{
}

/// Giving up the selection of a media comes back to where the request was made, when
/// a media was paused or when none was open.
pub proof fn lemma_cancel_select_media_restores(m: MainModel)
    requires
        main_wf(m),
        m.state is Paused || m.state is Stopped,
        m.state is Stopped ==> !m.has_pipeline,
    ensures
        cancel_select_media_outcome(select_media_outcome(m).model) == m,
{
}

/// A plugin reported missing twice is noted once.
pub proof fn lemma_missing_plugin_noted_once(m: MainModel, plugin: Seq<char>, limits: WaveformLimits)
    requires
        m.state is Stopped || m.state is PendingSelectMediaDecision,
    ensures
        ({
            let once = media_event_outcome(m, MediaEventView::MissingPlugin(plugin), limits);
            let twice = media_event_outcome(
                once.model,
                MediaEventView::MissingPlugin(plugin),
                limits,
            );
            &&& twice.model == once.model
            &&& once.model.plugins.contains(plugin)
        }),
{
    let once = media_event_outcome(m, MediaEventView::MissingPlugin(plugin), limits);
    if !m.plugins.contains(plugin) {
        assert(once.model.plugins[m.plugins.len() as int] == plugin);
    }
}

/// Every outcome of the main window keeps its invariant.
pub proof fn lemma_outcomes_keep_invariant(
    m: MainModel,
    e: MediaEventView,
    ts: Timestamp,
    flag: SeekFlag,
    limits: WaveformLimits,
)
    requires
        main_wf(m),
        e is InitDone && (m.state is Stopped || m.state is PendingSelectMediaDecision)
            ==> m.has_pipeline,
    ensures
        main_wf(media_event_outcome(m, e, limits).model),
        main_wf(seek_outcome(m, ts, flag, first_step(ts, limits)).model),
        main_wf(play_pause_outcome(m, limits).model),
        main_wf(select_media_outcome(m).model),
        main_wf(cancel_select_media_outcome(m)),
{
    if let MediaEventView::MissingPlugin(p) = e {
        if (m.state is Stopped || m.state is PendingSelectMediaDecision) && !m.plugins.contains(p) {
            assert(m.plugins.push(p).no_duplicates()) by {
                assert forall|i: int, j: int|
                    0 <= i < m.plugins.push(p).len() && 0 <= j < m.plugins.push(p).len() && i != j
                    implies m.plugins.push(p)[i] != m.plugins.push(p)[j] by {
                    if i < m.plugins.len() && j < m.plugins.len() {
                    } else if i < m.plugins.len() {
                        assert(m.plugins[i] == m.plugins.push(p)[i]);
                    } else {
                        assert(m.plugins[j] == m.plugins.push(p)[j]);
                    }
                }
            }
        }
    }
}

/// Restoring the context after a temporary switch gives the focus and the
/// accelerators back to the context which had them before the switch.
pub proof fn lemma_restore_undoes_temporary_switch(focus: UIFocusContext)
    ensures
        ({
            let (after, saved, actions) = restored(focus, Some(focus));
            &&& after == focus
            &&& saved is None
            &&& actions.bind_accels_for == Some(focus)
            &&& !actions.loose_info_focus
        }),
{
}

} // verus!
