//! The events exchanged between the parts of the user interface.
//!
//! Events are queued in a [`UIEventChannel`] and handled in the order they were sent.
use vstd::prelude::*;

use crate::timestamp::Timestamp;

verus! {

/// The part of the user interface which has the focus.
#[derive(Clone, Copy, Debug, PartialEq, Eq, Structural)]
pub enum UIFocusContext {
    ExportPage,
    InfoBar,
    PlaybackPage,
    SplitPage,
    StreamsPage,
    TextEntry,
}

/// Events for the audio waveform area.
#[derive(Clone, Copy, Debug, PartialEq, Eq, Structural)]
pub enum AudioEvent {
    Refresh,
    StepBack,
    StepForward,
    Tick,
    ZoomIn,
    ZoomOut,
}

/// Events for the chapters panel.
#[derive(Debug)]
pub enum InfoEvent {
    AddChapter,
    /// The chapter at this position in the list was clicked.
    ChapterClicked(usize),
    Refresh(Timestamp),
    RemoveChapter,
    RenameChapter(String),
    ToggleChapterList(bool),
    ToggleRepeat(bool),
}

/// Events for the information bar.
#[derive(Debug)]
pub enum InfoBarEvent {
    AskQuestion { question: String },
    Hide,
    ShowError(String),
    ShowInfo(String),
}

/// Events for the main panel.
#[derive(Debug)]
pub enum MainEvent {
    About,
    CancelSelectMedia,
    OpenMedia(String),
    Quit,
    ResetCursor,
    RestoreContext,
    SelectMedia,
    SetCursorDoubleArrow,
    SetCursorWaiting,
    ShowAll,
    SwitchTo(UIFocusContext),
    TemporarilySwitchTo(UIFocusContext),
    UpdateFocus,
}

/// How precisely a seek reaches its target.
#[derive(Clone, Copy, Debug, PartialEq, Eq, Structural)]
pub enum SeekFlag {
    /// Reach the target exactly.
    Accurate,
    /// Reach the nearest key unit, which is faster.
    KeyUnit,
}

/// Events for the playback.
#[derive(Clone, Copy, Debug, PartialEq, Eq, Structural)]
pub enum PlaybackEvent {
    /// Seek to this position.
    Seek(Timestamp, SeekFlag),
    /// Play the range starting at this position.
    PlayRange(Timestamp),
    /// Go to the next chapter.
    NextChapter,
    /// Go to the previous chapter.
    PreviousChapter,
    /// The end of the media was reached.
    Eos,
    /// The range which was playing is done.
    PlayRangeDone,
}

#[derive(Debug)]
pub enum UIEvent {
    Audio(AudioEvent),
    Info(InfoEvent),
    InfoBar(InfoBarEvent),
    Main(MainEvent),
    Playback(PlaybackEvent),
}

/// The abstract value of an event: strings are taken by their characters.
pub enum UIEventView {
    Audio(AudioEvent),
    AddChapter,
    ChapterClicked(usize),
    InfoRefresh(Timestamp),
    RemoveChapter,
    RenameChapter(Seq<char>),
    ToggleChapterList(bool),
    ToggleRepeat(bool),
    AskQuestion(Seq<char>),
    HideInfoBar,
    ShowError(Seq<char>),
    ShowInfo(Seq<char>),
    About,
    CancelSelectMedia,
    OpenMedia(Seq<char>),
    Quit,
    ResetCursor,
    RestoreContext,
    SelectMedia,
    SetCursorDoubleArrow,
    SetCursorWaiting,
    ShowAll,
    SwitchTo(UIFocusContext),
    TemporarilySwitchTo(UIFocusContext),
    UpdateFocus,
    Playback(PlaybackEvent),
}

impl View for UIEvent {
    type V = UIEventView;

    open spec fn view(&self) -> UIEventView {
        match self {
            UIEvent::Audio(e) => UIEventView::Audio(*e),
            UIEvent::Info(e) => match e {
                InfoEvent::AddChapter => UIEventView::AddChapter,
                InfoEvent::ChapterClicked(i) => UIEventView::ChapterClicked(*i),
                InfoEvent::Refresh(ts) => UIEventView::InfoRefresh(*ts),
                InfoEvent::RemoveChapter => UIEventView::RemoveChapter,
                InfoEvent::RenameChapter(t) => UIEventView::RenameChapter(t@),
                InfoEvent::ToggleChapterList(b) => UIEventView::ToggleChapterList(*b),
                InfoEvent::ToggleRepeat(b) => UIEventView::ToggleRepeat(*b),
            },
            UIEvent::InfoBar(e) => match e {
                InfoBarEvent::AskQuestion { question } => UIEventView::AskQuestion(question@),
                InfoBarEvent::Hide => UIEventView::HideInfoBar,
                InfoBarEvent::ShowError(m) => UIEventView::ShowError(m@),
                InfoBarEvent::ShowInfo(m) => UIEventView::ShowInfo(m@),
            },
            UIEvent::Main(e) => match e {
                MainEvent::About => UIEventView::About,
                MainEvent::CancelSelectMedia => UIEventView::CancelSelectMedia,
                MainEvent::OpenMedia(p) => UIEventView::OpenMedia(p@),
                MainEvent::Quit => UIEventView::Quit,
                MainEvent::ResetCursor => UIEventView::ResetCursor,
                MainEvent::RestoreContext => UIEventView::RestoreContext,
                MainEvent::SelectMedia => UIEventView::SelectMedia,
                MainEvent::SetCursorDoubleArrow => UIEventView::SetCursorDoubleArrow,
                MainEvent::SetCursorWaiting => UIEventView::SetCursorWaiting,
                MainEvent::ShowAll => UIEventView::ShowAll,
                MainEvent::SwitchTo(ctx) => UIEventView::SwitchTo(*ctx),
                MainEvent::TemporarilySwitchTo(ctx) => UIEventView::TemporarilySwitchTo(*ctx),
                MainEvent::UpdateFocus => UIEventView::UpdateFocus,
            },
            UIEvent::Playback(e) => UIEventView::Playback(*e),
        }
    }
}

/// The queue of the events waiting to be handled.
pub struct UIEventChannel {
    queue: Vec<UIEvent>,
}

impl UIEventChannel {
    /// The events waiting to be handled, in the order they will be.
    pub closed spec fn view(&self) -> Seq<UIEventView> {
        self.queue@.map_values(|e: UIEvent| e@)
    }

    pub fn new() -> (channel: Self)
        ensures
            channel.view() == Seq::<UIEventView>::empty(),
    {
        let channel = UIEventChannel { queue: Vec::new() };
        assert(channel.view() =~= Seq::<UIEventView>::empty());
        channel
    }

    /// Queues `event`.
    pub fn send(&mut self, event: UIEvent)
        ensures
            final(self).view() == old(self).view().push(event@),
    {
        let ghost before = self.view();
        self.queue.push(event);
        assert(self.view() =~= before.push(event@));
    }

    /// Hands out the oldest event waiting, if any.
    pub fn receive(&mut self) -> (event: Option<UIEvent>)
        ensures
            old(self).view().len() == 0 ==> event is None && final(self).view() == old(self).view(),
            old(self).view().len() > 0 ==> (event matches Some(e) && e@ == old(self).view()[0]
                && final(self).view() == old(self).view().drop_first()),
    {
        if self.queue.len() > 0 {
            let ghost before = self.view();
            let event = self.queue.remove(0);
            assert(self.view() =~= before.drop_first());
            Some(event)
        } else {
            None
        }
    }

    /// The number of events waiting.
    pub fn len(&self) -> (r: usize)
        ensures
            r == self.view().len(),
    {
        self.queue.len()
    }
}

/// Events are handled in the order they were sent: once the events waiting before
/// were handed out, `first` comes, then `second`, then nothing more.
pub proof fn lemma_events_delivered_in_order(
    waiting: Seq<UIEventView>,
    first: UIEventView,
    second: UIEventView,
)
    ensures
        ({
            let queued = waiting.push(first).push(second);
            &&& queued.skip(waiting.len() as int)[0] == first
            &&& queued.skip(waiting.len() as int).drop_first()[0] == second
            &&& queued.skip(waiting.len() as int).drop_first().drop_first().len() == 0
        }),
{
}

} // verus!
