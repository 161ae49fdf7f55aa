//! The playback: the events it handles.
use vstd::prelude::*;

use crate::timestamp::Timestamp;
use crate::ui_event::{PlaybackEvent, SeekFlag, UIEvent, UIEventChannel, UIEventView};

verus! {

/// Asks to seek to `target`, as precisely as `flag` says.
pub fn seek(channel: &mut UIEventChannel, target: Timestamp, flag: SeekFlag)
    ensures
        final(channel).view() == old(channel).view().push(
            UIEventView::Playback(PlaybackEvent::Seek(target, flag)),
        ),
{
    channel.send(UIEvent::Playback(PlaybackEvent::Seek(target, flag)));
}

/// Asks to play the range which starts at `start`.
pub fn play_range(channel: &mut UIEventChannel, start: Timestamp)
    ensures
        final(channel).view() == old(channel).view().push(
            UIEventView::Playback(PlaybackEvent::PlayRange(start)),
        ),
{
    channel.send(UIEvent::Playback(PlaybackEvent::PlayRange(start)));
}

/// Asks to go to the next chapter.
pub fn next_chapter(channel: &mut UIEventChannel)
    ensures
        final(channel).view() == old(channel).view().push(
            UIEventView::Playback(PlaybackEvent::NextChapter),
        ),
{
    channel.send(UIEvent::Playback(PlaybackEvent::NextChapter));
}

/// Asks to go to the previous chapter.
pub fn previous_chapter(channel: &mut UIEventChannel)
    ensures
        final(channel).view() == old(channel).view().push(
            UIEventView::Playback(PlaybackEvent::PreviousChapter),
        ),
{
    channel.send(UIEvent::Playback(PlaybackEvent::PreviousChapter));
}

/// Signals that the end of the media was reached.
pub fn eos(channel: &mut UIEventChannel)
    ensures
        final(channel).view() == old(channel).view().push(UIEventView::Playback(PlaybackEvent::Eos)),
{
    channel.send(UIEvent::Playback(PlaybackEvent::Eos));
}

/// Signals that the range which was playing is done.
pub fn play_range_done(channel: &mut UIEventChannel)
    ensures
        final(channel).view() == old(channel).view().push(
            UIEventView::Playback(PlaybackEvent::PlayRangeDone),
        ),
{
    channel.send(UIEvent::Playback(PlaybackEvent::PlayRangeDone));
}

} // verus!
