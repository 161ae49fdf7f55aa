//! The chapters panel: the events it handles, and the decisions it takes as the
//! playback moves on (following the chapters, repeating one).
use vstd::prelude::*;

use crate::chapter_tree::{ChapterTreeManager, PositionStatus};
use crate::chapters_boundaries::{chapter_view, model_add, model_remove, ChapterTimestamps, RowId};
use crate::main_panel;
use crate::playback;
use crate::timestamp::Timestamp;
use crate::ui_event::{InfoEvent, PlaybackEvent, SeekFlag, UIEvent, UIEventChannel, UIEventView};

verus! {

/// Going to the previous chapter goes back to the start of the current one when the
/// position is past that start by more than this, in nanoseconds.
pub const GO_TO_PREV_CHAPTER_THRESHOLD: u64 = 1_000_000_000;

/// What must happen to the selection in the chapters list.
#[derive(Clone, Copy, Debug, PartialEq, Eq, Structural)]
pub enum ChapterSelectionChange {
    Unchanged,
    /// Select the chapter at this row.
    Select(RowId),
    /// Unselect the chapter at this row.
    Unselect(RowId),
}

/// The decisions of the chapters panel.
pub struct InfoController {
    pub chapter_manager: ChapterTreeManager,
    /// The duration of the media.
    pub duration: Timestamp,
    /// The chapter which plays is repeated.
    pub repeat_chapter: bool,
}

impl InfoController {
    pub open spec fn wf(&self) -> bool {
        self.chapter_manager.wf()
    }

    pub fn new() -> (ctrl: Self)
        ensures
            ctrl.wf(),
            ctrl.chapter_manager.tree.rows@.len() == 0,
            ctrl.chapter_manager.tree.iter is None,
            ctrl.chapter_manager.tree.selected is None,
            ctrl.chapter_manager.boundaries.view()
                == Map::<u64, crate::chapters_boundaries::SuccessiveChaptersView>::empty(),
            ctrl.duration == Timestamp(0),
            !ctrl.repeat_chapter,
            ctrl.chapter_manager.in_step(),
    {
        InfoController {
            chapter_manager: ChapterTreeManager::new(),
            duration: Timestamp(0),
            repeat_chapter: false,
        }
    }

    /// The playback reached `ts`; `is_eos` tells whether it reached the end of the
    /// media. Follows the chapters, or repeats the chapter which played. Returns what
    /// must happen to the selection in the chapters list.
    pub fn tick(&mut self, channel: &mut UIEventChannel, ts: Timestamp, is_eos: bool) -> (change:
        ChapterSelectionChange)
        requires
            old(self).wf(),
        ensures
            final(self).wf(),
            final(self).duration == old(self).duration,
            final(self).repeat_chapter == old(self).repeat_chapter,
            final(self).chapter_manager.tree.rows_view() == old(self).chapter_manager.tree.rows_view(),
            final(self).chapter_manager.tree.next_id == old(self).chapter_manager.tree.next_id,
            final(self).chapter_manager.boundaries.view() == old(
                self,
            ).chapter_manager.boundaries.view(),
            ({
                let (iter, selected, status) = old(self).chapter_manager.tree.selection_for(ts);
                &&& final(self).chapter_manager.tree.iter == iter
                &&& if old(self).repeat_chapter && is_eos {
                    // the chapters follow once the playback is back at the start
                    &&& final(self).chapter_manager.tree.selected == selected
                    &&& change == ChapterSelectionChange::Unchanged
                    &&& final(channel).view() == old(channel).view().push(
                        UIEventView::Playback(PlaybackEvent::Seek(Timestamp(0), SeekFlag::Accurate)),
                    )
                } else if old(self).repeat_chapter && (status matches PositionStatus::ChapterChanged {
                    prev_chapter: Some(_),
                }) {
                    // loop on the chapter which played
                    &&& final(self).chapter_manager.tree.selected is None
                    &&& change == ChapterSelectionChange::Unchanged
                    &&& final(channel).view() == old(channel).view().push(
                        UIEventView::Playback(
                            PlaybackEvent::Seek(status->prev_chapter->0.start, SeekFlag::Accurate),
                        ),
                    )
                } else if let PositionStatus::ChapterChanged { prev_chapter } = status {
                    &&& final(self).chapter_manager.tree.selected == selected
                    &&& change == match selected {
                        Some(s) => ChapterSelectionChange::Select(
                            old(self).chapter_manager.tree.rows@[s as int].id,
                        ),
                        None => match prev_chapter {
                            Some(prev) => ChapterSelectionChange::Unselect(prev.iter),
                            None => ChapterSelectionChange::Unchanged,
                        },
                    }
                    &&& final(channel).view() == old(channel).view().push(UIEventView::UpdateFocus)
                } else {
                    &&& final(self).chapter_manager.tree.selected == selected
                    &&& change == ChapterSelectionChange::Unchanged
                    &&& final(channel).view() == old(channel).view()
                }
            }),
    {
        let mut position_status = self.chapter_manager.update_ts(ts);
        if self.repeat_chapter {
            if is_eos {
                // wait for the playback to be back at the start before following
                position_status = PositionStatus::ChapterNotChanged;
                playback::seek(channel, Timestamp(0), SeekFlag::Accurate);
            } else if let PositionStatus::ChapterChanged { prev_chapter: Some(prev_chapter) } =
                position_status {
                // loop on the chapter which played
                position_status = PositionStatus::ChapterNotChanged;
                self.chapter_manager.unselect();
                playback::seek(channel, prev_chapter.start, SeekFlag::Accurate);
            }
        }
        if let PositionStatus::ChapterChanged { prev_chapter } = position_status {
            proof {
                if let Some(s) = self.chapter_manager.tree.selected {
                    assert(self.chapter_manager.tree.rows_view()[s as int] == old(
                        self,
                    ).chapter_manager.tree.rows_view()[s as int]);
                }
            }
            let change = match self.chapter_manager.selected() {
                Some(sel_chapter) => ChapterSelectionChange::Select(sel_chapter.iter()),
                None => match prev_chapter {
                    Some(prev_chapter) => ChapterSelectionChange::Unselect(prev_chapter.iter),
                    None => ChapterSelectionChange::Unchanged,
                },
            };
            main_panel::update_focus(channel);
            change
        } else {
            ChapterSelectionChange::Unchanged
        }
    }

    /// Adds a chapter starting at `ts`, titled `title`, unless `ts` is not before the
    /// end of the media. Returns the row of the new chapter.
    pub fn add_chapter(&mut self, ts: Timestamp, title: &str) -> (row: Option<RowId>)
        requires
            old(self).wf(),
            old(self).chapter_manager.tree.can_add(ts),
        ensures
            final(self).wf(),
            final(self).duration == old(self).duration,
            final(self).repeat_chapter == old(self).repeat_chapter,
            ts.0 >= old(self).duration.0 ==> row is None && final(self).chapter_manager
                == old(self).chapter_manager,
            old(self).chapter_manager.in_step() && old(self).chapter_manager.tree.fits_position(
                ts,
                old(self).duration,
            ) ==> final(self).chapter_manager.in_step(),
            ts.0 < old(self).duration.0 ==> ({
                let (rows, at, result) = old(self).chapter_manager.tree.added(
                    ts,
                    old(self).duration,
                    title@,
                );
                &&& final(self).chapter_manager.tree.rows_view() == rows
                &&& match result {
                    Some(added) => {
                        &&& row == Some(added.iter)
                        &&& final(self).chapter_manager.tree.selected == at
                        &&& final(self).chapter_manager.boundaries.view() == model_add(
                            old(self).chapter_manager.boundaries.view(),
                            chapter_view(
                                title@,
                                ChapterTimestamps { start: ts, end: added.end },
                                added.iter,
                            ),
                        )
                    },
                    None => {
                        &&& row is None
                        &&& final(self).chapter_manager.tree.selected == old(
                            self,
                        ).chapter_manager.tree.selected
                        &&& final(self).chapter_manager.boundaries.view() == old(
                            self,
                        ).chapter_manager.boundaries.view()
                    },
                }
            }),
    {
        if ts.0 >= self.duration.0 {
            // no chapter can start at the end
            return None;
        }
        self.chapter_manager.add_chapter(ts, self.duration, title)
    }

    /// Removes the selected chapter. Returns the row of the chapter to select, if any.
    pub fn remove_chapter(&mut self) -> (row: Option<RowId>)
        requires
            old(self).wf(),
            old(self).chapter_manager.can_remove_selected(),
        ensures
            final(self).wf(),
            old(self).chapter_manager.in_step()
                && old(self).chapter_manager.selected_follows_previous()
                ==> final(self).chapter_manager.in_step(),
            final(self).duration == old(self).duration,
            final(self).repeat_chapter == old(self).repeat_chapter,
            ({
                let (rows, iter, selected, result) = old(self).chapter_manager.tree.removed();
                &&& final(self).chapter_manager.tree.rows_view() == rows
                &&& final(self).chapter_manager.tree.iter == iter
                &&& final(self).chapter_manager.tree.selected == selected
                &&& match result {
                    Some(r) => {
                        &&& row == r.selected_iter
                        &&& final(self).chapter_manager.boundaries.view() == model_remove(
                            old(self).chapter_manager.boundaries.view(),
                            r.removed_ts,
                        )
                    },
                    None => row is None && final(self).chapter_manager.boundaries.view() == old(
                        self,
                    ).chapter_manager.boundaries.view(),
                }
            }),
    {
        self.chapter_manager.remove_selected_chapter()
    }

    /// Where going to the previous chapter from `cur_ts` leads: the start of the
    /// current chapter when `cur_ts` is past it by more than the threshold, else the
    /// start of the chapter before.
    pub fn previous_chapter(&self, cur_ts: Timestamp) -> (r: Option<Timestamp>)
        requires
            self.wf(),
            self.chapter_manager.tree.selected matches Some(s)
                ==> self.chapter_manager.tree.rows@[s as int].ts.start.0 + GO_TO_PREV_CHAPTER_THRESHOLD
                <= u64::MAX,
        ensures
            ({
                let tree = self.chapter_manager.tree;
                let prev_start = match tree.selected {
                    Some(s) => if s > 0 {
                        Some(tree.rows@[s - 1].ts.start)
                    } else {
                        None
                    },
                    None => if tree.rows@.len() > 0 {
                        Some(tree.rows@[tree.rows@.len() - 1].ts.start)
                    } else {
                        None
                    },
                };
                r == match tree.selected {
                    Some(s) => if cur_ts.0 > tree.rows@[s as int].ts.start.0
                        + GO_TO_PREV_CHAPTER_THRESHOLD {
                        Some(tree.rows@[s as int].ts.start)
                    } else {
                        prev_start
                    },
                    None => prev_start,
                }
            }),
    {
        let cur_start = match self.chapter_manager.selected() {
            Some(sel_chapter) => Some(sel_chapter.start()),
            None => None,
        };
        let prev_start = match self.chapter_manager.pick_previous() {
            Some(prev_chapter) => Some(prev_chapter.start()),
            None => None,
        };
        match cur_start {
            Some(cur_start) => if cur_ts.0 > cur_start.0 + GO_TO_PREV_CHAPTER_THRESHOLD {
                Some(cur_start)
            } else {
                prev_start
            },
            None => prev_start,
        }
    }
}

/// Asks to add a chapter at the current position.
pub fn add_chapter(channel: &mut UIEventChannel)
    ensures
        final(channel).view() == old(channel).view().push(UIEventView::AddChapter),
{
    channel.send(UIEvent::Info(InfoEvent::AddChapter));
}

/// Signals that the chapter at `index` in the list was clicked.
pub fn chapter_clicked(channel: &mut UIEventChannel, index: usize)
    ensures
        final(channel).view() == old(channel).view().push(UIEventView::ChapterClicked(index)),
{
    channel.send(UIEvent::Info(InfoEvent::ChapterClicked(index)));
}

/// Asks the chapters panel to reflect the position `ts`.
pub fn refresh(channel: &mut UIEventChannel, ts: Timestamp)
    ensures
        final(channel).view() == old(channel).view().push(UIEventView::InfoRefresh(ts)),
{
    channel.send(UIEvent::Info(InfoEvent::Refresh(ts)));
}

/// Asks to give the selected chapter the title `new_title`.
pub fn rename_chapter(channel: &mut UIEventChannel, new_title: &str)
    ensures
        final(channel).view() == old(channel).view().push(UIEventView::RenameChapter(new_title@)),
{
    channel.send(UIEvent::Info(InfoEvent::RenameChapter(new_title.to_owned())));
}

/// Asks to remove the selected chapter.
pub fn remove_chapter(channel: &mut UIEventChannel)
    ensures
        final(channel).view() == old(channel).view().push(UIEventView::RemoveChapter),
{
    channel.send(UIEvent::Info(InfoEvent::RemoveChapter));
}

/// Asks to show or to hide the chapters list.
pub fn toggle_chapter_list(channel: &mut UIEventChannel, must_show: bool)
    ensures
        final(channel).view() == old(channel).view().push(
            UIEventView::ToggleChapterList(must_show),
        ),
{
    channel.send(UIEvent::Info(InfoEvent::ToggleChapterList(must_show)));
}

/// Asks to repeat, or to stop repeating, the current chapter.
pub fn toggle_repeat(channel: &mut UIEventChannel, must_repeat: bool)
    ensures
        final(channel).view() == old(channel).view().push(UIEventView::ToggleRepeat(must_repeat)),
{
    channel.send(UIEvent::Info(InfoEvent::ToggleRepeat(must_repeat)));
}

} // verus!
