//! The list of chapters, as displayed in the chapters panel, and its manager which
//! keeps the chapters boundaries in sync with it.
//!
//! The list is a sequence of rows, each holding a chapter. It keeps track of the
//! chapter matching the current position (the selected chapter) and of a cursor
//! (`iter`) from which the search for the chapter matching a new position starts.
use vstd::prelude::*;

use crate::chapters_boundaries::{
    can_rename, chapter_view, model_add, model_remove, model_rename, ChapterTimestamps,
    ChaptersBoundaries, RowId,
};
use crate::chapters_in_step::{
    in_step, lemma_append_keeps_in_step, lemma_empty_in_step, lemma_fill_gap_keeps_in_step,
    lemma_in_step_chapter_has_boundaries, lemma_move_keeps_in_step, lemma_remove_keeps_in_step,
    lemma_rename_keeps_in_step, lemma_split_keeps_in_step, move_stays_between, names, starts_at, well_ordered,
};
use crate::timestamp::Timestamp;

verus! {

/// A row of the chapters list.
pub struct ChapterRow {
    pub id: RowId,
    pub ts: ChapterTimestamps,
    pub title: String,
}

/// The abstract value of a [`ChapterRow`].
pub struct RowView {
    pub id: RowId,
    pub ts: ChapterTimestamps,
    pub title: Seq<char>,
}

impl View for ChapterRow {
    type V = RowView;

    open spec fn view(&self) -> RowView {
        RowView { id: self.id, ts: self.ts, title: self.title@ }
    }
}

/// A chapter taken from the chapters list.
#[derive(Debug)]
pub struct ChapterEntry {
    pub iter: RowId,
    pub ts: ChapterTimestamps,
    pub title: String,
}

impl View for ChapterEntry {
    type V = RowView;

    open spec fn view(&self) -> RowView {
        RowView { id: self.iter, ts: self.ts, title: self.title@ }
    }
}

impl ChapterEntry {
    pub fn iter(&self) -> (r: RowId)
        ensures
            r == self.iter,
    {
        self.iter
    }

    pub fn title(&self) -> (r: &str)
        ensures
            r@ == self.title@,
    {
        self.title.as_str()
    }

    pub fn start(&self) -> (r: Timestamp)
        ensures
            r == self.ts.start,
    {
        self.ts.start
    }

    pub fn end(&self) -> (r: Timestamp)
        ensures
            r == self.ts.end,
    {
        self.ts.end
    }

    pub fn timestamps(&self) -> (r: ChapterTimestamps)
        ensures
            r == self.ts,
    {
        self.ts
    }
}

/// The row of a chapter and its start.
#[derive(Clone, Copy, Debug, PartialEq, Eq, Structural)]
pub struct ChapterIterStart {
    pub iter: RowId,
    pub start: Timestamp,
}

/// The row of a chapter and its end.
#[derive(Clone, Copy, Debug, PartialEq, Eq, Structural)]
pub struct ChapterIterEnd {
    pub iter: RowId,
    pub end: Timestamp,
}

#[derive(Clone, Copy, Debug, PartialEq, Eq, Structural)]
pub enum PositionStatus {
    /// The selected chapter changed; `prev_chapter` was the selected one before.
    ChapterChanged { prev_chapter: Option<ChapterIterStart> },
    ChapterNotChanged,
}

impl PositionStatus {
    pub fn from(prev_chapter: Option<ChapterIterStart>) -> (r: Self)
        ensures
            r == (PositionStatus::ChapterChanged { prev_chapter }),
    {
        PositionStatus::ChapterChanged { prev_chapter }
    }
}

/// What the removal of the selected chapter did.
#[derive(Clone, Copy, Debug, PartialEq, Eq, Structural)]
pub struct ChapterRemovalResult {
    pub removed_ts: ChapterTimestamps,
    pub selected_iter: Option<RowId>,
}

/// How the search for the chapter containing a timestamp ended.
#[derive(Clone, Copy, Debug, PartialEq, Eq, Structural)]
pub enum SearchOutcome {
    /// A chapter containing the timestamp was found.
    Found,
    /// The timestamp is before the first chapter.
    BeforeFirst,
    /// The timestamp is in a gap between chapters, or after the last chapter.
    NotFound,
}

pub open spec fn contains_ts(row: RowView, ts: u64) -> bool {
    row.ts.start.0 <= ts < row.ts.end.0
}

/// The search for the chapter containing `ts`, starting from row `idx`, forward when
/// `forward` holds. Returns the row where the search stopped and how it ended.
pub open spec fn search(rows: Seq<RowView>, idx: int, ts: u64, forward: bool) -> (int, SearchOutcome)
    decreases (if forward { 2 * rows.len() - idx } else { idx }),
{
    if idx < 0 || idx >= rows.len() {
        (idx, SearchOutcome::NotFound)
    } else {
        let row = rows[idx];
        if contains_ts(row, ts) {
            (idx, SearchOutcome::Found)
        } else if ts >= row.ts.end.0 && forward {
            if idx + 1 < rows.len() {
                search(rows, idx + 1, ts, true)
            } else {
                // no more chapters
                (idx, SearchOutcome::NotFound)
            }
        } else if ts < row.ts.start.0 {
            if idx > 0 {
                search(rows, idx - 1, ts, false)
            } else {
                (0, SearchOutcome::BeforeFirst)
            }
        } else {
            // in a gap between two chapters
            (idx, SearchOutcome::NotFound)
        }
    }
}

/// A search which finds a chapter finds one that contains the timestamp.
pub proof fn lemma_search_found_contains(rows: Seq<RowView>, idx: int, ts: u64, forward: bool)
    ensures
        ({
            let (at, outcome) = search(rows, idx, ts, forward);
            &&& outcome == SearchOutcome::Found ==> 0 <= at < rows.len() && contains_ts(rows[at], ts)
            &&& (0 <= idx < rows.len()) ==> 0 <= at < rows.len()
        }),
    decreases (if forward { 2 * rows.len() - idx } else { idx }),
{
    if 0 <= idx < rows.len() {
        let row = rows[idx];
        if contains_ts(row, ts) {
        } else if ts >= row.ts.end.0 && forward {
            if idx + 1 < rows.len() {
                lemma_search_found_contains(rows, idx + 1, ts, true);
            }
        } else if ts < row.ts.start.0 {
            if idx > 0 {
                lemma_search_found_contains(rows, idx - 1, ts, false);
            }
        }
    }
}

/// In ordered chapters, a search started at any chapter finds the chapter `k` which
/// contains `ts`, whether it lies after the start or before it. A backward search
/// starts at or after `k`.
pub proof fn lemma_search_finds_containing_row(
    rows: Seq<RowView>,
    idx: int,
    ts: u64,
    forward: bool,
    k: int,
)
    requires
        well_ordered(rows),
        0 <= k < rows.len(),
        contains_ts(rows[k], ts),
        0 <= idx < rows.len(),
        !forward ==> k <= idx,
    ensures
        search(rows, idx, ts, forward) == (k, SearchOutcome::Found),
    decreases (if forward { 2 * rows.len() - idx } else { idx }),
{
    if idx < k {
        assert(rows[idx].ts.end.0 <= rows[k].ts.start.0);
        lemma_search_finds_containing_row(rows, idx + 1, ts, forward, k);
    } else if idx > k {
        assert(rows[k].ts.end.0 <= rows[idx].ts.start.0);
        assert(rows[idx].ts.start.0 < rows[idx].ts.end.0);
        lemma_search_finds_containing_row(rows, idx - 1, ts, false, k);
    }
}

pub struct ChapterTree {
    pub rows: Vec<ChapterRow>,
    /// The cursor from which searches start.
    pub iter: Option<usize>,
    pub selected: Option<usize>,
    /// The identifier of the next row to be created.
    pub next_id: u64,
}

pub open spec fn with_end(row: RowView, end: Timestamp) -> RowView {
    RowView { ts: ChapterTimestamps { end, ..row.ts }, ..row }
}

pub open spec fn with_start(row: RowView, start: Timestamp) -> RowView {
    RowView { ts: ChapterTimestamps { start, ..row.ts }, ..row }
}

impl ChapterTree {
    pub open spec fn rows_view(&self) -> Seq<RowView> {
        self.rows@.map_values(|row: ChapterRow| row@)
    }

    pub open spec fn wf(&self) -> bool {
        &&& self.iter matches Some(i) ==> i < self.rows@.len()
        &&& self.selected matches Some(s) ==> s < self.rows@.len() && self.iter == Some(s)
        &&& forall|i: int| 0 <= i < self.rows@.len() ==> #[trigger] self.rows@[i].id.0 < self.next_id
        &&& forall|i: int, j: int|
            0 <= i < j < self.rows@.len() ==> #[trigger] self.rows@[i].id != #[trigger] self.rows@[j].id
    }

    pub fn new() -> (tree: Self)
        ensures
            tree.wf(),
            tree.rows@.len() == 0,
            tree.iter is None && tree.selected is None,
    {
        ChapterTree { rows: Vec::new(), iter: None, selected: None, next_id: 0 }
    }

    pub fn clear(&mut self)
        requires
            old(self).wf(),
        ensures
            final(self).wf(),
            final(self).rows@.len() == 0,
            final(self).iter is None && final(self).selected is None,
            final(self).next_id == old(self).next_id,
    {
        self.selected = None;
        self.iter = None;
        self.rows.clear();
    }

    pub fn unselect(&mut self)
        requires
            old(self).wf(),
        ensures
            final(self).wf(),
            final(self).rows_view() == old(self).rows_view(),
            final(self).iter == old(self).iter,
            final(self).selected is None,
            final(self).next_id == old(self).next_id,
    {
        self.selected = None;
    }

    /// Places the cursor on the first chapter and selects it when it starts at the
    /// beginning of the media.
    pub fn rewind(&mut self)
        requires
            old(self).wf(),
        ensures
            final(self).wf(),
            final(self).rows_view() == old(self).rows_view(),
            final(self).next_id == old(self).next_id,
            old(self).rows@.len() == 0 ==> final(self).iter is None && final(self).selected is None,
            old(self).rows@.len() > 0 ==> {
                &&& final(self).iter == Some(0usize)
                &&& final(self).selected == if old(self).rows@[0].ts.start.0 == 0 {
                    Some(0usize)
                } else {
                    None
                }
            },
    {
        if self.rows.len() == 0 {
            self.iter = None;
            self.selected = None;
        } else {
            self.iter = Some(0);
            self.selected = if self.rows[0].ts.start.0 == 0 {
                Some(0)
            } else {
                None
            };
        }
    }

    fn entry_at(&self, index: usize) -> (entry: ChapterEntry)
        requires
            index < self.rows@.len(),
        ensures
            entry@ == self.rows@[index as int]@,
    {
        let row = &self.rows[index];
        ChapterEntry { iter: row.id, ts: row.ts, title: row.title.clone() }
    }

    /// The chapter at position `index` in the list, if any.
    pub fn chapter_from_path(&self, index: usize) -> (entry: Option<ChapterEntry>)
        ensures
            match entry {
                Some(entry) => index < self.rows@.len() && entry@ == self.rows@[index as int]@,
                None => index >= self.rows@.len(),
            },
    {
        if index < self.rows.len() {
            Some(self.entry_at(index))
        } else {
            None
        }
    }

    pub fn selected_chapter(&self) -> (entry: Option<ChapterEntry>)
        requires
            self.wf(),
        ensures
            match self.selected {
                Some(s) => entry matches Some(e) && e@ == self.rows@[s as int]@,
                None => entry is None,
            },
    {
        match self.selected {
            Some(selected) => Some(self.entry_at(selected)),
            None => None,
        }
    }

    pub fn selected_timestamps(&self) -> (ts: Option<ChapterTimestamps>)
        requires
            self.wf(),
        ensures
            ts == match self.selected {
                Some(s) => Some(self.rows@[s as int].ts),
                None => None,
            },
    {
        match self.selected {
            Some(selected) => Some(self.rows[selected].ts),
            None => None,
        }
    }

    /// The position of the selected chapter in the list.
    pub fn selected_path(&self) -> (path: Option<usize>)
        ensures
            path == self.selected,
    {
        self.selected
    }

    pub fn iter_chapter(&self) -> (entry: Option<ChapterEntry>)
        requires
            self.wf(),
        ensures
            match self.iter {
                Some(i) => entry matches Some(e) && e@ == self.rows@[i as int]@,
                None => entry is None,
            },
    {
        match self.iter {
            Some(iter) => Some(self.entry_at(iter)),
            None => None,
        }
    }

    pub fn iter_timestamps(&self) -> (ts: Option<ChapterTimestamps>)
        requires
            self.wf(),
        ensures
            ts == match self.iter {
                Some(i) => Some(self.rows@[i as int].ts),
                None => None,
            },
    {
        match self.iter {
            Some(iter) => Some(self.rows[iter].ts),
            None => None,
        }
    }

    /// All the chapters, in the order of the list.
    pub fn entries(&self) -> (entries: Vec<ChapterEntry>)
        ensures
            entries@.len() == self.rows@.len(),
            forall|i: int| 0 <= i < entries@.len() ==> #[trigger] entries@[i]@ == self.rows@[i]@,
    {
        let mut entries: Vec<ChapterEntry> = Vec::new();
        for i in 0..self.rows.len()
            invariant
                entries@.len() == i,
                forall|j: int| 0 <= j < i ==> #[trigger] entries@[j]@ == self.rows@[j]@,
        {
            entries.push(self.entry_at(i));
        }
        entries
    }

    /// Moves the cursor to the next chapter; the cursor is dropped when there is none.
    pub fn next(&mut self) -> (entry: Option<ChapterEntry>)
        requires
            old(self).wf(),
        ensures
            final(self).wf(),
            final(self).rows_view() == old(self).rows_view(),
            final(self).selected == old(self).selected || final(self).selected is None,
            final(self).next_id == old(self).next_id,
            match old(self).iter {
                Some(i) => if i + 1 < old(self).rows@.len() {
                    &&& final(self).iter == Some((i + 1) as usize)
                    &&& entry matches Some(e) && e@ == old(self).rows@[i + 1]@
                } else {
                    final(self).iter is None && entry is None
                },
                None => final(self).iter is None && entry is None,
            },
    {
        match self.iter {
            Some(iter) => {
                let len = self.rows.len();
                if iter < len - 1 {
                    self.iter = Some(iter + 1);
                    if self.selected.is_some() {
                        self.selected = None;
                    }
                    Some(self.entry_at(iter + 1))
                } else {
                    self.iter = None;
                    self.selected = None;
                    None
                }
            },
            None => None,
        }
    }

    /// Moves the cursor to the previous chapter; the cursor is dropped when there is none.
    pub fn previous(&mut self) -> (entry: Option<ChapterEntry>)
        requires
            old(self).wf(),
        ensures
            final(self).wf(),
            final(self).rows_view() == old(self).rows_view(),
            final(self).selected == old(self).selected || final(self).selected is None,
            final(self).next_id == old(self).next_id,
            match old(self).iter {
                Some(i) => if i > 0 {
                    &&& final(self).iter == Some((i - 1) as usize)
                    &&& entry matches Some(e) && e@ == old(self).rows@[i - 1]@
                } else {
                    final(self).iter is None && entry is None
                },
                None => final(self).iter is None && entry is None,
            },
    {
        match self.iter {
            Some(iter) => {
                if iter > 0 {
                    self.iter = Some(iter - 1);
                    if self.selected.is_some() {
                        self.selected = None;
                    }
                    Some(self.entry_at(iter - 1))
                } else {
                    self.iter = None;
                    self.selected = None;
                    None
                }
            },
            None => None,
        }
    }

    /// The chapter after the selected one, or the first chapter when none is selected.
    pub fn pick_next(&self) -> (entry: Option<ChapterEntry>)
        requires
            self.wf(),
        ensures
            match self.selected {
                Some(s) => if s + 1 < self.rows@.len() {
                    entry matches Some(e) && e@ == self.rows@[s + 1]@
                } else {
                    entry is None
                },
                None => if self.rows@.len() > 0 {
                    entry matches Some(e) && e@ == self.rows@[0]@
                } else {
                    entry is None
                },
            },
    {
        match self.selected {
            Some(selected) => {
                let len = self.rows.len();
                if selected < len - 1 {
                    Some(self.entry_at(selected + 1))
                } else {
                    None
                }
            },
            None => {
                if self.rows.len() > 0 {
                    Some(self.entry_at(0))
                } else {
                    None
                }
            },
        }
    }

    /// The chapter before the selected one, or the last chapter when none is selected.
    pub fn pick_previous(&self) -> (entry: Option<ChapterEntry>)
        requires
            self.wf(),
        ensures
            match self.selected {
                Some(s) => if s > 0 {
                    entry matches Some(e) && e@ == self.rows@[s - 1]@
                } else {
                    entry is None
                },
                None => if self.rows@.len() > 0 {
                    entry matches Some(e) && e@ == self.rows@[self.rows@.len() - 1]@
                } else {
                    entry is None
                },
            },
    {
        match self.selected {
            Some(selected) => {
                if selected > 0 {
                    Some(self.entry_at(selected - 1))
                } else {
                    None
                }
            },
            None => {
                if self.rows.len() > 0 {
                    Some(self.entry_at(self.rows.len() - 1))
                } else {
                    None
                }
            },
        }
    }

    proof fn lemma_fresh_id(&self)
        requires
            self.wf(),
        ensures
            forall|i: int| 0 <= i < self.rows@.len() ==> #[trigger] self.rows@[i].id != RowId(
                self.next_id,
            ),
    {
        assert forall|i: int| 0 <= i < self.rows@.len() implies #[trigger] self.rows@[i].id != RowId(
            self.next_id,
        ) by {
            assert(self.rows@[i].id.0 < self.next_id);
        }
    }

    /// Creates a row for the chapter `ts` titled `title` at `index`.
    fn insert_row(&mut self, index: usize, ts: ChapterTimestamps, title: &str) -> (id: RowId)
        requires
            old(self).wf(),
            index <= old(self).rows@.len(),
            old(self).next_id < u64::MAX,
        ensures
            id == RowId(old(self).next_id),
            final(self).next_id == old(self).next_id + 1,
            final(self).rows_view() == old(self).rows_view().insert(
                index as int,
                RowView { id, ts, title: title@ },
            ),
            final(self).iter is None && final(self).selected is None,
            final(self).wf(),
    {
        let id = RowId(self.next_id);
        proof {
            self.lemma_fresh_id();
        }
        self.iter = None;
        self.selected = None;
        self.rows.insert(index, ChapterRow { id, ts, title: title.to_string() });
        self.next_id = self.next_id + 1;
        assert(self.rows_view() =~= old(self).rows_view().insert(
            index as int,
            RowView { id, ts, title: title@ },
        ));
        proof {
            assert forall|i: int, j: int|
                0 <= i < j < self.rows@.len() implies #[trigger] self.rows@[i].id
                != #[trigger] self.rows@[j].id by {
                if i < index && j < index {
                    assert(self.rows@[i] == old(self).rows@[i]);
                    assert(self.rows@[j] == old(self).rows@[j]);
                } else if i < index {
                    if j > index {
                        assert(self.rows@[j] == old(self).rows@[j - 1]);
                    }
                } else if i > index {
                    assert(self.rows@[i] == old(self).rows@[i - 1]);
                    assert(self.rows@[j] == old(self).rows@[j - 1]);
                } else {
                    assert(self.rows@[j] == old(self).rows@[j - 1]);
                }
            }
        }
        id
    }

    /// Appends the chapter `ts` titled `title` at the end of the list.
    pub fn add_unchecked(&mut self, ts: ChapterTimestamps, title: &str) -> (id: RowId)
        requires
            old(self).wf(),
            old(self).next_id < u64::MAX,
        ensures
            final(self).wf(),
            id == RowId(old(self).next_id),
            final(self).next_id == old(self).next_id + 1,
            final(self).rows_view() == old(self).rows_view().push(
                RowView { id, ts, title: title@ },
            ),
            final(self).iter == old(self).iter,
            final(self).selected == old(self).selected,
    {
        let iter = self.iter;
        let selected = self.selected;
        let len = self.rows.len();
        let id = self.insert_row(len, ts, title);
        self.iter = iter;
        self.selected = selected;
        assert(self.rows_view() =~= old(self).rows_view().push(RowView { id, ts, title: title@ }));
        id
    }

    /// The selection and the cursor stand where `target` is: in the selected chapter,
    /// else in the gap before the chapter at the cursor, else after the last chapter
    /// and before `duration`, the end of the media.
    ///
    /// In a gap, `target` lies past the end of the chapter before it. Where it lies right
    /// at that end, the boundaries take the added chapter as one that shares its start
    /// with the previous chapter and leave no chapter after its end, so the chapter at
    /// the cursor is no longer named at its start (see
    /// [`lemma_add_at_previous_end_leaves_step`]).
    pub open spec fn fits_position(&self, target: Timestamp, duration: Timestamp) -> bool {
        let rows = self.rows_view();
        match self.selected {
            Some(s) => rows[s as int].ts.start.0 <= target.0 < rows[s as int].ts.end.0,
            None => match self.iter {
                Some(i) => target.0 < rows[i as int].ts.start.0 && (i > 0 ==> rows[i - 1].ts.end.0
                    < target.0),
                None => target.0 < duration.0 && (rows.len() > 0 ==> rows.last().ts.end.0
                    <= target.0),
            },
        }
    }

    /// Whether a chapter can be added at `target`.
    pub open spec fn can_add(&self, target: Timestamp) -> bool {
        &&& self.next_id < u64::MAX
        &&& self.selected is None ==> (self.iter matches Some(i) ==> target.0 <= self.rows@[i as int].ts.start.0)
    }

    /// The list after adding a chapter at `target`, with `duration` the duration of the
    /// media and `title` its title, and the added chapter's row and end, if one is added.
    pub open spec fn added(self, target: Timestamp, duration: Timestamp, title: Seq<char>) -> (
        Seq<RowView>,
        Option<usize>,
        Option<ChapterIterEnd>,
    ) {
        let rows = self.rows_view();
        let id = RowId(self.next_id);
        match self.selected {
            Some(s) => {
                let sel = rows[s as int];
                if sel.ts.start != target {
                    // the selected chapter now ends at target, the new one spans the rest
                    (
                        rows.update(s as int, with_end(sel, target)).insert(
                            s + 1,
                            RowView { id, ts: ChapterTimestamps { start: target, end: sel.ts.end }, title },
                        ),
                        Some((s + 1) as usize),
                        Some(ChapterIterEnd { iter: id, end: sel.ts.end }),
                    )
                } else {
                    // a chapter already starts at target
                    (rows, None, None)
                }
            },
            None => match self.iter {
                Some(i) => {
                    // position before the first chapter or in a gap: the new chapter
                    // ends where the chapter at the cursor starts
                    let next = rows[i as int];
                    (
                        rows.insert(
                            i as int,
                            RowView {
                                id,
                                ts: ChapterTimestamps { start: target, end: next.ts.start },
                                title,
                            },
                        ),
                        Some(i),
                        Some(ChapterIterEnd { iter: id, end: next.ts.start }),
                    )
                },
                None => {
                    // past the last chapter or no chapter: the new chapter ends with the media
                    (
                        rows.push(
                            RowView { id, ts: ChapterTimestamps { start: target, end: duration }, title },
                        ),
                        Some(rows.len() as usize),
                        Some(ChapterIterEnd { iter: id, end: duration }),
                    )
                },
            },
        }
    }

    /// Adds a chapter starting at `target`, titled `title`, and selects it.
    pub fn add(&mut self, target: Timestamp, duration: Timestamp, title: &str) -> (added: Option<
        ChapterIterEnd,
    >)
        requires
            old(self).wf(),
            old(self).can_add(target),
        ensures
            final(self).wf(),
            ({
                let (rows, at, result) = old(self).added(target, duration, title@);
                &&& final(self).rows_view() == rows
                &&& added == result
                &&& match at {
                    Some(at) => final(self).selected == Some(at) && final(self).iter == Some(at)
                        && final(self).next_id == old(self).next_id + 1,
                    None => final(self).selected == old(self).selected && final(self).iter == old(
                        self,
                    ).iter && final(self).next_id == old(self).next_id,
                }
            }),
    {
        match self.selected {
            Some(selected) => {
                let len = self.rows.len();
                assert(selected < len);
                let sel_ts = self.rows[selected].ts;
                if sel_ts.start.0 != target.0 {
                    // update currently selected chapter end
                    // to match the start of the newly added chapter
                    let ghost before = self.rows_view();
                    let title_sel = self.rows[selected].title.clone();
                    let id_sel = self.rows[selected].id;
                    self.rows.set(
                        selected,
                        ChapterRow {
                            id: id_sel,
                            ts: ChapterTimestamps { start: sel_ts.start, end: target },
                            title: title_sel,
                        },
                    );
                    assert(self.rows_view() =~= before.update(
                        selected as int,
                        with_end(before[selected as int], target),
                    ));
                    assert(self.wf()) by {
                        assert forall|i: int| 0 <= i < self.rows@.len() implies self.rows@[i].id
                            == old(self).rows@[i].id by {}
                    }
                    let id = self.insert_row(
                        selected + 1,
                        ChapterTimestamps { start: target, end: sel_ts.end },
                        title,
                    );
                    assert(self.rows_view().len() == self.rows@.len());
                    assert(self.rows@.len() == len + 1);
                    self.selected = Some(selected + 1);
                    self.iter = Some(selected + 1);
                    assert(self.wf());
                    Some(ChapterIterEnd { iter: id, end: sel_ts.end })
                } else {
                    // attempting to add the new chapter at current position
                    None
                }
            },
            None => {
                match self.iter {
                    Some(iter) => {
                        // chapters are available, but none is selected:
                        // either position is before the first chapter
                        // or in a gap between two chapters
                        let next_start = self.rows[iter].ts.start;
                        let id = self.insert_row(
                            iter,
                            ChapterTimestamps { start: target, end: next_start },
                            title,
                        );
                        self.selected = Some(iter);
                        self.iter = Some(iter);
                        Some(ChapterIterEnd { iter: id, end: next_start })
                    },
                    None => {
                        // No chapter in iter:
                        // either the chapter to add is passed the end of last chapter
                        // or there is no chapter
                        let len = self.rows.len();
                        let id = self.insert_row(
                            len,
                            ChapterTimestamps { start: target, end: duration },
                            title,
                        );
                        proof {
                            assert(self.rows_view() =~= old(self).rows_view().push(
                                RowView {
                                    id,
                                    ts: ChapterTimestamps { start: target, end: duration },
                                    title: title@,
                                },
                            ));
                        }
                        self.selected = Some(len);
                        self.iter = Some(len);
                        Some(ChapterIterEnd { iter: id, end: duration })
                    },
                }
            },
        }
    }

    /// The list after removing the selected chapter, the new cursor and selection,
    /// and the removal result.
    pub open spec fn removed(self) -> (Seq<RowView>, Option<usize>, Option<usize>, Option<
        ChapterRemovalResult,
    >) {
        let rows = self.rows_view();
        match self.selected {
            None => (rows, self.iter, self.selected, None),
            Some(s) => {
                let rem = rows[s as int];
                if s > 0 {
                    // the previous chapter now ends where the removed one ended
                    let prev = with_end(rows[s - 1], rem.ts.end);
                    (
                        rows.update(s - 1, prev).remove(s as int),
                        Some((s - 1) as usize),
                        Some((s - 1) as usize),
                        Some(
                            ChapterRemovalResult {
                                removed_ts: rem.ts,
                                selected_iter: Some(prev.id),
                            },
                        ),
                    )
                } else {
                    let remaining = rows.remove(0);
                    (
                        remaining,
                        if remaining.len() > 0 { Some(0usize) } else { None },
                        None,
                        Some(ChapterRemovalResult { removed_ts: rem.ts, selected_iter: None }),
                    )
                }
            },
        }
    }

    /// Removes the selected chapter, extends the previous chapter, if any, up to the
    /// end of the removed one, and selects it.
    pub fn remove(&mut self) -> (result: Option<ChapterRemovalResult>)
        requires
            old(self).wf(),
        ensures
            final(self).wf(),
            ({
                let (rows, iter, selected, r) = old(self).removed();
                &&& final(self).rows_view() == rows
                &&& final(self).iter == iter
                &&& final(self).selected == selected
                &&& result == r
            }),
            final(self).next_id == old(self).next_id,
    {
        match self.selected {
            Some(selected) => {
                let ghost before = self.rows_view();
                let rem_ts = self.rows[selected].ts;
                self.selected = None;
                if selected > 0 {
                    let prev = selected - 1;
                    let title_prev = self.rows[prev].title.clone();
                    let id_prev = self.rows[prev].id;
                    let start_prev = self.rows[prev].ts.start;
                    self.rows.set(
                        prev,
                        ChapterRow {
                            id: id_prev,
                            ts: ChapterTimestamps { start: start_prev, end: rem_ts.end },
                            title: title_prev,
                        },
                    );
                    assert forall|k: int| 0 <= k < self.rows@.len() implies #[trigger] self.rows@[k].id
                        == old(self).rows@[k].id by {}
                    let ghost updated = self.rows@;
                    self.rows.remove(selected);
                    self.iter = Some(prev);
                    self.selected = Some(prev);
                    assert(self.rows_view() =~= before.update(
                        prev as int,
                        with_end(before[prev as int], rem_ts.end),
                    ).remove(selected as int));
                    proof {
                        assert forall|i: int, j: int|
                            0 <= i < j < self.rows@.len() implies #[trigger] self.rows@[i].id
                            != #[trigger] self.rows@[j].id by {
                            let oi = if i < selected { i } else { i + 1 };
                            let oj = if j < selected { j } else { j + 1 };
                            assert(self.rows@[i] == updated[oi]);
                            assert(self.rows@[j] == updated[oj]);
                            assert(updated[oi].id == old(self).rows@[oi].id);
                            assert(updated[oj].id == old(self).rows@[oj].id);
                        }
                        assert forall|i: int| 0 <= i < self.rows@.len() implies #[trigger] self.rows@[i].id.0
                            < self.next_id by {
                            let oi = if i < selected { i } else { i + 1 };
                            assert(self.rows@[i] == updated[oi]);
                            assert(updated[oi].id == old(self).rows@[oi].id);
                        }
                    }
                    assert(self.wf());
                    Some(ChapterRemovalResult { removed_ts: rem_ts, selected_iter: Some(id_prev) })
                } else {
                    self.rows.remove(0);
                    self.iter = if self.rows.len() > 0 {
                        Some(0)
                    } else {
                        None
                    };
                    assert(self.rows_view() =~= before.remove(0));
                    proof {
                        assert forall|i: int, j: int|
                            0 <= i < j < self.rows@.len() implies #[trigger] self.rows@[i].id
                            != #[trigger] self.rows@[j].id by {
                            assert(self.rows@[i].id == old(self).rows@[i + 1].id);
                            assert(self.rows@[j].id == old(self).rows@[j + 1].id);
                        }
                        assert forall|i: int| 0 <= i < self.rows@.len() implies #[trigger] self.rows@[i].id.0
                            < self.next_id by {
                            assert(self.rows@[i].id == old(self).rows@[i + 1].id);
                        }
                    }
                    assert(self.wf());
                    Some(ChapterRemovalResult { removed_ts: rem_ts, selected_iter: None })
                }
            },
            None => None,
        }
    }

    /// The selection and status after looking for the chapter containing `ts`.
    /// Returns (cursor, selection, status).
    pub open spec fn selection_for(self, ts: Timestamp) -> (Option<usize>, Option<usize>, PositionStatus) {
        let rows = self.rows_view();
        match self.selected {
            Some(s) if contains_ts(rows[s as int], ts.0) => (
                self.iter,
                self.selected,
                PositionStatus::ChapterNotChanged,
            ),
            _ => {
                let prev = match self.selected {
                    Some(s) => Some(ChapterIterStart { iter: rows[s as int].id, start: rows[s as int].ts.start }),
                    None => None,
                };
                let not_found_status = match prev {
                    Some(p) => PositionStatus::ChapterChanged { prev_chapter: Some(p) },
                    None => PositionStatus::ChapterNotChanged,
                };
                match self.iter {
                    None => (None, None, not_found_status),
                    Some(i) => {
                        let (at, outcome) = search(rows, i as int, ts.0, true);
                        match outcome {
                            SearchOutcome::Found => (
                                Some(at as usize),
                                Some(at as usize),
                                PositionStatus::ChapterChanged { prev_chapter: prev },
                            ),
                            SearchOutcome::BeforeFirst => (
                                Some(0usize),
                                None,
                                PositionStatus::ChapterChanged { prev_chapter: prev },
                            ),
                            SearchOutcome::NotFound => (Some(at as usize), None, not_found_status),
                        }
                    },
                }
            },
        }
    }

    /// Where the chapters are ordered and the chapter `k` contains `ts`, selecting by
    /// `ts` selects chapter `k` and moves the cursor there, from whichever chapter the
    /// cursor was at. The status tells that the chapter changed, with the one selected
    /// before, unless `k` was already selected.
    pub proof fn lemma_select_by_ts_selects_containing(self, ts: Timestamp, k: usize)
        requires
            self.wf(),
            well_ordered(self.rows_view()),
            self.iter is Some,
            0 <= k < self.rows_view().len(),
            contains_ts(self.rows_view()[k as int], ts.0),
        ensures
            self.selection_for(ts).0 == Some(k),
            self.selection_for(ts).1 == Some(k),
            self.selection_for(ts).2 == (if self.selected == Some(k) {
                PositionStatus::ChapterNotChanged
            } else {
                PositionStatus::ChapterChanged {
                    prev_chapter: match self.selected {
                        Some(s) => Some(
                            ChapterIterStart {
                                iter: self.rows_view()[s as int].id,
                                start: self.rows_view()[s as int].ts.start,
                            },
                        ),
                        None => None,
                    },
                }
            }),
    {
        let rows = self.rows_view();
        if let Some(s) = self.selected {
            if s < k {
                assert(rows[s as int].ts.end.0 <= rows[k as int].ts.start.0);
            } else if s > k {
                assert(rows[k as int].ts.end.0 <= rows[s as int].ts.start.0);
            }
        }
        lemma_search_finds_containing_row(rows, self.iter->Some_0 as int, ts.0, true, k as int);
    }

    /// Selects the chapter containing `ts`, searching from the cursor.
    pub fn select_by_ts(&mut self, ts: Timestamp) -> (status: PositionStatus)
        requires
            old(self).wf(),
        ensures
            final(self).wf(),
            final(self).rows_view() == old(self).rows_view(),
            final(self).next_id == old(self).next_id,
            (final(self).iter, final(self).selected, status) == old(self).selection_for(ts),
    {
        let prev_sel_chapter = match self.selected {
            Some(selected) => {
                let sel_ts = self.rows[selected].ts;
                if ts.0 >= sel_ts.start.0 && ts.0 < sel_ts.end.0 {
                    // regular case: current timestamp in current chapter
                    return PositionStatus::ChapterNotChanged;
                }
                self.selected = None;
                Some(ChapterIterStart { iter: self.rows[selected].id, start: sel_ts.start })
            },
            None => None,
        };

        if let Some(start) = self.iter {
            let ghost rows = self.rows_view();
            proof {
                lemma_search_found_contains(rows, start as int, ts.0, true);
            }
            let mut idx = start;
            let mut searching_forward = true;
            #[verifier::loop_isolation(false)]
            loop
                invariant
                    self.wf(),
                    self.selected is None,
                    self.rows_view() == rows,
                    self.rows_view() == old(self).rows_view(),
                    self.next_id == old(self).next_id,
                    0 <= idx < rows.len(),
                    search(rows, start as int, ts.0, true) == search(
                        rows,
                        idx as int,
                        ts.0,
                        searching_forward,
                    ),
                decreases (if searching_forward { 2 * rows.len() - idx } else { idx as int }),
            {
                let iter_ts = self.rows[idx].ts;
                assert(rows[idx as int].ts == iter_ts);
                if ts.0 >= iter_ts.start.0 && ts.0 < iter_ts.end.0 {
                    // current timestamp is in current chapter
                    self.iter = Some(idx);
                    self.selected = Some(idx);
                    return PositionStatus::ChapterChanged { prev_chapter: prev_sel_chapter };
                } else if ts.0 >= iter_ts.end.0 && searching_forward {
                    if idx < self.rows.len() - 1 {
                        idx = idx + 1;
                    } else {
                        // No more chapter => keep track of last iter:
                        // in case of a seek back, we'll start from here
                        self.iter = Some(idx);
                        break;
                    }
                } else if ts.0 < iter_ts.start.0 {
                    // current timestamp before iter
                    searching_forward = false;
                    if idx > 0 {
                        idx = idx - 1;
                    } else {
                        // before first chapter
                        self.iter = Some(0);
                        return PositionStatus::ChapterChanged { prev_chapter: prev_sel_chapter };
                    }
                } else {
                    // in a gap between two chapters
                    self.iter = Some(idx);
                    break;
                }
            }
        }

        // Couldn't find a chapter to select
        // consider that the chapter changed only if a chapter was selected before
        match prev_sel_chapter {
            Some(prev_sel_chapter) => PositionStatus::ChapterChanged {
                prev_chapter: Some(prev_sel_chapter),
            },
            None => PositionStatus::ChapterNotChanged,
        }
    }

    /// Renames the chapter at position `index`.
    pub fn set_title(&mut self, index: usize, title: &str)
        requires
            old(self).wf(),
            index < old(self).rows@.len(),
        ensures
            final(self).wf(),
            final(self).iter == old(self).iter,
            final(self).selected == old(self).selected,
            final(self).next_id == old(self).next_id,
            final(self).rows_view() == old(self).rows_view().update(
                index as int,
                RowView { title: title@, ..old(self).rows_view()[index as int] },
            ),
    {
        let id = self.rows[index].id;
        let ts = self.rows[index].ts;
        self.rows.set(index, ChapterRow { id, ts, title: title.to_string() });
        assert forall|i: int| 0 <= i < self.rows@.len() implies #[trigger] self.rows@[i].id
            == old(self).rows@[i].id by {}
        assert(self.rows_view() =~= old(self).rows_view().update(
            index as int,
            RowView { title: title@, ..old(self).rows_view()[index as int] },
        ));
    }

    /// The position of the row `id`.
    fn find_row(&self, id: RowId) -> (index: Option<usize>)
        requires
            self.wf(),
        ensures
            match index {
                Some(i) => i < self.rows@.len() && self.rows@[i as int].id == id,
                None => forall|j: int| 0 <= j < self.rows@.len() ==> #[trigger] self.rows@[j].id != id,
            },
    {
        for i in 0..self.rows.len()
            invariant
                self.wf(),
                forall|j: int| 0 <= j < i ==> #[trigger] self.rows@[j].id != id,
        {
            if self.rows[i].id == id {
                return Some(i);
            }
        }
        None
    }

    /// Sets the end of the chapter at row `id` to `end`.
    fn set_end(&mut self, id: RowId, end: Timestamp)
        requires
            old(self).wf(),
        ensures
            final(self).wf(),
            final(self).iter == old(self).iter,
            final(self).selected == old(self).selected,
            final(self).next_id == old(self).next_id,
            final(self).rows_view().len() == old(self).rows_view().len(),
            forall|i: int| 0 <= i < old(self).rows_view().len() ==> #[trigger] final(self).rows_view()[i]
                == if old(self).rows_view()[i].id == id {
                    with_end(old(self).rows_view()[i], end)
                } else {
                    old(self).rows_view()[i]
                },
    {
        if let Some(index) = self.find_row(id) {
            let row = &self.rows[index];
            let updated = ChapterRow {
                id: row.id,
                ts: ChapterTimestamps { start: row.ts.start, end },
                title: row.title.clone(),
            };
            self.rows.set(index, updated);
            assert forall|i: int| 0 <= i < self.rows@.len() implies #[trigger] self.rows@[i].id
                == old(self).rows@[i].id by {}
            assert forall|i: int| 0 <= i < old(self).rows_view().len() implies #[trigger] self.rows_view()[i]
                == if old(self).rows_view()[i].id == id {
                    with_end(old(self).rows_view()[i], end)
                } else {
                    old(self).rows_view()[i]
                } by {
                if i != index && old(self).rows@[i].id == id {
                    if i < index {
                        assert(old(self).rows@[i].id != old(self).rows@[index as int].id);
                    } else {
                        assert(old(self).rows@[index as int].id != old(self).rows@[i].id);
                    }
                }
            }
        }
    }

    /// Sets the start of the chapter at row `id` to `start`.
    fn set_start(&mut self, id: RowId, start: Timestamp)
        requires
            old(self).wf(),
        ensures
            final(self).wf(),
            final(self).iter == old(self).iter,
            final(self).selected == old(self).selected,
            final(self).next_id == old(self).next_id,
            final(self).rows_view().len() == old(self).rows_view().len(),
            forall|i: int| 0 <= i < old(self).rows_view().len() ==> #[trigger] final(self).rows_view()[i]
                == if old(self).rows_view()[i].id == id {
                    with_start(old(self).rows_view()[i], start)
                } else {
                    old(self).rows_view()[i]
                },
    {
        if let Some(index) = self.find_row(id) {
            let row = &self.rows[index];
            let updated = ChapterRow {
                id: row.id,
                ts: ChapterTimestamps { start, end: row.ts.end },
                title: row.title.clone(),
            };
            self.rows.set(index, updated);
            assert forall|i: int| 0 <= i < self.rows@.len() implies #[trigger] self.rows@[i].id
                == old(self).rows@[i].id by {}
            assert forall|i: int| 0 <= i < old(self).rows_view().len() implies #[trigger] self.rows_view()[i]
                == if old(self).rows_view()[i].id == id {
                    with_start(old(self).rows_view()[i], start)
                } else {
                    old(self).rows_view()[i]
                } by {
                if i != index && old(self).rows@[i].id == id {
                    if i < index {
                        assert(old(self).rows@[i].id != old(self).rows@[index as int].id);
                    } else {
                        assert(old(self).rows@[index as int].id != old(self).rows@[i].id);
                    }
                }
            }
        }
    }

    /// Moves the boundary between `prev` and `next` to `target`.
    pub fn move_boundary(
        &mut self,
        target: Timestamp,
        prev: &Option<ChapterIterStart>,
        next: &Option<ChapterIterEnd>,
    )
        requires
            old(self).wf(),
        ensures
            final(self).wf(),
            final(self).iter == old(self).iter,
            final(self).selected == old(self).selected,
            final(self).next_id == old(self).next_id,
            final(self).rows_view().len() == old(self).rows_view().len(),
            forall|i: int| 0 <= i < old(self).rows_view().len() ==> #[trigger] final(self).rows_view()[i]
                == moved_row(old(self).rows_view()[i], target, *prev, *next),
    {
        let ghost before = self.rows_view();
        if let Some(prev) = prev {
            self.set_end(prev.iter, target);
        }
        let ghost middle = self.rows_view();
        if let Some(next) = next {
            self.set_start(next.iter, target);
        }
        assert forall|i: int| 0 <= i < before.len() implies #[trigger] self.rows_view()[i]
            == moved_row(before[i], target, *prev, *next) by {
            assert(middle[i].id == before[i].id);
        }
    }
}

/// The row after moving the boundary between `prev` and `next` to `target`.
pub open spec fn moved_row(
    row: RowView,
    target: Timestamp,
    prev: Option<ChapterIterStart>,
    next: Option<ChapterIterEnd>,
) -> RowView {
    let row = match prev {
        Some(p) => if row.id == p.iter { with_end(row, target) } else { row },
        None => row,
    };
    match next {
        Some(n) => if row.id == n.iter { with_start(row, target) } else { row },
        None => row,
    }
}

/// A chapter of a table of contents read from a media.
pub struct TocChapter {
    /// Start and end of the chapter, when the table of contents defines them.
    pub times: Option<(u64, u64)>,
    /// The title of the chapter, when the table of contents defines one.
    pub title: Option<String>,
}

pub struct TocChapterView {
    pub times: Option<(u64, u64)>,
    pub title: Option<Seq<char>>,
}

impl View for TocChapter {
    type V = TocChapterView;

    open spec fn view(&self) -> TocChapterView {
        TocChapterView {
            times: self.times,
            title: match self.title {
                Some(t) => Some(t@),
                None => None,
            },
        }
    }
}

/// The chapters of `toc` which have times are not empty and follow one another without
/// overlapping, the first one starting no earlier than `last_end`, if any.
pub open spec fn toc_fits_after(toc: Seq<TocChapterView>, last_end: Option<u64>) -> bool
    decreases toc.len(),
{
    if toc.len() == 0 {
        true
    } else {
        match toc[0].times {
            Some((start, end)) => {
                &&& start < end
                &&& (last_end matches Some(l) ==> l <= start)
                &&& toc_fits_after(toc.drop_first(), Some(end))
            },
            None => toc_fits_after(toc.drop_first(), last_end),
        }
    }
}

/// Building the chapters of a table of contents whose chapters follow one another
/// after those already built keeps the list and the boundaries in step.
pub proof fn lemma_toc_model_in_step(
    toc: Seq<TocChapterView>,
    default_title: Seq<char>,
    rows: Seq<RowView>,
    boundaries: Map<u64, crate::chapters_boundaries::SuccessiveChaptersView>,
    next_id: u64,
)
    requires
        in_step(rows, boundaries),
        toc_fits_after(
            toc,
            if rows.len() > 0 {
                Some(rows.last().ts.end.0)
            } else {
                None
            },
        ),
    ensures
        ({
            let (rows2, boundaries2, _) = toc_model(toc, default_title, rows, boundaries, next_id);
            in_step(rows2, boundaries2)
        }),
    decreases toc.len(),
{
    if toc.len() > 0 {
        let chapter = toc[0];
        match chapter.times {
            Some((start, end)) => {
                let ts = ChapterTimestamps { start: Timestamp(start), end: Timestamp(end) };
                let title = toc_title(chapter, default_title);
                let id = RowId(next_id);
                lemma_append_keeps_in_step(rows, boundaries, Timestamp(start), Timestamp(end), id, title);
                lemma_toc_model_in_step(
                    toc.drop_first(),
                    default_title,
                    rows.push(RowView { id, ts, title }),
                    model_add(boundaries, chapter_view(title, ts, id)),
                    (next_id + 1) as u64,
                );
            },
            None => {
                lemma_toc_model_in_step(toc.drop_first(), default_title, rows, boundaries, next_id);
            },
        }
    }
}

/// The title of a chapter of a table of contents.
pub open spec fn toc_title(chapter: TocChapterView, default_title: Seq<char>) -> Seq<char> {
    match chapter.title {
        Some(t) => t,
        None => default_title,
    }
}

/// The rows and boundaries built from the chapters `toc` appended to `rows` and
/// `boundaries`, with fresh identifiers starting at `next_id`.
pub open spec fn toc_model(
    toc: Seq<TocChapterView>,
    default_title: Seq<char>,
    rows: Seq<RowView>,
    boundaries: Map<u64, crate::chapters_boundaries::SuccessiveChaptersView>,
    next_id: u64,
) -> (Seq<RowView>, Map<u64, crate::chapters_boundaries::SuccessiveChaptersView>, u64)
    decreases toc.len(),
{
    if toc.len() == 0 {
        (rows, boundaries, next_id)
    } else {
        let chapter = toc[0];
        match chapter.times {
            Some((start, end)) => {
                let ts = ChapterTimestamps { start: Timestamp(start), end: Timestamp(end) };
                let title = toc_title(chapter, default_title);
                let id = RowId(next_id);
                toc_model(
                    toc.drop_first(),
                    default_title,
                    rows.push(RowView { id, ts, title }),
                    model_add(boundaries, chapter_view(title, ts, id)),
                    (next_id + 1) as u64,
                )
            },
            None => toc_model(toc.drop_first(), default_title, rows, boundaries, next_id),
        }
    }
}

/// The chapters list together with the boundaries between its chapters.
pub struct ChapterTreeManager {
    pub tree: ChapterTree,
    pub boundaries: ChaptersBoundaries,
}

/// The boundary target after preventing it from moving past the previous chapter's
/// start and past the next chapter's end.
pub open spec fn clamped_target(
    boundary: u64,
    target: u64,
    chapters: crate::chapters_boundaries::SuccessiveChaptersView,
) -> u64 {
    let target = match chapters.prev {
        Some(prev) => if target > prev.ts.start.0 { target } else { boundary },
        None => target,
    };
    match chapters.next {
        Some(next) => if target < next.ts.end.0 { target } else { boundary },
        None => target,
    }
}

impl ChapterTreeManager {
    pub open spec fn wf(&self) -> bool {
        self.tree.wf()
    }

    pub fn new() -> (manager: Self)
        ensures
            manager.wf(),
            manager.tree.rows@.len() == 0,
            manager.tree.iter is None && manager.tree.selected is None,
            manager.boundaries.view() == Map::<u64, crate::chapters_boundaries::SuccessiveChaptersView>::empty(),
            manager.in_step(),
    {
        let manager = ChapterTreeManager { tree: ChapterTree::new(), boundaries: ChaptersBoundaries::new() };
        proof {
            assert(manager.tree.rows_view() =~= Seq::<RowView>::empty());
            lemma_empty_in_step();
        }
        manager
    }

    pub fn selected(&self) -> (entry: Option<ChapterEntry>)
        requires
            self.wf(),
        ensures
            match self.tree.selected {
                Some(s) => entry matches Some(e) && e@ == self.tree.rows@[s as int]@,
                None => entry is None,
            },
    {
        self.tree.selected_chapter()
    }

    pub fn selected_path(&self) -> (path: Option<usize>)
        ensures
            path == self.tree.selected,
    {
        self.tree.selected_path()
    }

    pub fn chapter_from_path(&self, index: usize) -> (entry: Option<ChapterEntry>)
        ensures
            match entry {
                Some(entry) => index < self.tree.rows@.len() && entry@ == self.tree.rows@[index as int]@,
                None => index >= self.tree.rows@.len(),
            },
    {
        self.tree.chapter_from_path(index)
    }

    pub fn unselect(&mut self)
        requires
            old(self).wf(),
        ensures
            final(self).wf(),
            final(self).tree.rows_view() == old(self).tree.rows_view(),
            final(self).tree.iter == old(self).tree.iter,
            final(self).tree.selected is None,
            final(self).tree.next_id == old(self).tree.next_id,
            final(self).boundaries.view() == old(self).boundaries.view(),
    {
        self.tree.unselect();
    }

    /// Removes all the chapters.
    pub fn clear(&mut self)
        requires
            old(self).wf(),
        ensures
            final(self).wf(),
            final(self).tree.rows@.len() == 0,
            final(self).tree.iter is None && final(self).tree.selected is None,
            final(self).tree.next_id == old(self).tree.next_id,
            final(self).boundaries.view() == Map::<u64, crate::chapters_boundaries::SuccessiveChaptersView>::empty(),
            final(self).in_step(),
    {
        self.tree.clear();
        self.boundaries.clear();
        proof {
            assert(self.tree.rows_view() =~= Seq::<RowView>::empty());
            lemma_empty_in_step();
        }
    }

    /// Whether the selected chapter, if any, can be renamed.
    pub open spec fn can_rename_selected(&self) -> bool {
        self.tree.selected matches Some(s) ==> can_rename(
            self.boundaries.view(),
            self.tree.rows@[s as int].ts,
        )
    }

    /// Renames the selected chapter, if any.
    pub fn rename_selected(&mut self, new_title: &str)
        requires
            old(self).wf(),
            old(self).can_rename_selected(),
        ensures
            final(self).wf(),
            final(self).tree.iter == old(self).tree.iter,
            final(self).tree.selected == old(self).tree.selected,
            match old(self).tree.selected {
                Some(s) => {
                    &&& final(self).tree.rows_view() == old(self).tree.rows_view().update(
                        s as int,
                        RowView { title: new_title@, ..old(self).tree.rows_view()[s as int] },
                    )
                    &&& final(self).boundaries.view() == model_rename(
                        old(self).boundaries.view(),
                        old(self).tree.rows@[s as int].ts,
                        new_title@,
                    )
                },
                None => {
                    &&& final(self).tree.rows_view() == old(self).tree.rows_view()
                    &&& final(self).boundaries.view() == old(self).boundaries.view()
                },
            },
            old(self).in_step() ==> final(self).in_step(),
    {
        let ghost rows = self.tree.rows_view();
        let ghost m = self.boundaries.view();
        if let Some(selected) = self.tree.selected {
            let ts = self.tree.rows[selected].ts;
            self.tree.set_title(selected, new_title);
            self.boundaries.rename_chapter(ts, new_title);
            proof {
                if in_step(rows, m) {
                    assert(rows[selected as int].ts == ts);
                    lemma_rename_keeps_in_step(rows, m, selected as int, new_title@);
                }
            }
        }
    }

    /// When the list and the boundaries are in step, the selected chapter, if any, can
    /// be removed and renamed.
    pub proof fn lemma_in_step_allows_remove_and_rename(&self)
        requires
            self.wf(),
            self.in_step(),
        ensures
            self.can_remove_selected(),
            self.can_rename_selected(),
    {
        if let Some(s) = self.tree.selected {
            assert(self.tree.rows_view()[s as int].ts == self.tree.rows@[s as int].ts);
            lemma_in_step_chapter_has_boundaries(
                self.tree.rows_view(),
                self.boundaries.view(),
                s as int,
            );
        }
    }

    /// Replaces the chapters with those of the table of contents `toc`, if any,
    /// `default_title` being the title of chapters without one.
    pub fn replace_with(&mut self, toc: &Option<Vec<TocChapter>>, default_title: &str)
        requires
            old(self).wf(),
            toc matches Some(toc) ==> old(self).tree.next_id + toc@.len() < u64::MAX,
        ensures
            final(self).wf(),
            match toc {
                Some(toc) => {
                    let (rows, boundaries, next_id) = toc_model(
                        toc@.map_values(|c: TocChapter| c@),
                        default_title@,
                        Seq::empty(),
                        Map::empty(),
                        old(self).tree.next_id,
                    );
                    &&& final(self).tree.rows_view() == rows
                    &&& final(self).boundaries.view() == boundaries
                    &&& final(self).tree.next_id == next_id
                    &&& toc_fits_after(toc@.map_values(|c: TocChapter| c@), None)
                        ==> final(self).in_step()
                    &&& if rows.len() > 0 {
                        &&& final(self).tree.iter == Some(0usize)
                        &&& final(self).tree.selected == if rows[0].ts.start.0 == 0 {
                            Some(0usize)
                        } else {
                            None
                        }
                    } else {
                        final(self).tree.iter is None && final(self).tree.selected is None
                    }
                },
                None => {
                    &&& final(self).tree.rows@.len() == 0
                    &&& final(self).tree.iter is None && final(self).tree.selected is None
                    &&& final(self).boundaries.view() == Map::<u64, crate::chapters_boundaries::SuccessiveChaptersView>::empty()
                    &&& final(self).in_step()
                },
            },
    {
        proof {
            lemma_empty_in_step();
            if let Some(t) = toc {
                if toc_fits_after(t@.map_values(|c: TocChapter| c@), None) {
                    lemma_toc_model_in_step(
                        t@.map_values(|c: TocChapter| c@),
                        default_title@,
                        Seq::empty(),
                        Map::empty(),
                        self.tree.next_id,
                    );
                }
            }
        }
        self.clear();
        if let Some(toc) = toc {
            let ghost chapters = toc@.map_values(|c: TocChapter| c@);
            let ghost first_id = self.tree.next_id;
            assert(chapters.subrange(0, chapters.len() as int) =~= chapters);
            assert(self.tree.rows_view() =~= Seq::<RowView>::empty());
            for i in 0..toc.len()
                invariant
                    self.wf(),
                    chapters == toc@.map_values(|c: TocChapter| c@),
                    first_id + toc@.len() < u64::MAX,
                    self.tree.next_id <= first_id + i,
                    self.tree.iter is None && self.tree.selected is None,
                    toc_model(chapters, default_title@, Seq::empty(), Map::empty(), first_id)
                        == toc_model(
                        chapters.subrange(i as int, chapters.len() as int),
                        default_title@,
                        self.tree.rows_view(),
                        self.boundaries.view(),
                        self.tree.next_id,
                    ),
            {
                let chapter = &toc[i];
                proof {
                    assert(chapters.subrange(i as int, chapters.len() as int).drop_first()
                        =~= chapters.subrange(i + 1, chapters.len() as int));
                    assert(chapters.subrange(i as int, chapters.len() as int)[0] == chapter@);
                }
                if let Some((start, end)) = chapter.times {
                    let ts = ChapterTimestamps::new_from_u64(start, end);
                    let title = match &chapter.title {
                        Some(title) => title.as_str(),
                        None => default_title,
                    };
                    let id = self.tree.add_unchecked(ts, title);
                    self.boundaries.add_chapter(ts, title, &id);
                }
            }
            proof {
                assert(chapters.subrange(chapters.len() as int, chapters.len() as int)
                    =~= Seq::<TocChapterView>::empty());
                assert(toc_model(chapters, default_title@, Seq::empty(), Map::empty(), first_id)
                    == (self.tree.rows_view(), self.boundaries.view(), self.tree.next_id));
            }
            let ghost before_rewind = self.tree.rows_view();
            self.tree.rewind();
            proof {
                if before_rewind.len() > 0 {
                    assert(before_rewind[0] == self.tree.rows@[0]@);
                }
                let (rows, boundaries, next_id) = toc_model(
                    toc@.map_values(|c: TocChapter| c@),
                    default_title@,
                    Seq::empty(),
                    Map::empty(),
                    old(self).tree.next_id,
                );
                assert(chapters == toc@.map_values(|c: TocChapter| c@));
                assert(first_id == old(self).tree.next_id);
                assert(self.tree.rows_view() == rows);
                assert(self.boundaries.view() == boundaries);
                assert(self.tree.next_id == next_id);
                assert(if rows.len() > 0 {
                    &&& self.tree.iter == Some(0usize)
                    &&& self.tree.selected == if rows[0].ts.start.0 == 0 {
                        Some(0usize)
                    } else {
                        None
                    }
                } else {
                    self.tree.iter is None && self.tree.selected is None
                });
                assert(self.wf());
            }
            return;
        }
        self.tree.rewind();
        assert(self.tree.rows_view().len() == self.tree.rows@.len());
    }

    /// All the chapters, in the order of the list.
    pub fn iter(&self) -> (entries: Vec<ChapterEntry>)
        ensures
            entries@.len() == self.tree.rows@.len(),
            forall|i: int| 0 <= i < entries@.len() ==> #[trigger] entries@[i]@ == self.tree.rows@[i]@,
    {
        self.tree.entries()
    }

    /// Selects the chapter containing `ts`.
    pub fn update_ts(&mut self, ts: Timestamp) -> (status: PositionStatus)
        requires
            old(self).wf(),
        ensures
            final(self).wf(),
            final(self).tree.rows_view() == old(self).tree.rows_view(),
            final(self).tree.next_id == old(self).tree.next_id,
            final(self).boundaries.view() == old(self).boundaries.view(),
            (final(self).tree.iter, final(self).tree.selected, status) == old(self).tree.selection_for(ts),
    {
        self.tree.select_by_ts(ts)
    }

    /// Adds a chapter starting at `target`, with `duration` the duration of the media
    /// and `title` the title for new chapters. Returns the row of the new chapter.
    pub fn add_chapter(&mut self, target: Timestamp, duration: Timestamp, title: &str) -> (row:
        Option<RowId>)
        requires
            old(self).wf(),
            old(self).tree.can_add(target),
        ensures
            final(self).wf(),
            old(self).in_step() && old(self).tree.fits_position(target, duration)
                ==> final(self).in_step(),
            ({
                let (rows, at, result) = old(self).tree.added(target, duration, title@);
                &&& final(self).tree.rows_view() == rows
                &&& match result {
                    Some(added) => {
                        &&& row == Some(added.iter)
                        &&& final(self).tree.selected == at
                        &&& final(self).boundaries.view() == model_add(
                            old(self).boundaries.view(),
                            chapter_view(title@, ChapterTimestamps { start: target, end: added.end }, added.iter),
                        )
                    },
                    None => {
                        &&& row is None
                        &&& final(self).tree.selected == old(self).tree.selected
                        &&& final(self).boundaries.view() == old(self).boundaries.view()
                    },
                }
            }),
    {
        let ghost rows = self.tree.rows_view();
        let ghost m = self.boundaries.view();
        let ghost id = RowId(self.tree.next_id);
        let ghost old_tree = self.tree;
        let result = match self.tree.add(target, duration, title) {
            Some(new_chapter) => {
                self.boundaries.add_chapter(
                    ChapterTimestamps::new(target, new_chapter.end),
                    title,
                    &new_chapter.iter,
                );
                Some(new_chapter.iter)
            },
            None => None,
        };
        proof {
            if in_step(rows, m) && old_tree.fits_position(target, duration) {
                match old_tree.selected {
                    Some(s) => {
                        if rows[s as int].ts.start != target {
                            lemma_split_keeps_in_step(rows, m, s as int, target, id, title@);
                        }
                    },
                    None => match old_tree.iter {
                        Some(i) => {
                            lemma_fill_gap_keeps_in_step(rows, m, i as int, target, id, title@);
                        },
                        None => {
                            lemma_append_keeps_in_step(rows, m, target, duration, id, title@);
                        },
                    },
                }
            }
        }
        result
    }

    /// The list and the boundaries describe the same chapters, which follow one
    /// another without overlapping.
    pub open spec fn in_step(&self) -> bool {
        in_step(self.tree.rows_view(), self.boundaries.view())
    }

    /// Whether the selected chapter, if any, can be removed.
    pub open spec fn can_remove_selected(&self) -> bool {
        self.tree.selected matches Some(s) ==> {
            let ts = self.tree.rows@[s as int].ts;
            &&& self.boundaries.view().contains_key(ts.start.0)
            &&& self.boundaries.view().contains_key(ts.end.0)
            &&& ts.start.0 != ts.end.0
        }
    }

    /// Removes the selected chapter. Returns the row of the chapter to select, if any.
    pub fn remove_selected_chapter(&mut self) -> (row: Option<RowId>)
        requires
            old(self).wf(),
            old(self).can_remove_selected(),
        ensures
            final(self).wf(),
            ({
                let (rows, iter, selected, result) = old(self).tree.removed();
                &&& final(self).tree.rows_view() == rows
                &&& final(self).tree.iter == iter
                &&& final(self).tree.selected == selected
                &&& match result {
                    Some(r) => {
                        &&& row == r.selected_iter
                        &&& final(self).boundaries.view() == model_remove(
                            old(self).boundaries.view(),
                            r.removed_ts,
                        )
                    },
                    None => row is None && final(self).boundaries.view() == old(
                        self,
                    ).boundaries.view(),
                }
            }),
            old(self).in_step() && old(self).selected_follows_previous() ==> final(self).in_step(),
    {
        let ghost rows = self.tree.rows_view();
        let ghost m = self.boundaries.view();
        let ghost selected = self.tree.selected;
        let row = match self.tree.remove() {
            Some(result) => {
                self.boundaries.remove_chapter(result.removed_ts);
                result.selected_iter
            },
            None => None,
        };
        proof {
            if in_step(rows, m) {
                if let Some(s) = selected {
                    if s == 0 || rows[s - 1].ts.end.0 == rows[s as int].ts.start.0 {
                        lemma_remove_keeps_in_step(rows, m, s as int);
                    }
                }
            }
        }
        row
    }

    /// The selected chapter, if any, starts where the chapter before it, if any, ends.
    pub open spec fn selected_follows_previous(&self) -> bool {
        let rows = self.tree.rows_view();
        match self.tree.selected {
            Some(s) => s > 0 ==> rows[s - 1].ts.end.0 == rows[s as int].ts.start.0,
            None => true,
        }
    }

    /// Whether the boundary at `boundary` can be moved toward `target`.
    pub open spec fn can_move_boundary(&self, boundary: Timestamp, target: Timestamp) -> bool {
        let m = self.boundaries.view();
        m.contains_key(boundary.0) ==> {
            let t = clamped_target(boundary.0, target.0, m[boundary.0]);
            t != boundary.0 ==> !m.remove(boundary.0).contains_key(t)
        }
    }

    /// Moves the boundary at `boundary` toward `target`, without moving it past the
    /// start of the chapter before it nor past the end of the chapter after it.
    pub fn move_chapter_boundary(&mut self, boundary: Timestamp, target: Timestamp) -> (status:
        PositionStatus)
        requires
            old(self).wf(),
            old(self).can_move_boundary(boundary, target),
        ensures
            final(self).wf(),
            final(self).tree.iter == old(self).tree.iter,
            final(self).tree.selected == old(self).tree.selected,
            ({
                let m = old(self).boundaries.view();
                if boundary == target || !m.contains_key(boundary.0) || (m[boundary.0].prev is None
                    && m[boundary.0].next is None) {
                    &&& status == PositionStatus::ChapterNotChanged
                    &&& final(self).tree.rows_view() == old(self).tree.rows_view()
                    &&& final(self).boundaries.view() == m
                } else {
                    let chapters = m[boundary.0];
                    let t = clamped_target(boundary.0, target.0, chapters);
                    let prev = match chapters.prev {
                        Some(p) => Some(ChapterIterStart { iter: p.iter, start: p.ts.start }),
                        None => None,
                    };
                    let next = match chapters.next {
                        Some(n) => Some(ChapterIterEnd { iter: n.iter, end: n.ts.end }),
                        None => None,
                    };
                    if t != boundary.0 {
                        &&& status == (PositionStatus::ChapterChanged { prev_chapter: prev })
                        &&& final(self).boundaries.view() == m.remove(boundary.0).insert(t, chapters)
                        &&& final(self).tree.rows_view().len() == old(self).tree.rows_view().len()
                        &&& forall|i: int| 0 <= i < old(self).tree.rows_view().len() ==>
                            #[trigger] final(self).tree.rows_view()[i] == moved_row(
                                old(self).tree.rows_view()[i],
                                Timestamp(t),
                                prev,
                                next,
                            )
                    } else {
                        &&& status == PositionStatus::ChapterNotChanged
                        &&& final(self).tree.rows_view() == old(self).tree.rows_view()
                        &&& final(self).boundaries.view() == m
                    }
                }
            }),
            old(self).in_step() && old(self).move_fits(boundary, target) ==> final(self).in_step(),
    {
        let ghost original_target = target;
        if boundary.0 == target.0 {
            return PositionStatus::ChapterNotChanged;
        }
        let (prev_chapter, next_chapter) = match self.boundaries.get(&boundary) {
            Some(chapters) => (
                match &chapters.prev {
                    Some(prev) => Some(ChapterIterStart { iter: prev.iter, start: prev.ts.start }),
                    None => None,
                },
                match &chapters.next {
                    Some(next) => Some(ChapterIterEnd { iter: next.iter, end: next.ts.end }),
                    None => None,
                },
            ),
            None => (None, None),
        };

        if prev_chapter.is_none() && next_chapter.is_none() {
            return PositionStatus::ChapterNotChanged;
        }

        // prevent moving past previous chapter's start
        let target = match &prev_chapter {
            Some(prev_chapter) => if target.0 > prev_chapter.start.0 {
                target
            } else {
                boundary
            },
            None => target,
        };
        // prevent moving past next chapter's end
        let target = match &next_chapter {
            Some(next_chapter) => if target.0 < next_chapter.end.0 {
                target
            } else {
                boundary
            },
            None => target,
        };

        if target.0 != boundary.0 {
            // do the actual move
            let ghost rows = self.tree.rows_view();
            let ghost m = self.boundaries.view();
            self.tree.move_boundary(target, &prev_chapter, &next_chapter);
            self.boundaries.move_boundary(boundary, target);
            proof {
                if in_step(rows, m) && old(self).move_fits(boundary, original_target) {
                    lemma_move_keeps_in_step(rows, m, boundary.0, target.0);
                    assert(self.tree.rows_view() =~= Seq::new(
                        rows.len(),
                        |i: int| moved_row(rows[i], target, prev_chapter, next_chapter),
                    ));
                }
            }
            PositionStatus::ChapterChanged { prev_chapter }
        } else {
            PositionStatus::ChapterNotChanged
        }
    }

    /// Moving the boundary at `boundary` toward `target`, once clamped, passes over no
    /// other boundary and empties no chapter.
    pub open spec fn move_fits(&self, boundary: Timestamp, target: Timestamp) -> bool {
        let m = self.boundaries.view();
        m.contains_key(boundary.0) && boundary != target ==> {
            let t = clamped_target(boundary.0, target.0, m[boundary.0]);
            t != boundary.0 ==> move_stays_between(self.tree.rows_view(), m, boundary.0, t)
        }
    }

    /// The chapters of the table of contents and their number, if there is any chapter.
    pub fn toc(&self) -> (toc: Option<(Vec<ChapterEntry>, usize)>)
        ensures
            match toc {
                Some((entries, count)) => {
                    &&& self.tree.rows@.len() > 0
                    &&& count == self.tree.rows@.len()
                    &&& entries@.len() == count
                    &&& forall|i: int| 0 <= i < count ==> #[trigger] entries@[i]@ == self.tree.rows@[i]@
                },
                None => self.tree.rows@.len() == 0,
            },
    {
        let entries = self.tree.entries();
        let count = entries.len();
        if count > 0 {
            Some((entries, count))
        } else {
            None
        }
    }

    pub fn pick_next(&self) -> (entry: Option<ChapterEntry>)
        requires
            self.wf(),
        ensures
            match self.tree.selected {
                Some(s) => if s + 1 < self.tree.rows@.len() {
                    entry matches Some(e) && e@ == self.tree.rows@[s + 1]@
                } else {
                    entry is None
                },
                None => if self.tree.rows@.len() > 0 {
                    entry matches Some(e) && e@ == self.tree.rows@[0]@
                } else {
                    entry is None
                },
            },
    {
        self.tree.pick_next()
    }

    pub fn pick_previous(&self) -> (entry: Option<ChapterEntry>)
        requires
            self.wf(),
        ensures
            match self.tree.selected {
                Some(s) => if s > 0 {
                    entry matches Some(e) && e@ == self.tree.rows@[s - 1]@
                } else {
                    entry is None
                },
                None => if self.tree.rows@.len() > 0 {
                    entry matches Some(e) && e@ == self.tree.rows@[self.tree.rows@.len() - 1]@
                } else {
                    entry is None
                },
            },
    {
        self.tree.pick_previous()
    }
}


/// With no chapter selected, adding a chapter right where the chapter before the
/// cursor ends leaves the list and the boundaries out of step: the boundary at the end
/// of the added chapter is written anew and no longer names the chapter at the cursor,
/// which starts there.
pub proof fn lemma_add_at_previous_end_leaves_step(
    manager: ChapterTreeManager,
    target: Timestamp,
    duration: Timestamp,
    title: Seq<char>,
)
    requires
        manager.wf(),
        manager.in_step(),
        manager.tree.selected is None,
        manager.tree.iter matches Some(i) && 0 < i && manager.tree.rows_view()[i - 1].ts.end.0
            == target.0 && target.0 < manager.tree.rows_view()[i as int].ts.start.0,
    ensures
        ({
            let (rows, at, result) = manager.tree.added(target, duration, title);
            let added = result->Some_0;
            !in_step(
                rows,
                model_add(
                    manager.boundaries.view(),
                    chapter_view(title, ChapterTimestamps { start: target, end: added.end }, added.iter),
                ),
            )
        }),
{
    let rows0 = manager.tree.rows_view();
    let m = manager.boundaries.view();
    let i = manager.tree.iter->Some_0 as int;
    let (rows, at, result) = manager.tree.added(target, duration, title);
    let added = result->Some_0;
    let chapter = chapter_view(title, ChapterTimestamps { start: target, end: added.end }, added.iter);
    let after = model_add(m, chapter);
    let b = rows0[i].ts.start.0;
    assert(m.contains_key(rows0[i - 1].ts.end.0));
    if m[target.0].next is Some {
        assert(starts_at(rows0, target.0));
        let j = choose|j: int| 0 <= j < rows0.len() && #[trigger] rows0[j].ts.start.0 == target.0;
        if j < i - 1 {
            assert(rows0[j].ts.end.0 <= rows0[i - 1].ts.start.0);
            assert(rows0[j].ts.start.0 < rows0[j].ts.end.0);
        } else if j == i - 1 {
            assert(rows0[j].ts.start.0 < rows0[j].ts.end.0);
        } else if j > i {
            assert(rows0[i].ts.end.0 <= rows0[j].ts.start.0);
            assert(rows0[i].ts.start.0 < rows0[i].ts.end.0);
        }
    }
    assert(after[b].next is None);
    assert(rows[i + 1] == rows0[i]);
    assert(!names(after[rows[i + 1].ts.start.0].next, rows[i + 1]));
}

/// The abstract value of what [`Iter::next`] hands out.
pub open spec fn entry_view(entry: Option<ChapterEntry>) -> Option<RowView> {
    match entry {
        Some(e) => Some(e@),
        None => None,
    }
}

/// What a call of [`Iter::next`] at position `pos` of `rows` returns, and the position
/// after the call.
pub open spec fn iter_step(rows: Seq<RowView>, pos: nat) -> (Option<RowView>, nat) {
    if pos < rows.len() {
        (Some(rows[pos as int]), pos + 1)
    } else {
        (None, pos)
    }
}

/// What `calls` successive calls of [`Iter::next`] return, starting at position `pos`
/// of `rows`.
pub open spec fn iter_run(rows: Seq<RowView>, pos: nat, calls: nat) -> Seq<Option<RowView>>
    decreases calls,
{
    if calls == 0 {
        Seq::empty()
    } else {
        seq![iter_step(rows, pos).0] + iter_run(rows, iter_step(rows, pos).1, (calls - 1) as nat)
    }
}

/// Walks the chapters of a list, in order.
pub struct Iter<'a> {
    manager: &'a ChapterTreeManager,
    next: usize,
}

impl<'a> Iter<'a> {
    /// The chapters walked over.
    pub closed spec fn rows(&self) -> Seq<RowView> {
        self.manager.tree.rows_view()
    }

    /// The position of the chapter which the next call hands out.
    pub closed spec fn pos(&self) -> nat {
        self.next as nat
    }

    pub fn new(manager: &'a ChapterTreeManager) -> (it: Self)
        ensures
            it.rows() == manager.tree.rows_view(),
            it.pos() == 0,
    {
        Iter { manager, next: 0 }
    }

    /// Hands out the next chapter, or nothing once all of them were.
    pub fn next(&mut self) -> (entry: Option<ChapterEntry>)
        ensures
            final(self).rows() == old(self).rows(),
            (entry_view(entry), final(self).pos()) == iter_step(old(self).rows(), old(self).pos()),
    {
        let tree = &self.manager.tree;
        if self.next < tree.rows.len() {
            let index = self.next;
            self.next = index + 1;
            Some(tree.entry_at(index))
        } else {
            None
        }
    }
}

/// A fresh walk over the chapters hands out each of them once, in order, and nothing
/// after the last one.
pub proof fn lemma_iter_yields_rows_in_order(rows: Seq<RowView>, calls: nat)
    ensures
        iter_run(rows, 0, calls) == Seq::new(
            calls,
            |j: int| if j < rows.len() { Some(rows[j]) } else { None },
        ),
{
    lemma_iter_run_from(rows, 0, calls);
}

proof fn lemma_iter_run_from(rows: Seq<RowView>, pos: nat, calls: nat)
    requires
        pos <= rows.len(),
    ensures
        iter_run(rows, pos, calls) == Seq::new(
            calls,
            |j: int| if pos + j < rows.len() { Some(rows[pos + j]) } else { None },
        ),
    decreases calls,
{
    if calls > 0 {
        let after = iter_step(rows, pos).1;
        lemma_iter_run_from(rows, after, (calls - 1) as nat);
        let expected = Seq::new(
            calls,
            |j: int| if pos + j < rows.len() { Some(rows[pos + j]) } else { None },
        );
        let rest = Seq::new(
            (calls - 1) as nat,
            |j: int| if after + j < rows.len() { Some(rows[after + j]) } else { None },
        );
        assert(iter_run(rows, pos, calls) =~= expected) by {
            assert forall|j: int| 0 <= j < calls implies #[trigger] iter_run(rows, pos, calls)[j]
                == expected[j] by {
                if j > 0 {
                    assert(iter_run(rows, pos, calls)[j] == rest[j - 1]);
                    if pos == rows.len() {
                        assert(after == pos);
                    }
                }
            }
        }
    }
}

} // verus!
