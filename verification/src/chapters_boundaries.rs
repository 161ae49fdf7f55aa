//! The boundaries between chapters.
//!
//! Each boundary, at a given timestamp, knows the chapter that ends there (if any)
//! and the chapter that starts there (if any). This allows locating the boundaries
//! under the cursor on the waveform and moving them.
use vstd::prelude::*;

use std::collections::BTreeMap;

use crate::timestamp::Timestamp;

verus! {

/// The identifier of a chapter's row in the chapters list.
#[derive(Clone, Copy, Debug, PartialEq, Eq, Structural, Hash)]
pub struct RowId(pub u64);

#[derive(Clone, Copy, Debug, PartialEq, Eq, Structural)]
pub struct ChapterTimestamps {
    pub start: Timestamp,
    pub end: Timestamp,
}

impl ChapterTimestamps {
    pub fn new(start: Timestamp, end: Timestamp) -> (ts: Self)
        ensures
            ts.start == start && ts.end == end,
    {
        ChapterTimestamps { start, end }
    }

    pub fn new_from_u64(start: u64, end: u64) -> (ts: Self)
        ensures
            ts.start.0 == start && ts.end.0 == end,
    {
        ChapterTimestamps { start: Timestamp(start), end: Timestamp(end) }
    }
}

#[derive(Debug)]
pub struct Chapter {
    pub title: String,
    pub ts: ChapterTimestamps,
    pub iter: RowId,
}

/// The abstract value of a [`Chapter`].
pub struct ChapterView {
    pub title: Seq<char>,
    pub ts: ChapterTimestamps,
    pub iter: RowId,
}

impl View for Chapter {
    type V = ChapterView;

    open spec fn view(&self) -> ChapterView {
        ChapterView { title: self.title@, ts: self.ts, iter: self.iter }
    }
}

impl Clone for Chapter {
    fn clone(&self) -> (r: Self)
        ensures
            r@ == self@,
    {
        Chapter { title: self.title.clone(), ts: self.ts, iter: self.iter }
    }
}

/// Two chapters are the same when they have the same title and start.
impl PartialEq for Chapter {
    fn eq(&self, other: &Chapter) -> (r: bool) {
        self.title == other.title && self.ts.start.0 == other.ts.start.0
    }
}

impl vstd::std_specs::cmp::PartialEqSpecImpl for Chapter {
    open spec fn obeys_eq_spec() -> bool {
        true
    }

    open spec fn eq_spec(&self, other: &Chapter) -> bool {
        self.title@ == other.title@ && self.ts.start == other.ts.start
    }
}

/// The chapters on each side of a boundary.
#[derive(Debug)]
pub struct SuccessiveChapters {
    pub prev: Option<Chapter>,
    pub next: Option<Chapter>,
}

pub struct SuccessiveChaptersView {
    pub prev: Option<ChapterView>,
    pub next: Option<ChapterView>,
}

pub open spec fn option_view(chapter: Option<Chapter>) -> Option<ChapterView> {
    match chapter {
        Some(chapter) => Some(chapter@),
        None => None,
    }
}

impl View for SuccessiveChapters {
    type V = SuccessiveChaptersView;

    open spec fn view(&self) -> SuccessiveChaptersView {
        SuccessiveChaptersView { prev: option_view(self.prev), next: option_view(self.next) }
    }
}

fn clone_option(chapter: &Option<Chapter>) -> (r: Option<Chapter>)
    ensures
        option_view(r) == option_view(*chapter),
{
    match chapter {
        Some(chapter) => Some(chapter.clone()),
        None => None,
    }
}

impl Clone for SuccessiveChapters {
    fn clone(&self) -> (r: Self)
        ensures
            r@ == self@,
    {
        SuccessiveChapters { prev: clone_option(&self.prev), next: clone_option(&self.next) }
    }
}

impl PartialEq for SuccessiveChapters {
    fn eq(&self, other: &SuccessiveChapters) -> (r: bool) {
        let prev_eq = match (&self.prev, &other.prev) {
            (Some(a), Some(b)) => a.eq(b),
            (None, None) => true,
            _ => false,
        };
        let next_eq = match (&self.next, &other.next) {
            (Some(a), Some(b)) => a.eq(b),
            (None, None) => true,
            _ => false,
        };
        prev_eq && next_eq
    }
}

/// Whether two optional chapters are the same chapter.
pub open spec fn same_chapter(a: Option<Chapter>, b: Option<Chapter>) -> bool {
    match (a, b) {
        (Some(a), Some(b)) => a.title@ == b.title@ && a.ts.start == b.ts.start,
        (None, None) => true,
        _ => false,
    }
}

impl vstd::std_specs::cmp::PartialEqSpecImpl for SuccessiveChapters {
    open spec fn obeys_eq_spec() -> bool {
        true
    }

    open spec fn eq_spec(&self, other: &SuccessiveChapters) -> bool {
        same_chapter(self.prev, other.prev) && same_chapter(self.next, other.next)
    }
}

/// The keys of a map, as iterated, are ordered.
proof fn lemma_keys_ordered(keys: Seq<&u64>, i: int, j: int)
    requires
        vstd::std_specs::btree::increasing_seq(keys),
        0 <= i < j < keys.len(),
    ensures
        *keys[i] < *keys[j],
{
    assert(vstd::laws_cmp::obeys_cmp::<&u64>());
    assert(vstd::std_specs::cmp::OrdSpec::cmp_spec(&keys[i], &keys[j]) is Less);
}

/// The boundaries between chapters, ordered by timestamp.
pub struct ChaptersBoundaries(pub BTreeMap<u64, SuccessiveChapters>);

/// A chapter's abstract value.
pub open spec fn chapter_view(title: Seq<char>, ts: ChapterTimestamps, iter: RowId) -> ChapterView {
    ChapterView { title, ts, iter }
}

/// The model after adding the chapter `chapter` to `m`.
///
/// A chapter can share at most one boundary with a previous chapter: when a
/// boundary exists at its start, the new chapter starts there and the chapter that
/// followed that boundary now follows the new chapter's end. Otherwise, the new
/// chapter becomes the one ending at an existing boundary at its end, if any.
pub open spec fn model_add(m: Map<u64, SuccessiveChaptersView>, chapter: ChapterView) -> Map<
    u64,
    SuccessiveChaptersView,
> {
    let start = chapter.ts.start.0;
    let end = chapter.ts.end.0;
    if m.contains_key(start) {
        let at_start = m[start];
        m.insert(start, SuccessiveChaptersView { prev: at_start.prev, next: Some(chapter) }).insert(
            end,
            SuccessiveChaptersView { prev: Some(chapter), next: at_start.next },
        )
    } else if m.contains_key(end) {
        let at_end = m[end];
        m.insert(end, SuccessiveChaptersView { prev: Some(chapter), next: at_end.next }).insert(
            start,
            SuccessiveChaptersView { prev: at_end.prev, next: Some(chapter) },
        )
    } else {
        m.insert(start, SuccessiveChaptersView { prev: None, next: Some(chapter) }).insert(
            end,
            SuccessiveChaptersView { prev: Some(chapter), next: None },
        )
    }
}

/// The model after removing the chapter spanning `ts` from `m`: the boundary at
/// its start disappears and the chapter before it, if any, now ends at its end.
pub open spec fn model_remove(m: Map<u64, SuccessiveChaptersView>, ts: ChapterTimestamps) -> Map<
    u64,
    SuccessiveChaptersView,
> {
    let start = ts.start.0;
    let end = ts.end.0;
    let prev = m[start].prev;
    let removed = m.remove(start);
    if prev is None && removed[end].next is None {
        removed.remove(end)
    } else {
        removed.insert(end, SuccessiveChaptersView { prev, next: removed[end].next })
    }
}

pub open spec fn renamed(chapter: Option<ChapterView>, title: Seq<char>) -> Option<ChapterView> {
    match chapter {
        Some(c) => Some(ChapterView { title, ..c }),
        None => None,
    }
}

/// The model after renaming the chapter spanning `ts` in `m`.
pub open spec fn model_rename(
    m: Map<u64, SuccessiveChaptersView>,
    ts: ChapterTimestamps,
    title: Seq<char>,
) -> Map<u64, SuccessiveChaptersView> {
    let start = ts.start.0;
    let end = ts.end.0;
    let m1 = m.insert(
        start,
        SuccessiveChaptersView { prev: m[start].prev, next: renamed(m[start].next, title) },
    );
    m1.insert(end, SuccessiveChaptersView { prev: renamed(m1[end].prev, title), next: m1[end].next })
}

/// Whether the chapter spanning `ts` can be renamed in `m`.
pub open spec fn can_rename(m: Map<u64, SuccessiveChaptersView>, ts: ChapterTimestamps) -> bool {
    &&& m.contains_key(ts.start.0)
    &&& m[ts.start.0].next is Some
    &&& m.contains_key(ts.end.0)
    &&& m[ts.end.0].prev is Some
}

impl ChaptersBoundaries {
    pub open spec fn view(&self) -> Map<u64, SuccessiveChaptersView> {
        self.0@.map_values(|chapters: SuccessiveChapters| chapters@)
    }

    pub fn new() -> (boundaries: Self)
        ensures
            boundaries.view() == Map::<u64, SuccessiveChaptersView>::empty(),
    {
        let boundaries = ChaptersBoundaries(BTreeMap::new());
        assert(boundaries.view() =~= Map::<u64, SuccessiveChaptersView>::empty());
        boundaries
    }

    pub fn clear(&mut self)
        ensures
            final(self).view() == Map::<u64, SuccessiveChaptersView>::empty(),
    {
        self.0.clear();
        assert(self.view() =~= Map::<u64, SuccessiveChaptersView>::empty());
    }

    pub fn is_empty(&self) -> (r: bool)
        ensures
            r == self.view().is_empty(),
    {
        let r = self.0.is_empty();
        proof {
            if !r {
                let k = choose|k: u64| self.0@.contains_key(k);
                assert(self.view().contains_key(k));
            }
            if r {
                assert(self.view() =~= Map::<u64, SuccessiveChaptersView>::empty());
            }
        }
        r
    }

    /// The number of boundaries.
    pub fn len(&self) -> (r: usize)
        ensures
            r == self.view().len(),
    {
        assert(self.view().dom() =~= self.0@.dom());
        self.0.len()
    }

    /// The chapters around the boundary at `ts`.
    pub fn get(&self, ts: &Timestamp) -> (r: Option<&SuccessiveChapters>)
        ensures
            match r {
                Some(chapters) => self.view().contains_key(ts.0) && self.view()[ts.0]
                    == chapters@,
                None => !self.view().contains_key(ts.0),
            },
    {
        self.0.get(&ts.0)
    }

    /// The first boundary in `[lower, upper]`, if any.
    pub fn first_boundary_in(&self, lower: Timestamp, upper: Timestamp) -> (r: Option<Timestamp>)
        ensures
            match r {
                Some(ts) => {
                    &&& self.view().contains_key(ts.0)
                    &&& lower.0 <= ts.0 <= upper.0
                    &&& forall|k: u64|
                        #![trigger self.view().contains_key(k)]
                        self.view().contains_key(k) && lower.0 <= k <= upper.0 ==> ts.0 <= k
                },
                None => forall|k: u64|
                    #![trigger self.view().contains_key(k)]
                    self.view().contains_key(k) ==> !(lower.0 <= k <= upper.0),
            },
    {
        let ghost keys = vstd::std_specs::iter::IteratorSpec::remaining(
            &vstd::std_specs::btree::spec_keys_iter(&self.0),
        );
        proof {
            assert(self.view().dom() =~= self.0@.dom());
            assert(keys.unref().to_set() == self.0@.dom());
            assert(vstd::std_specs::btree::increasing_seq(keys));
        }
        for k in it: self.0.keys()
            invariant
                it.seq() == keys,
                keys.unref().to_set() == self.0@.dom(),
                vstd::std_specs::btree::increasing_seq(keys),
                forall|i: int| 0 <= i < it.index() ==> *keys[i] < lower.0,
        {
            assert(*k == *keys[it.index()]);
            if *k >= lower.0 {
                proof {
                    assert forall|key: u64| #[trigger]
                        self.view().contains_key(key) implies key < lower.0 || *k <= key by {
                        assert(keys.unref().to_set().contains(key));
                        let j = choose|j: int| 0 <= j < keys.len() && keys.unref()[j] == key;
                        assert(*keys[j] == key);
                        if j > it.index() {
                            lemma_keys_ordered(keys, it.index(), j);
                        }
                    }
                }
                if *k <= upper.0 {
                    return Some(Timestamp(*k));
                } else {
                    return None;
                }
            }
        }
        None
    }

    /// Registers the chapter spanning `ts`, titled `title`, at row `iter`.
    pub fn add_chapter(&mut self, ts: ChapterTimestamps, title: &str, iter: &RowId)
        ensures
            final(self).view() == model_add(old(self).view(), chapter_view(title@, ts, *iter)),
    {
        let ghost chapter = chapter_view(title@, ts, *iter);
        let ghost m = self.view();
        let new_chapter = Chapter { title: title.to_string(), ts, iter: *iter };
        let found_start = match self.0.get(&ts.start.0) {
            Some(at_start) => {
                let updated = SuccessiveChapters {
                    prev: clone_option(&at_start.prev),
                    next: Some(new_chapter.clone()),
                };
                let previous_next = clone_option(&at_start.next);
                self.0.insert(ts.start.0, updated);
                self.0.insert(ts.end.0, SuccessiveChapters { prev: Some(new_chapter.clone()), next: previous_next });
                true
            },
            None => false,
        };
        if !found_start {
            // no chapter at start
            match self.0.get(&ts.end.0) {
                Some(at_end) => {
                    // a boundary already exists at end
                    let prev_chapter = clone_option(&at_end.prev);
                    let updated = SuccessiveChapters {
                        prev: Some(new_chapter.clone()),
                        next: clone_option(&at_end.next),
                    };
                    self.0.insert(ts.end.0, updated);
                    self.0.insert(ts.start.0, SuccessiveChapters { prev: prev_chapter, next: Some(new_chapter) });
                },
                None => {
                    self.0.insert(ts.start.0, SuccessiveChapters { prev: None, next: Some(new_chapter.clone()) });
                    self.0.insert(ts.end.0, SuccessiveChapters { prev: Some(new_chapter), next: None });
                },
            }
        }
        assert(self.view() =~= model_add(m, chapter));
    }

    /// Unregisters the chapter spanning `ts`.
    pub fn remove_chapter(&mut self, ts: ChapterTimestamps)
        requires
            old(self).view().contains_key(ts.start.0),
            old(self).view().contains_key(ts.end.0),
            ts.start.0 != ts.end.0,
        ensures
            final(self).view() == model_remove(old(self).view(), ts),
    {
        let ghost m = self.view();
        let prev_chapter = clone_option(&self.0.get(&ts.start.0).unwrap().prev);
        self.0.remove(&ts.start.0);

        let at_end = self.0.get(&ts.end.0).unwrap();
        if prev_chapter.is_none() && at_end.next.is_none() {
            self.0.remove(&ts.end.0);
        } else {
            let next = clone_option(&at_end.next);
            self.0.insert(ts.end.0, SuccessiveChapters { prev: prev_chapter, next });
        }
        assert(self.view() =~= model_remove(m, ts));
    }

    /// Renames the chapter spanning `ts`.
    pub fn rename_chapter(&mut self, ts: ChapterTimestamps, new_title: &str)
        requires
            can_rename(old(self).view(), ts),
        ensures
            final(self).view() == model_rename(old(self).view(), ts, new_title@),
    {
        let ghost m = self.view();
        let at_start = self.0.get(&ts.start.0).unwrap();
        let mut next = clone_option(&at_start.next).unwrap();
        next.title = new_title.to_string();
        let updated = SuccessiveChapters { prev: clone_option(&at_start.prev), next: Some(next) };
        self.0.insert(ts.start.0, updated);
        let ghost m1 = self.view();
        assert(m1 =~= m.insert(
            ts.start.0,
            SuccessiveChaptersView { prev: m[ts.start.0].prev, next: renamed(m[ts.start.0].next, new_title@) },
        ));

        let at_end = self.0.get(&ts.end.0).unwrap();
        let mut prev = clone_option(&at_end.prev).unwrap();
        prev.title = new_title.to_string();
        let updated = SuccessiveChapters { prev: Some(prev), next: clone_option(&at_end.next) };
        self.0.insert(ts.end.0, updated);
        assert(self.view() =~= model_rename(m, ts, new_title@));
    }

    /// Moves the boundary at `boundary` to `target`.
    pub fn move_boundary(&mut self, boundary: Timestamp, target: Timestamp)
        requires
            old(self).view().contains_key(boundary.0),
            !old(self).view().remove(boundary.0).contains_key(target.0),
        ensures
            final(self).view() == old(self).view().remove(boundary.0).insert(
                target.0,
                old(self).view()[boundary.0],
            ),
    {
        let ghost m = self.view();
        let chapters = self.0.remove(&boundary.0).unwrap();
        self.0.insert(target.0, chapters);
        assert(self.view() =~= m.remove(boundary.0).insert(target.0, m[boundary.0]));
    }
}

/// Adding a chapter registers it as the chapter starting at its start boundary and
/// as the chapter ending at its end boundary.
pub proof fn lemma_add_registers_chapter(m: Map<u64, SuccessiveChaptersView>, chapter: ChapterView)
    requires
        chapter.ts.start.0 != chapter.ts.end.0,
    ensures
        ({
            let added = model_add(m, chapter);
            &&& added.contains_key(chapter.ts.start.0)
            &&& added[chapter.ts.start.0].next == Some(chapter)
            &&& added.contains_key(chapter.ts.end.0)
            &&& added[chapter.ts.end.0].prev == Some(chapter)
            &&& added.dom() == m.dom().insert(chapter.ts.start.0).insert(chapter.ts.end.0)
        }),
{
    assert(model_add(m, chapter).dom() =~= m.dom().insert(chapter.ts.start.0).insert(
        chapter.ts.end.0,
    ));
}

/// Removing a chapter that was added apart from the other chapters restores the
/// boundaries as they were before.
pub proof fn lemma_remove_undoes_add(m: Map<u64, SuccessiveChaptersView>, chapter: ChapterView)
    requires
        chapter.ts.start.0 != chapter.ts.end.0,
        !m.contains_key(chapter.ts.start.0),
        !m.contains_key(chapter.ts.end.0),
    ensures
        model_remove(model_add(m, chapter), chapter.ts) == m,
{
    assert(model_remove(model_add(m, chapter), chapter.ts) =~= m);
}

/// Renaming a chapter keeps the boundaries and the chapters' timestamps and rows.
pub proof fn lemma_rename_keeps_boundaries(
    m: Map<u64, SuccessiveChaptersView>,
    ts: ChapterTimestamps,
    title: Seq<char>,
)
    requires
        can_rename(m, ts),
    ensures
        ({
            let r = model_rename(m, ts, title);
            &&& r.dom() == m.dom()
            &&& forall|k: u64| #[trigger]
                r.contains_key(k) ==> same_slots(r[k].prev, m[k].prev) && same_slots(
                    r[k].next,
                    m[k].next,
                )
            &&& r[ts.start.0].next matches Some(c) && c.title == title
            &&& r[ts.end.0].prev matches Some(c) && c.title == title
        }),
{
    assert(model_rename(m, ts, title).dom() =~= m.dom());
}

/// The two optional chapters span the same timestamps at the same row.
pub open spec fn same_slots(a: Option<ChapterView>, b: Option<ChapterView>) -> bool {
    match (a, b) {
        (Some(a), Some(b)) => a.ts == b.ts && a.iter == b.iter,
        (None, None) => true,
        _ => false,
    }
}

} // verus!
