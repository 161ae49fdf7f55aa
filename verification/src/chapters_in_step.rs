//! The chapters list and the boundaries between chapters describe the same chapters:
//! each chapter of the list is the one which starts at its start boundary and the one
//! which ends at its end boundary, and each boundary is the start or the end of a
//! chapter of the list. Adding a chapter where the playback stands keeps them so.
use vstd::prelude::*;

use crate::chapter_tree::{moved_row, with_end, ChapterIterEnd, ChapterIterStart, RowView};
use crate::chapters_boundaries::{
    can_rename, chapter_view, model_add, model_remove, model_rename, ChapterTimestamps, ChapterView, RowId,
    SuccessiveChaptersView,
};
use crate::timestamp::Timestamp;

verus! {

/// `chapter` is the chapter of `row`: same row and same title.
pub open spec fn names(chapter: Option<ChapterView>, row: RowView) -> bool {
    chapter matches Some(c) && c.iter == row.id && c.title == row.title
}

/// A chapter of `rows` starts at `k`.
pub open spec fn starts_at(rows: Seq<RowView>, k: u64) -> bool {
    exists|i: int| 0 <= i < rows.len() && #[trigger] rows[i].ts.start.0 == k
}

/// A chapter of `rows` ends at `k`.
pub open spec fn ends_at(rows: Seq<RowView>, k: u64) -> bool {
    exists|i: int| 0 <= i < rows.len() && #[trigger] rows[i].ts.end.0 == k
}

/// The chapters of `rows` are not empty, follow one another and don't overlap.
pub open spec fn well_ordered(rows: Seq<RowView>) -> bool {
    &&& forall|i: int| 0 <= i < rows.len() ==> #[trigger] rows[i].ts.start.0 < rows[i].ts.end.0
    &&& forall|i: int, j: int|
        0 <= i < j < rows.len() ==> #[trigger] rows[i].ts.end.0 <= #[trigger] rows[j].ts.start.0
}

/// The boundaries `m` are those of the chapters `rows`.
pub open spec fn mirrors(rows: Seq<RowView>, m: Map<u64, SuccessiveChaptersView>) -> bool {
    &&& forall|i: int|
        0 <= i < rows.len() ==> m.contains_key(#[trigger] rows[i].ts.start.0) && names(
            m[rows[i].ts.start.0].next,
            rows[i],
        )
    &&& forall|i: int|
        0 <= i < rows.len() ==> m.contains_key(#[trigger] rows[i].ts.end.0) && names(
            m[rows[i].ts.end.0].prev,
            rows[i],
        )
    &&& forall|k: u64| #[trigger]
        m.contains_key(k) ==> {
            &&& (m[k].next is Some ==> starts_at(rows, k))
            &&& (m[k].prev is Some ==> ends_at(rows, k))
            &&& (m[k].next is Some || m[k].prev is Some)
        }
}

/// The chapters `rows` are well ordered and `m` holds their boundaries.
pub open spec fn in_step(rows: Seq<RowView>, m: Map<u64, SuccessiveChaptersView>) -> bool {
    well_ordered(rows) && mirrors(rows, m)
}

/// In well ordered chapters, no boundary lies strictly inside a chapter.
pub proof fn lemma_no_boundary_inside(rows: Seq<RowView>, s: int, t: u64)
    requires
        well_ordered(rows),
        0 <= s < rows.len(),
        rows[s].ts.start.0 < t < rows[s].ts.end.0,
    ensures
        !starts_at(rows, t),
        !ends_at(rows, t),
{
    if starts_at(rows, t) {
        let j = choose|j: int| 0 <= j < rows.len() && #[trigger] rows[j].ts.start.0 == t;
        if j < s {
            assert(rows[j].ts.end.0 <= rows[s].ts.start.0);
        } else if j > s {
            assert(rows[s].ts.end.0 <= rows[j].ts.start.0);
        }
    }
    if ends_at(rows, t) {
        let j = choose|j: int| 0 <= j < rows.len() && #[trigger] rows[j].ts.end.0 == t;
        if j < s {
            assert(rows[j].ts.end.0 <= rows[s].ts.start.0);
        } else if j > s {
            assert(rows[s].ts.end.0 <= rows[j].ts.start.0);
        }
    }
}

/// Splitting the chapter at `s` at `target`, the new chapter `[target, end)` taking
/// the row `id` and the title `title`, keeps the list and the boundaries in step.
pub proof fn lemma_split_keeps_in_step(
    rows: Seq<RowView>,
    m: Map<u64, SuccessiveChaptersView>,
    s: int,
    target: Timestamp,
    id: RowId,
    title: Seq<char>,
)
    requires
        in_step(rows, m),
        0 <= s < rows.len(),
        rows[s].ts.start.0 < target.0 < rows[s].ts.end.0,
    ensures
        ({
            let sel = rows[s];
            let ts = ChapterTimestamps { start: target, end: sel.ts.end };
            let new_row = RowView { id, ts, title };
            in_step(
                rows.update(s, with_end(sel, target)).insert(s + 1, new_row),
                model_add(m, chapter_view(title, ts, id)),
            )
        }),
{
    let sel = rows[s];
    let ts = ChapterTimestamps { start: target, end: sel.ts.end };
    let new_row = RowView { id, ts, title };
    let chapter = chapter_view(title, ts, id);
    let rows2 = rows.update(s, with_end(sel, target)).insert(s + 1, new_row);
    let t = target.0;
    let e = sel.ts.end.0;
    lemma_no_boundary_inside(rows, s, t);
    assert(!m.contains_key(t));
    assert(m.contains_key(e));
    let at_end = m[e];
    let m2 = model_add(m, chapter);
    assert(m2 == m.insert(e, SuccessiveChaptersView { prev: Some(chapter), next: at_end.next }).insert(
        t,
        SuccessiveChaptersView { prev: at_end.prev, next: Some(chapter) },
    ));
    assert forall|i: int| 0 <= i < rows2.len() implies #[trigger] rows2[i] == (if i < s {
        rows[i]
    } else if i == s {
        with_end(sel, target)
    } else if i == s + 1 {
        new_row
    } else {
        rows[i - 1]
    }) by {}
    // well ordered
    assert forall|i: int| 0 <= i < rows2.len() implies #[trigger] rows2[i].ts.start.0
        < rows2[i].ts.end.0 by {
        if i > s + 1 {
            assert(rows2[i] == rows[i - 1]);
        }
    }
    assert forall|i: int, j: int| 0 <= i < j < rows2.len() implies #[trigger] rows2[i].ts.end.0
        <= #[trigger] rows2[j].ts.start.0 by {
        let ri = if i < s {
            i
        } else if i <= s + 1 {
            s
        } else {
            i - 1
        };
        let rj = if j < s {
            j
        } else if j <= s + 1 {
            s
        } else {
            j - 1
        };
        assert(rows2[i] == (if i < s {
            rows[i]
        } else if i == s {
            with_end(sel, target)
        } else if i == s + 1 {
            new_row
        } else {
            rows[i - 1]
        }));
        assert(rows2[j] == (if j < s {
            rows[j]
        } else if j == s {
            with_end(sel, target)
        } else if j == s + 1 {
            new_row
        } else {
            rows[j - 1]
        }));
        if ri < rj {
            assert(rows[ri].ts.end.0 <= rows[rj].ts.start.0);
        }
        assert(rows[ri].ts.start.0 < rows[ri].ts.end.0);
        assert(rows[rj].ts.start.0 < rows[rj].ts.end.0);
    }
    // every chapter at its boundaries
    assert forall|i: int| 0 <= i < rows2.len() implies m2.contains_key(
        #[trigger] rows2[i].ts.start.0,
    ) && names(m2[rows2[i].ts.start.0].next, rows2[i]) by {
        if i < s {
            assert(rows2[i] == rows[i]);
            assert(rows[i].ts.start.0 < rows[i].ts.end.0 <= sel.ts.start.0);
            assert(m.contains_key(rows[i].ts.start.0));
        } else if i == s {
            assert(m.contains_key(sel.ts.start.0));
        } else if i > s + 1 {
            assert(rows2[i] == rows[i - 1]);
            assert(sel.ts.end.0 <= rows[i - 1].ts.start.0);
            assert(m.contains_key(rows[i - 1].ts.start.0));
            if rows[i - 1].ts.start.0 == e {
                assert(names(m[e].next, rows[i - 1]));
            }
        }
    }
    assert forall|i: int| 0 <= i < rows2.len() implies m2.contains_key(
        #[trigger] rows2[i].ts.end.0,
    ) && names(m2[rows2[i].ts.end.0].prev, rows2[i]) by {
        if i < s {
            assert(rows2[i] == rows[i]);
            assert(rows[i].ts.end.0 <= sel.ts.start.0);
            assert(m.contains_key(rows[i].ts.end.0));
        } else if i == s {
            assert(names(m[e].prev, sel));
        } else if i > s + 1 {
            assert(rows2[i] == rows[i - 1]);
            assert(sel.ts.end.0 <= rows[i - 1].ts.start.0);
            assert(m.contains_key(rows[i - 1].ts.end.0));
        }
    }
    // every boundary is the start or the end of a chapter
    assert forall|k: u64| #[trigger] m2.contains_key(k) implies {
        &&& (m2[k].next is Some ==> starts_at(rows2, k))
        &&& (m2[k].prev is Some ==> ends_at(rows2, k))
        &&& (m2[k].next is Some || m2[k].prev is Some)
    } by {
        if k == t {
            assert(rows2[s + 1].ts.start.0 == t);
            assert(rows2[s].ts.end.0 == t);
        } else if k == e {
            assert(rows2[s + 1].ts.end.0 == e);
            if at_end.next is Some {
                assert(starts_at(rows, e));
                let j = choose|j: int| 0 <= j < rows.len() && #[trigger] rows[j].ts.start.0 == e;
                assert(j > s);
                assert(rows2[j + 1] == rows[j]);
            }
        } else {
            assert(m.contains_key(k));
            if m[k].next is Some {
                let j = choose|j: int| 0 <= j < rows.len() && #[trigger] rows[j].ts.start.0 == k;
                if j < s {
                    assert(rows2[j] == rows[j]);
                } else if j == s {
                    assert(rows2[s].ts.start.0 == k);
                } else {
                    assert(rows2[j + 1] == rows[j]);
                }
            }
            if m[k].prev is Some {
                let j = choose|j: int| 0 <= j < rows.len() && #[trigger] rows[j].ts.end.0 == k;
                if j < s {
                    assert(rows2[j] == rows[j]);
                } else if j == s {
                    assert(false);
                } else {
                    assert(rows2[j + 1] == rows[j]);
                }
            }
        }
    }
}

/// Adding the chapter `[target, start of the chapter at i)` in the gap before the
/// chapter at `i`, with the row `id` and the title `title`, keeps the list and the
/// boundaries in step.
pub proof fn lemma_fill_gap_keeps_in_step(
    rows: Seq<RowView>,
    m: Map<u64, SuccessiveChaptersView>,
    i: int,
    target: Timestamp,
    id: RowId,
    title: Seq<char>,
)
    requires
        in_step(rows, m),
        0 <= i < rows.len(),
        target.0 < rows[i].ts.start.0,
        i > 0 ==> rows[i - 1].ts.end.0 < target.0,
    ensures
        ({
            let ts = ChapterTimestamps { start: target, end: rows[i].ts.start };
            in_step(
                rows.insert(i, RowView { id, ts, title }),
                model_add(m, chapter_view(title, ts, id)),
            )
        }),
{
    let ts = ChapterTimestamps { start: target, end: rows[i].ts.start };
    let new_row = RowView { id, ts, title };
    let chapter = chapter_view(title, ts, id);
    let rows2 = rows.insert(i, new_row);
    let t = target.0;
    let e = rows[i].ts.start.0;
    assert(!starts_at(rows, t) && !ends_at(rows, t) && !ends_at(rows, e)) by {
        if starts_at(rows, t) {
            let j = choose|j: int| 0 <= j < rows.len() && #[trigger] rows[j].ts.start.0 == t;
            if j < i - 1 {
                assert(rows[j].ts.end.0 <= rows[i - 1].ts.start.0);
            } else if j > i {
                assert(rows[i].ts.end.0 <= rows[j].ts.start.0);
            }
        }
        if ends_at(rows, t) {
            let j = choose|j: int| 0 <= j < rows.len() && #[trigger] rows[j].ts.end.0 == t;
            if j < i - 1 {
                assert(rows[j].ts.end.0 <= rows[i - 1].ts.start.0);
            } else if j > i {
                assert(rows[i].ts.end.0 <= rows[j].ts.start.0);
            }
        }
        if ends_at(rows, e) {
            let j = choose|j: int| 0 <= j < rows.len() && #[trigger] rows[j].ts.end.0 == e;
            if j < i - 1 {
                assert(rows[j].ts.end.0 <= rows[i - 1].ts.start.0);
            } else if j > i {
                assert(rows[i].ts.end.0 <= rows[j].ts.start.0);
            }
        }
    }
    assert(!m.contains_key(t));
    assert(m.contains_key(e));
    let at_end = m[e];
    assert(at_end.prev is None);
    let m2 = model_add(m, chapter);
    assert(m2 == m.insert(e, SuccessiveChaptersView { prev: Some(chapter), next: at_end.next }).insert(
        t,
        SuccessiveChaptersView { prev: at_end.prev, next: Some(chapter) },
    ));
    assert forall|j: int| 0 <= j < rows2.len() implies #[trigger] rows2[j] == (if j < i {
        rows[j]
    } else if j == i {
        new_row
    } else {
        rows[j - 1]
    }) by {}
    assert forall|j: int| 0 <= j < rows2.len() implies #[trigger] rows2[j].ts.start.0
        < rows2[j].ts.end.0 by {
        if j > i {
            assert(rows2[j] == rows[j - 1]);
        } else if j < i {
            assert(rows2[j] == rows[j]);
        }
    }
    assert forall|a: int, b: int| 0 <= a < b < rows2.len() implies #[trigger] rows2[a].ts.end.0
        <= #[trigger] rows2[b].ts.start.0 by {
        assert(rows2[a] == (if a < i {
            rows[a]
        } else if a == i {
            new_row
        } else {
            rows[a - 1]
        }));
        assert(rows2[b] == (if b < i {
            rows[b]
        } else if b == i {
            new_row
        } else {
            rows[b - 1]
        }));
        if a < i && b > i {
            assert(rows[a].ts.end.0 <= rows[b - 1].ts.start.0);
        } else if a < i && b == i {
            if a < i - 1 {
                assert(rows[a].ts.end.0 <= rows[i - 1].ts.start.0);
                assert(rows[i - 1].ts.start.0 < rows[i - 1].ts.end.0);
            }
        } else if a == i {
            if b > i + 1 {
                assert(rows[i].ts.end.0 <= rows[b - 1].ts.start.0);
            }
            assert(rows[i].ts.start.0 < rows[i].ts.end.0);
        } else if a > i {
            assert(rows[a - 1].ts.end.0 <= rows[b - 1].ts.start.0);
        }
    }
    assert forall|j: int| 0 <= j < rows2.len() implies m2.contains_key(
        #[trigger] rows2[j].ts.start.0,
    ) && names(m2[rows2[j].ts.start.0].next, rows2[j]) by {
        if j < i {
            assert(rows2[j] == rows[j]);
            assert(m.contains_key(rows[j].ts.start.0));
            if rows[j].ts.start.0 == e {
                assert(rows[j].ts.end.0 <= rows[i].ts.start.0);
                assert(rows[j].ts.start.0 < rows[j].ts.end.0);
            }
        } else if j > i {
            assert(rows2[j] == rows[j - 1]);
            assert(m.contains_key(rows[j - 1].ts.start.0));
        }
    }
    assert forall|j: int| 0 <= j < rows2.len() implies m2.contains_key(
        #[trigger] rows2[j].ts.end.0,
    ) && names(m2[rows2[j].ts.end.0].prev, rows2[j]) by {
        if j < i {
            assert(rows2[j] == rows[j]);
            assert(m.contains_key(rows[j].ts.end.0));
        } else if j > i {
            assert(rows2[j] == rows[j - 1]);
            assert(m.contains_key(rows[j - 1].ts.end.0));
            assert(rows[i].ts.start.0 < rows[i].ts.end.0);
            if j - 1 > i {
                assert(rows[i].ts.end.0 <= rows[j - 1].ts.start.0);
            }
        }
    }
    assert forall|k: u64| #[trigger] m2.contains_key(k) implies {
        &&& (m2[k].next is Some ==> starts_at(rows2, k))
        &&& (m2[k].prev is Some ==> ends_at(rows2, k))
        &&& (m2[k].next is Some || m2[k].prev is Some)
    } by {
        if k == t {
            assert(rows2[i].ts.start.0 == t);
        } else if k == e {
            assert(rows2[i].ts.end.0 == e);
            assert(rows2[i + 1] == rows[i]);
        } else {
            assert(m.contains_key(k));
            if m[k].next is Some {
                let j = choose|j: int| 0 <= j < rows.len() && #[trigger] rows[j].ts.start.0 == k;
                if j < i {
                    assert(rows2[j] == rows[j]);
                } else {
                    assert(rows2[j + 1] == rows[j]);
                }
            }
            if m[k].prev is Some {
                let j = choose|j: int| 0 <= j < rows.len() && #[trigger] rows[j].ts.end.0 == k;
                if j < i {
                    assert(rows2[j] == rows[j]);
                } else {
                    assert(rows2[j + 1] == rows[j]);
                }
            }
        }
    }
}

/// Adding the chapter `[target, duration)` after the last chapter, with the row `id`
/// and the title `title`, keeps the list and the boundaries in step.
pub proof fn lemma_append_keeps_in_step(
    rows: Seq<RowView>,
    m: Map<u64, SuccessiveChaptersView>,
    target: Timestamp,
    duration: Timestamp,
    id: RowId,
    title: Seq<char>,
)
    requires
        in_step(rows, m),
        target.0 < duration.0,
        rows.len() > 0 ==> rows.last().ts.end.0 <= target.0,
    ensures
        ({
            let ts = ChapterTimestamps { start: target, end: duration };
            in_step(rows.push(RowView { id, ts, title }), model_add(m, chapter_view(title, ts, id)))
        }),
{
    let ts = ChapterTimestamps { start: target, end: duration };
    let new_row = RowView { id, ts, title };
    let chapter = chapter_view(title, ts, id);
    let rows2 = rows.push(new_row);
    let t = target.0;
    let d = duration.0;
    let n = rows.len() as int;
    // every boundary is at most the end of the last chapter
    assert forall|k: u64| starts_at(rows, k) || ends_at(rows, k) implies n > 0 && k <= rows[n
        - 1].ts.end.0 by {
        if starts_at(rows, k) {
            let j = choose|j: int| 0 <= j < rows.len() && #[trigger] rows[j].ts.start.0 == k;
            assert(rows[j].ts.start.0 < rows[j].ts.end.0);
            if j < n - 1 {
                assert(rows[j].ts.end.0 <= rows[n - 1].ts.start.0);
                assert(rows[n - 1].ts.start.0 < rows[n - 1].ts.end.0);
            }
        } else {
            let j = choose|j: int| 0 <= j < rows.len() && #[trigger] rows[j].ts.end.0 == k;
            if j < n - 1 {
                assert(rows[j].ts.end.0 <= rows[n - 1].ts.start.0);
                assert(rows[n - 1].ts.start.0 < rows[n - 1].ts.end.0);
            }
        }
    }
    assert(!m.contains_key(d));
    assert(!starts_at(rows, t));
    let m2 = model_add(m, chapter);
    if m.contains_key(t) {
        let at_start = m[t];
        assert(at_start.next is None);
        assert(m2 == m.insert(t, SuccessiveChaptersView { prev: at_start.prev, next: Some(chapter) }).insert(
            d,
            SuccessiveChaptersView { prev: Some(chapter), next: at_start.next },
        ));
    } else {
        assert(m2 == m.insert(t, SuccessiveChaptersView { prev: None, next: Some(chapter) }).insert(
            d,
            SuccessiveChaptersView { prev: Some(chapter), next: None },
        ));
    }
    assert forall|j: int| 0 <= j < rows2.len() implies #[trigger] rows2[j].ts.start.0
        < rows2[j].ts.end.0 by {
        if j < n {
            assert(rows2[j] == rows[j]);
        }
    }
    assert forall|a: int, b: int| 0 <= a < b < rows2.len() implies #[trigger] rows2[a].ts.end.0
        <= #[trigger] rows2[b].ts.start.0 by {
        assert(rows2[a] == rows[a]);
        if b < n {
            assert(rows2[b] == rows[b]);
        } else if a < n - 1 {
            assert(rows[a].ts.end.0 <= rows[n - 1].ts.start.0);
            assert(rows[n - 1].ts.start.0 < rows[n - 1].ts.end.0);
        }
    }
    assert forall|j: int| 0 <= j < rows2.len() implies m2.contains_key(
        #[trigger] rows2[j].ts.start.0,
    ) && names(m2[rows2[j].ts.start.0].next, rows2[j]) by {
        if j < n {
            assert(rows2[j] == rows[j]);
            assert(starts_at(rows, rows[j].ts.start.0));
        }
    }
    assert forall|j: int| 0 <= j < rows2.len() implies m2.contains_key(
        #[trigger] rows2[j].ts.end.0,
    ) && names(m2[rows2[j].ts.end.0].prev, rows2[j]) by {
        if j < n {
            assert(rows2[j] == rows[j]);
            assert(ends_at(rows, rows[j].ts.end.0));
            if rows[j].ts.end.0 == t {
                assert(m.contains_key(t));
            }
        }
    }
    assert forall|k: u64| #[trigger] m2.contains_key(k) implies {
        &&& (m2[k].next is Some ==> starts_at(rows2, k))
        &&& (m2[k].prev is Some ==> ends_at(rows2, k))
        &&& (m2[k].next is Some || m2[k].prev is Some)
    } by {
        if k == t {
            assert(rows2[n].ts.start.0 == t);
            if m2[k].prev is Some {
                assert(m.contains_key(t));
                let j = choose|j: int| 0 <= j < rows.len() && #[trigger] rows[j].ts.end.0 == k;
                assert(rows2[j] == rows[j]);
            }
        } else if k == d {
            assert(rows2[n].ts.end.0 == d);
        } else {
            assert(m.contains_key(k));
            if m[k].next is Some {
                let j = choose|j: int| 0 <= j < rows.len() && #[trigger] rows[j].ts.start.0 == k;
                assert(rows2[j] == rows[j]);
            }
            if m[k].prev is Some {
                let j = choose|j: int| 0 <= j < rows.len() && #[trigger] rows[j].ts.end.0 == k;
                assert(rows2[j] == rows[j]);
            }
        }
    }
}

/// No chapter and no boundary are in step.
pub proof fn lemma_empty_in_step()
    ensures
        in_step(Seq::<RowView>::empty(), Map::<u64, SuccessiveChaptersView>::empty()),
{
}

/// When the list and the boundaries are in step, the boundaries of each chapter exist
/// and name it, so that it can be removed or renamed.
pub proof fn lemma_in_step_chapter_has_boundaries(
    rows: Seq<RowView>,
    m: Map<u64, SuccessiveChaptersView>,
    s: int,
)
    requires
        in_step(rows, m),
        0 <= s < rows.len(),
    ensures
        m.contains_key(rows[s].ts.start.0),
        m.contains_key(rows[s].ts.end.0),
        rows[s].ts.start.0 != rows[s].ts.end.0,
        can_rename(m, rows[s].ts),
{
}

/// Renaming the chapter at `s` in the list and in the boundaries keeps them in step.
pub proof fn lemma_rename_keeps_in_step(
    rows: Seq<RowView>,
    m: Map<u64, SuccessiveChaptersView>,
    s: int,
    title: Seq<char>,
)
    requires
        in_step(rows, m),
        0 <= s < rows.len(),
    ensures
        in_step(
            rows.update(s, RowView { title, ..rows[s] }),
            model_rename(m, rows[s].ts, title),
        ),
{
    let rows2 = rows.update(s, RowView { title, ..rows[s] });
    let m2 = model_rename(m, rows[s].ts, title);
    let st = rows[s].ts.start.0;
    let en = rows[s].ts.end.0;
    assert(m2.dom() == m.dom());
    assert forall|i: int| 0 <= i < rows2.len() implies m2.contains_key(
        #[trigger] rows2[i].ts.start.0,
    ) && names(m2[rows2[i].ts.start.0].next, rows2[i]) by {
        if i != s {
            assert(rows2[i] == rows[i]);
            assert(m.contains_key(rows[i].ts.start.0));
            if rows[i].ts.start.0 == st {
                if i < s {
                    assert(rows[i].ts.end.0 <= rows[s].ts.start.0);
                } else {
                    assert(rows[s].ts.end.0 <= rows[i].ts.start.0);
                }
            }
        }
    }
    assert forall|i: int| 0 <= i < rows2.len() implies m2.contains_key(
        #[trigger] rows2[i].ts.end.0,
    ) && names(m2[rows2[i].ts.end.0].prev, rows2[i]) by {
        if i != s {
            assert(rows2[i] == rows[i]);
            assert(m.contains_key(rows[i].ts.end.0));
            if rows[i].ts.end.0 == en {
                if i < s {
                    assert(rows[i].ts.end.0 <= rows[s].ts.start.0);
                } else {
                    assert(rows[s].ts.end.0 <= rows[i].ts.start.0);
                }
            }
        }
    }
    assert forall|k: u64| #[trigger] m2.contains_key(k) implies {
        &&& (m2[k].next is Some ==> starts_at(rows2, k))
        &&& (m2[k].prev is Some ==> ends_at(rows2, k))
        &&& (m2[k].next is Some || m2[k].prev is Some)
    } by {
        assert(m.contains_key(k));
        if m[k].next is Some {
            let j = choose|j: int| 0 <= j < rows.len() && #[trigger] rows[j].ts.start.0 == k;
            assert(rows2[j].ts.start.0 == k);
        }
        if m[k].prev is Some {
            let j = choose|j: int| 0 <= j < rows.len() && #[trigger] rows[j].ts.end.0 == k;
            assert(rows2[j].ts.end.0 == k);
        }
    }
}

/// Removing the chapter at `s`, the chapter before it now ending where the removed one
/// ended, keeps the list and the boundaries in step, when the chapter before ended
/// where the removed one started.
pub proof fn lemma_remove_keeps_in_step(rows: Seq<RowView>, m: Map<u64, SuccessiveChaptersView>, s: int)
    requires
        in_step(rows, m),
        0 <= s < rows.len(),
        s > 0 ==> rows[s - 1].ts.end.0 == rows[s].ts.start.0,
    ensures
        in_step(
            if s > 0 {
                rows.update(s - 1, with_end(rows[s - 1], rows[s].ts.end)).remove(s)
            } else {
                rows.remove(0)
            },
            model_remove(m, rows[s].ts),
        ),
{
    let rem = rows[s];
    let st = rem.ts.start.0;
    let en = rem.ts.end.0;
    let rows2 = if s > 0 {
        rows.update(s - 1, with_end(rows[s - 1], rem.ts.end)).remove(s)
    } else {
        rows.remove(0)
    };
    let m2 = model_remove(m, rem.ts);
    assert(m.contains_key(st) && m.contains_key(en));
    // the rows which stay, by their former index
    assert forall|j: int| 0 <= j < rows2.len() implies #[trigger] rows2[j] == (if j < s - 1 {
        rows[j]
    } else if j == s - 1 {
        with_end(rows[s - 1], rem.ts.end)
    } else {
        rows[j + 1]
    }) by {}
    // who ends at the start of the removed chapter, and who starts at its end
    if s > 0 {
        assert(names(m[st].prev, rows[s - 1]));
    } else {
        assert(m[st].prev is None) by {
            if m[st].prev is Some {
                let j = choose|j: int| 0 <= j < rows.len() && #[trigger] rows[j].ts.end.0 == st;
                if j > 0 {
                    assert(rows[0].ts.end.0 <= rows[j].ts.start.0);
                }
            }
        }
    }
    assert forall|j: int| 0 <= j < rows.len() && j != s implies #[trigger] rows[j].ts.start.0
        != st && rows[j].ts.end.0 != en by {
        if j < s {
            assert(rows[j].ts.end.0 <= rows[s].ts.start.0);
        } else {
            assert(rows[s].ts.end.0 <= rows[j].ts.start.0);
        }
    }
    assert forall|j: int| 0 <= j < rows.len() && j != s && j != s - 1 implies #[trigger] rows[j].ts.end.0
        != st by {
        if j < s - 1 {
            assert(rows[j].ts.end.0 <= rows[s - 1].ts.start.0);
            assert(rows[s - 1].ts.start.0 < rows[s - 1].ts.end.0);
        } else if j > s {
            assert(rows[s].ts.end.0 <= rows[j].ts.start.0);
        }
    }
    assert forall|j: int| 0 <= j < rows2.len() implies #[trigger] rows2[j].ts.start.0
        < rows2[j].ts.end.0 by {
        if j >= s - 1 && j < s {
            assert(rows[s - 1].ts.start.0 < rows[s - 1].ts.end.0);
        } else if j >= s {
            assert(rows2[j] == rows[j + 1]);
        }
    }
    assert forall|a: int, b: int| 0 <= a < b < rows2.len() implies #[trigger] rows2[a].ts.end.0
        <= #[trigger] rows2[b].ts.start.0 by {
        let ra = if a < s {
            a
        } else {
            a + 1
        };
        let rb = if b < s {
            b
        } else {
            b + 1
        };
        assert(rows2[b] == (if b < s - 1 {
            rows[b]
        } else if b == s - 1 {
            with_end(rows[s - 1], rem.ts.end)
        } else {
            rows[b + 1]
        }));
        assert(rows2[a] == (if a < s - 1 {
            rows[a]
        } else if a == s - 1 {
            with_end(rows[s - 1], rem.ts.end)
        } else {
            rows[a + 1]
        }));
        if a == s - 1 {
            assert(rows[s].ts.end.0 <= rows[rb].ts.start.0);
        } else {
            assert(rows[ra].ts.end.0 <= rows[rb].ts.start.0);
        }
    }
    assert forall|j: int| 0 <= j < rows2.len() implies m2.contains_key(
        #[trigger] rows2[j].ts.start.0,
    ) && names(m2[rows2[j].ts.start.0].next, rows2[j]) by {
        let r = if j < s {
            j
        } else {
            j + 1
        };
        assert(rows2[j].ts.start == rows[r].ts.start && rows2[j].id == rows[r].id
            && rows2[j].title == rows[r].title);
        assert(m.contains_key(rows[r].ts.start.0));
    }
    assert forall|j: int| 0 <= j < rows2.len() implies m2.contains_key(
        #[trigger] rows2[j].ts.end.0,
    ) && names(m2[rows2[j].ts.end.0].prev, rows2[j]) by {
        if j < s - 1 {
            assert(rows2[j] == rows[j]);
            assert(m.contains_key(rows[j].ts.end.0));
            assert(rows[j].ts.end.0 <= rows[s].ts.start.0);
            assert(rows[j].ts.end.0 != st);
        } else if j == s - 1 {
            assert(names(m[st].prev, rows[s - 1]));
            assert(m2.contains_key(en));
            assert(m2[en].prev == m[st].prev);
        } else {
            assert(rows2[j] == rows[j + 1]);
            assert(m.contains_key(rows[j + 1].ts.end.0));
            assert(rows[s].ts.end.0 <= rows[j + 1].ts.start.0);
            assert(rows[j + 1].ts.start.0 < rows[j + 1].ts.end.0);
        }
    }
    assert forall|k: u64| #[trigger] m2.contains_key(k) implies {
        &&& (m2[k].next is Some ==> starts_at(rows2, k))
        &&& (m2[k].prev is Some ==> ends_at(rows2, k))
        &&& (m2[k].next is Some || m2[k].prev is Some)
    } by {
        if k == en {
            if s > 0 {
                assert(rows2[s - 1].ts.end.0 == en);
            }
            if m[en].next is Some {
                let j = choose|j: int| 0 <= j < rows.len() && #[trigger] rows[j].ts.start.0 == en;
                assert(j > s);
                assert(rows2[j - 1] == rows[j]);
            }
        } else {
            assert(k != st);
            assert(m.contains_key(k));
            if m[k].next is Some {
                let j = choose|j: int| 0 <= j < rows.len() && #[trigger] rows[j].ts.start.0 == k;
                if j < s {
                    assert(rows2[j].ts.start == rows[j].ts.start);
                } else {
                    assert(rows2[j - 1] == rows[j]);
                }
            }
            if m[k].prev is Some {
                let j = choose|j: int| 0 <= j < rows.len() && #[trigger] rows[j].ts.end.0 == k;
                if j < s - 1 {
                    assert(rows2[j] == rows[j]);
                } else {
                    assert(rows2[j - 1] == rows[j]);
                }
            }
        }
    }
}

/// `k` lies between `b` and `t`, `t` included, `b` excluded.
pub open spec fn passed_over(b: u64, t: u64, k: u64) -> bool {
    (b < k <= t) || (t <= k < b)
}

/// Moving the boundary `b` to `t` passes over no other boundary and keeps the chapters
/// on each side of it from becoming empty.
pub open spec fn move_stays_between(
    rows: Seq<RowView>,
    m: Map<u64, SuccessiveChaptersView>,
    b: u64,
    t: u64,
) -> bool {
    &&& forall|k: u64| #[trigger] m.contains_key(k) && k != b ==> !passed_over(b, t, k)
    &&& forall|i: int| 0 <= i < rows.len() && #[trigger] rows[i].ts.end.0 == b ==> rows[i].ts.start.0 < t
    &&& forall|i: int| 0 <= i < rows.len() && #[trigger] rows[i].ts.start.0 == b ==> t < rows[i].ts.end.0
}

/// Moving the boundary `b` to `t` in the list (the chapter ending there now ends at `t`,
/// the one starting there now starts at `t`) and in the boundaries keeps them in step,
/// when the move passes over no other boundary and empties no chapter.
pub proof fn lemma_move_keeps_in_step(rows: Seq<RowView>, m: Map<u64, SuccessiveChaptersView>, b: u64, t: u64)
    requires
        in_step(rows, m),
        forall|i: int, j: int| 0 <= i < j < rows.len() ==> #[trigger] rows[i].id != #[trigger] rows[j].id,
        m.contains_key(b),
        t != b,
        move_stays_between(rows, m, b, t),
    ensures
        ({
            let chapters = m[b];
            let prev = match chapters.prev {
                Some(p) => Some(ChapterIterStart { iter: p.iter, start: p.ts.start }),
                None => None,
            };
            let next = match chapters.next {
                Some(n) => Some(ChapterIterEnd { iter: n.iter, end: n.ts.end }),
                None => None,
            };
            let rows2 = Seq::new(rows.len(), |i: int| moved_row(rows[i], Timestamp(t), prev, next));
            in_step(rows2, m.remove(b).insert(t, chapters))
        }),
{
    let chapters = m[b];
    let prev = match chapters.prev {
        Some(p) => Some(ChapterIterStart { iter: p.iter, start: p.ts.start }),
        None => None,
    };
    let next = match chapters.next {
        Some(n) => Some(ChapterIterEnd { iter: n.iter, end: n.ts.end }),
        None => None,
    };
    let rows2 = Seq::new(rows.len(), |i: int| moved_row(rows[i], Timestamp(t), prev, next));
    let m2 = m.remove(b).insert(t, chapters);
    assert(!m.contains_key(t));
    // a timestamp equal to `b` becomes `t`, the others stay
    assert forall|i: int| 0 <= i < rows.len() implies {
        &&& #[trigger] rows2[i].id == rows[i].id
        &&& rows2[i].title == rows[i].title
        &&& rows2[i].ts.start.0 == if rows[i].ts.start.0 == b { t } else { rows[i].ts.start.0 }
        &&& rows2[i].ts.end.0 == if rows[i].ts.end.0 == b { t } else { rows[i].ts.end.0 }
    } by {
        let row = rows[i];
        if row.ts.end.0 == b {
            assert(names(chapters.prev, row));
        } else if let Some(p) = chapters.prev {
            let j = choose|j: int| 0 <= j < rows.len() && #[trigger] rows[j].ts.end.0 == b;
            assert(names(m[b].prev, rows[j]));
            assert(j != i);
            assert(rows[j].id != row.id);
        }
        if row.ts.start.0 == b {
            assert(names(chapters.next, row));
            assert(row.ts.end.0 != b);
        } else if let Some(n) = chapters.next {
            let j = choose|j: int| 0 <= j < rows.len() && #[trigger] rows[j].ts.start.0 == b;
            assert(names(m[b].next, rows[j]));
            assert(j != i);
            assert(rows[j].id != row.id);
        }
    }
    assert forall|i: int| 0 <= i < rows2.len() implies #[trigger] rows2[i].ts.start.0
        < rows2[i].ts.end.0 by {
        assert(rows2[i].id == rows[i].id);
        assert(rows[i].ts.start.0 < rows[i].ts.end.0);
    }
    assert forall|i: int, j: int| 0 <= i < j < rows2.len() implies #[trigger] rows2[i].ts.end.0
        <= #[trigger] rows2[j].ts.start.0 by {
        assert(rows2[i].id == rows[i].id);
        assert(rows2[j].id == rows[j].id);
        assert(rows[i].ts.end.0 <= rows[j].ts.start.0);
        assert(m.contains_key(rows[i].ts.end.0));
        assert(m.contains_key(rows[j].ts.start.0));
    }
    assert forall|i: int| 0 <= i < rows2.len() implies m2.contains_key(
        #[trigger] rows2[i].ts.start.0,
    ) && names(m2[rows2[i].ts.start.0].next, rows2[i]) by {
        assert(rows2[i].id == rows[i].id);
        assert(m.contains_key(rows[i].ts.start.0));
    }
    assert forall|i: int| 0 <= i < rows2.len() implies m2.contains_key(
        #[trigger] rows2[i].ts.end.0,
    ) && names(m2[rows2[i].ts.end.0].prev, rows2[i]) by {
        assert(rows2[i].id == rows[i].id);
        assert(m.contains_key(rows[i].ts.end.0));
    }
    assert forall|k: u64| #[trigger] m2.contains_key(k) implies {
        &&& (m2[k].next is Some ==> starts_at(rows2, k))
        &&& (m2[k].prev is Some ==> ends_at(rows2, k))
        &&& (m2[k].next is Some || m2[k].prev is Some)
    } by {
        let src = if k == t { b } else { k };
        assert(m.contains_key(src));
        assert(m2[k] == m[src]);
        if m[src].next is Some {
            let j = choose|j: int| 0 <= j < rows.len() && #[trigger] rows[j].ts.start.0 == src;
            assert(rows2[j].id == rows[j].id);
        }
        if m[src].prev is Some {
            let j = choose|j: int| 0 <= j < rows.len() && #[trigger] rows[j].ts.end.0 == src;
            assert(rows2[j].id == rows[j].id);
        }
    }
}

} // verus!
