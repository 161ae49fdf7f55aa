use media_toc::chapters_boundaries::{
    Chapter, ChapterTimestamps, ChaptersBoundaries, RowId, SuccessiveChapters,
};
use media_toc::timestamp::Timestamp;

/// Hands out row identifiers, as a list of chapters would.
#[derive(Default)]
struct RowStore {
    next: u64,
}

impl RowStore {
    fn append(&mut self) -> RowId {
        let id = RowId(self.next);
        self.next += 1;
        id
    }
}

fn new_chapter(store: &mut RowStore, title: &str, ts: ChapterTimestamps) -> Chapter {
    Chapter {
        title: title.to_owned(),
        ts,
        iter: store.append(),
    }
}

#[test]
fn chapters_boundaries() {
    // fake store
    let mut store = RowStore::default();

    let mut boundaries = ChaptersBoundaries::new();

    assert!(boundaries.is_empty());

    // Add incrementally

    let chapter_1 = new_chapter(&mut store, "1", ChapterTimestamps::new_from_u64(0, 1));
    boundaries.add_chapter(chapter_1.ts, &chapter_1.title, &chapter_1.iter);
    assert_eq!(2, boundaries.len());
    assert_eq!(
        Some(&SuccessiveChapters {
            prev: None,
            next: Some(chapter_1.clone()),
        }),
        boundaries.get(&Timestamp::new(0)),
    );
    assert_eq!(
        Some(&SuccessiveChapters {
            prev: Some(chapter_1.clone()),
            next: None,
        }),
        boundaries.get(&Timestamp::new(1)),
    );

    let chapter_2 = new_chapter(&mut store, "2", ChapterTimestamps::new_from_u64(1, 2));
    boundaries.add_chapter(chapter_2.ts, &chapter_2.title, &chapter_2.iter);
    assert_eq!(3, boundaries.len());
    assert_eq!(
        Some(&SuccessiveChapters {
            prev: None,
            next: Some(chapter_1.clone()),
        }),
        boundaries.get(&Timestamp::new(0)),
    );
    assert_eq!(
        Some(&SuccessiveChapters {
            prev: Some(chapter_1.clone()),
            next: Some(chapter_2.clone()),
        }),
        boundaries.get(&Timestamp::new(1)),
    );
    assert_eq!(
        Some(&SuccessiveChapters {
            prev: Some(chapter_2.clone()),
            next: None,
        }),
        boundaries.get(&Timestamp::new(2)),
    );

    let chapter_3 = new_chapter(&mut store, "3", ChapterTimestamps::new_from_u64(2, 4));
    boundaries.add_chapter(chapter_3.ts, &chapter_3.title, &chapter_3.iter);
    assert_eq!(4, boundaries.len());
    assert_eq!(
        Some(&SuccessiveChapters {
            prev: None,
            next: Some(chapter_1.clone()),
        }),
        boundaries.get(&Timestamp::new(0)),
    );
    assert_eq!(
        Some(&SuccessiveChapters {
            prev: Some(chapter_1.clone()),
            next: Some(chapter_2.clone()),
        }),
        boundaries.get(&Timestamp::new(1)),
    );
    assert_eq!(
        Some(&SuccessiveChapters {
            prev: Some(chapter_2.clone()),
            next: Some(chapter_3.clone()),
        }),
        boundaries.get(&Timestamp::new(2)),
    );
    assert_eq!(
        Some(&SuccessiveChapters {
            prev: Some(chapter_3.clone()),
            next: None,
        }),
        boundaries.get(&Timestamp::new(4)),
    );

    // Rename
    let chapter_r2 = new_chapter(&mut store, "r2", ChapterTimestamps::new_from_u64(1, 2));
    boundaries.rename_chapter(chapter_r2.ts, &chapter_r2.title);
    assert_eq!(4, boundaries.len());
    assert_eq!(
        Some(&SuccessiveChapters {
            prev: None,
            next: Some(chapter_1.clone()),
        }),
        boundaries.get(&Timestamp::new(0)),
    );
    assert_eq!(
        Some(&SuccessiveChapters {
            prev: Some(chapter_1.clone()),
            next: Some(chapter_r2.clone()),
        }),
        boundaries.get(&Timestamp::new(1)),
    );
    assert_eq!(
        Some(&SuccessiveChapters {
            prev: Some(chapter_r2.clone()),
            next: Some(chapter_3.clone()),
        }),
        boundaries.get(&Timestamp::new(2)),
    );
    assert_eq!(
        Some(&SuccessiveChapters {
            prev: Some(chapter_3.clone()),
            next: None,
        }),
        boundaries.get(&Timestamp::new(4)),
    );

    let chapter_r1 = new_chapter(&mut store, "r1", ChapterTimestamps::new_from_u64(0, 1));
    boundaries.rename_chapter(chapter_r1.ts, &chapter_r1.title);
    assert_eq!(4, boundaries.len());
    assert_eq!(
        Some(&SuccessiveChapters {
            prev: None,
            next: Some(chapter_r1.clone()),
        }),
        boundaries.get(&Timestamp::new(0)),
    );
    assert_eq!(
        Some(&SuccessiveChapters {
            prev: Some(chapter_r1.clone()),
            next: Some(chapter_r2.clone()),
        }),
        boundaries.get(&Timestamp::new(1)),
    );
    assert_eq!(
        Some(&SuccessiveChapters {
            prev: Some(chapter_r2.clone()),
            next: Some(chapter_3.clone()),
        }),
        boundaries.get(&Timestamp::new(2)),
    );
    assert_eq!(
        Some(&SuccessiveChapters {
            prev: Some(chapter_3.clone()),
            next: None,
        }),
        boundaries.get(&Timestamp::new(4)),
    );

    let chapter_r3 = new_chapter(&mut store, "r3", ChapterTimestamps::new_from_u64(2, 4));
    boundaries.rename_chapter(chapter_r3.ts, &chapter_r3.title);
    assert_eq!(4, boundaries.len());
    assert_eq!(
        Some(&SuccessiveChapters {
            prev: None,
            next: Some(chapter_r1.clone()),
        }),
        boundaries.get(&Timestamp::new(0)),
    );
    assert_eq!(
        Some(&SuccessiveChapters {
            prev: Some(chapter_r1.clone()),
            next: Some(chapter_r2.clone()),
        }),
        boundaries.get(&Timestamp::new(1)),
    );
    assert_eq!(
        Some(&SuccessiveChapters {
            prev: Some(chapter_r2.clone()),
            next: Some(chapter_r3.clone()),
        }),
        boundaries.get(&Timestamp::new(2)),
    );
    assert_eq!(
        Some(&SuccessiveChapters {
            prev: Some(chapter_r3.clone()),
            next: None,
        }),
        boundaries.get(&Timestamp::new(4)),
    );

    // Remove in the middle
    boundaries.remove_chapter(ChapterTimestamps::new_from_u64(1, 2));
    assert_eq!(3, boundaries.len());
    assert_eq!(
        Some(&SuccessiveChapters {
            prev: None,
            next: Some(chapter_r1.clone()),
        }),
        boundaries.get(&Timestamp::new(0)),
    );
    assert_eq!(
        Some(&SuccessiveChapters {
            prev: Some(chapter_r1.clone()),
            next: Some(chapter_r3.clone()),
        }),
        boundaries.get(&Timestamp::new(2)),
    );
    assert_eq!(
        Some(&SuccessiveChapters {
            prev: Some(chapter_r3.clone()),
            next: None,
        }),
        boundaries.get(&Timestamp::new(4)),
    );

    // Add in the middle
    let chapter_n2 = new_chapter(&mut store, "n2", ChapterTimestamps::new_from_u64(1, 2));
    boundaries.add_chapter(chapter_n2.ts, &chapter_n2.title, &chapter_n2.iter);
    assert_eq!(4, boundaries.len());
    assert_eq!(
        Some(&SuccessiveChapters {
            prev: None,
            next: Some(chapter_r1.clone()),
        }),
        boundaries.get(&Timestamp::new(0)),
    );
    assert_eq!(
        Some(&SuccessiveChapters {
            prev: Some(chapter_r1.clone()),
            next: Some(chapter_n2.clone()),
        }),
        boundaries.get(&Timestamp::new(1)),
    );
    assert_eq!(
        Some(&SuccessiveChapters {
            prev: Some(chapter_n2.clone()),
            next: Some(chapter_r3.clone()),
        }),
        boundaries.get(&Timestamp::new(2)),
    );
    assert_eq!(
        Some(&SuccessiveChapters {
            prev: Some(chapter_r3.clone()),
            next: None,
        }),
        boundaries.get(&Timestamp::new(4)),
    );

    // Remove first
    boundaries.remove_chapter(ChapterTimestamps::new_from_u64(0, 1));
    assert_eq!(3, boundaries.len());
    assert_eq!(
        Some(&SuccessiveChapters {
            prev: None,
            next: Some(chapter_n2.clone()),
        }),
        boundaries.get(&Timestamp::new(1)),
    );
    assert_eq!(
        Some(&SuccessiveChapters {
            prev: Some(chapter_n2.clone()),
            next: Some(chapter_r3.clone()),
        }),
        boundaries.get(&Timestamp::new(2)),
    );
    assert_eq!(
        Some(&SuccessiveChapters {
            prev: Some(chapter_r3.clone()),
            next: None,
        }),
        boundaries.get(&Timestamp::new(4)),
    );

    // Add first
    let chapter_n1 = new_chapter(&mut store, "n1", ChapterTimestamps::new_from_u64(0, 1));
    boundaries.add_chapter(chapter_n1.ts, &chapter_n1.title, &chapter_n1.iter);
    assert_eq!(4, boundaries.len());
    assert_eq!(
        Some(&SuccessiveChapters {
            prev: None,
            next: Some(chapter_n1.clone()),
        }),
        boundaries.get(&Timestamp::new(0)),
    );
    assert_eq!(
        Some(&SuccessiveChapters {
            prev: Some(chapter_n1.clone()),
            next: Some(chapter_n2.clone()),
        }),
        boundaries.get(&Timestamp::new(1)),
    );
    assert_eq!(
        Some(&SuccessiveChapters {
            prev: Some(chapter_n2.clone()),
            next: Some(chapter_r3.clone()),
        }),
        boundaries.get(&Timestamp::new(2)),
    );
    assert_eq!(
        Some(&SuccessiveChapters {
            prev: Some(chapter_r3.clone()),
            next: None,
        }),
        boundaries.get(&Timestamp::new(4)),
    );

    // Remove last
    boundaries.remove_chapter(ChapterTimestamps::new_from_u64(2, 4));
    assert_eq!(3, boundaries.len());
    assert_eq!(
        Some(&SuccessiveChapters {
            prev: None,
            next: Some(chapter_n1.clone()),
        }),
        boundaries.get(&Timestamp::new(0)),
    );
    assert_eq!(
        Some(&SuccessiveChapters {
            prev: Some(chapter_n1.clone()),
            next: Some(chapter_n2.clone()),
        }),
        boundaries.get(&Timestamp::new(1)),
    );
    assert_eq!(
        Some(&SuccessiveChapters {
            prev: Some(chapter_n2.clone()),
            next: None,
        }),
        boundaries.get(&Timestamp::new(4)),
    );
}
