use media_toc::chapter_tree::{ChapterTreeManager, Iter, PositionStatus, TocChapter};
use media_toc::chapters_boundaries::{ChapterTimestamps, ChaptersBoundaries, RowId};
use media_toc::timestamp::Timestamp;

fn toc() -> Option<Vec<TocChapter>> {
    Some(vec![
        TocChapter {
            times: Some((0, 10)),
            title: Some("first".to_owned()),
        },
        TocChapter {
            times: Some((10, 20)),
            title: None,
        },
    ])
}

#[test]
fn replace_with_toc() {
    let mut manager = ChapterTreeManager::new();
    manager.replace_with(&toc(), "untitled");
    let entries = manager.iter();
    assert_eq!(2, entries.len());
    assert_eq!("first", entries[0].title);
    assert_eq!("untitled", entries[1].title);
    assert_eq!(Timestamp::new(10), entries[1].start());
    assert_eq!(Timestamp::new(20), entries[1].end());
    // the boundaries follow the chapters
    assert_eq!(3, manager.boundaries.len());
    // the first chapter starts at 0: it is selected
    assert_eq!(Some(0), manager.selected_path());
}

#[test]
fn update_ts_moves_selection() {
    let mut manager = ChapterTreeManager::new();
    manager.replace_with(&toc(), "untitled");
    assert_eq!(
        PositionStatus::ChapterNotChanged,
        manager.update_ts(Timestamp::new(5))
    );
    match manager.update_ts(Timestamp::new(15)) {
        PositionStatus::ChapterChanged {
            prev_chapter: Some(prev),
        } => assert_eq!(Timestamp::new(0), prev.start),
        other => panic!("unexpected {:?}", other),
    }
    assert_eq!(Some(1), manager.selected_path());
}

#[test]
fn rename_selected_chapter() {
    let mut manager = ChapterTreeManager::new();
    manager.replace_with(&toc(), "untitled");
    manager.rename_selected("renamed");
    assert_eq!("renamed", manager.selected().unwrap().title);
    let next = manager.boundaries.get(&Timestamp::new(0)).unwrap();
    assert_eq!("renamed", next.next.as_ref().unwrap().title);
}

#[test]
fn add_then_remove_chapter() {
    let mut manager = ChapterTreeManager::new();
    let row = manager.add_chapter(Timestamp::new(0), Timestamp::new(100), "whole");
    assert!(row.is_some());
    assert_eq!(1, manager.iter().len());
    assert_eq!(Timestamp::new(100), manager.selected().unwrap().end());
    manager.remove_selected_chapter();
    assert_eq!(0, manager.iter().len());
    assert!(manager.boundaries.is_empty());
}

#[test]
fn toc_of_chapters() {
    let mut manager = ChapterTreeManager::new();
    assert!(manager.toc().is_none());
    manager.replace_with(&toc(), "untitled");
    let (entries, count) = manager.toc().unwrap();
    assert_eq!(2, count);
    assert_eq!("first", entries[0].title);
}

#[test]
fn pick_next_and_previous() {
    let mut manager = ChapterTreeManager::new();
    manager.replace_with(&toc(), "untitled");
    assert_eq!("untitled", manager.pick_next().unwrap().title);
    assert!(manager.pick_previous().is_none());
}

#[test]
fn remove_undoes_add_on_boundaries() {
    let mut boundaries = ChaptersBoundaries::new();
    let ts = ChapterTimestamps::new_from_u64(5, 8);
    boundaries.add_chapter(ts, "c", &RowId(1));
    assert_eq!(2, boundaries.len());
    boundaries.remove_chapter(ts);
    assert!(boundaries.is_empty());
}

#[test]
fn chapter_added_right_after_another_takes_over_next_start() {
    let mut boundaries = ChaptersBoundaries::new();
    boundaries.add_chapter(ChapterTimestamps::new_from_u64(0, 10), "first", &RowId(1));
    boundaries.add_chapter(ChapterTimestamps::new_from_u64(20, 30), "third", &RowId(2));
    boundaries.add_chapter(ChapterTimestamps::new_from_u64(10, 20), "second", &RowId(3));
    let at_start = boundaries.get(&Timestamp::new(10)).unwrap();
    assert_eq!("first", at_start.prev.as_ref().unwrap().title);
    assert_eq!("second", at_start.next.as_ref().unwrap().title);
    // the boundary at 20 is written anew: the chapter starting there is no longer named
    let at_end = boundaries.get(&Timestamp::new(20)).unwrap();
    assert_eq!("second", at_end.prev.as_ref().unwrap().title);
    assert!(at_end.next.is_none());
    assert_eq!(4, boundaries.len());
}

#[test]
fn move_boundary_between_chapters() {
    let mut manager = ChapterTreeManager::new();
    manager.replace_with(&toc(), "untitled");
    manager.move_chapter_boundary(Timestamp::new(10), Timestamp::new(12));
    let entries = manager.iter();
    assert_eq!(Timestamp::new(12), entries[0].end());
    assert_eq!(Timestamp::new(12), entries[1].start());
    assert!(manager.boundaries.get(&Timestamp::new(12)).is_some());
    assert!(manager.boundaries.get(&Timestamp::new(10)).is_none());
}

/// Each chapter is named at its boundaries, and each boundary is a chapter's start
/// or end.
fn assert_in_step(manager: &ChapterTreeManager) {
    let entries = manager.iter();
    for entry in entries.iter() {
        let at_start = manager.boundaries.get(&entry.start()).unwrap();
        let next = at_start.next.as_ref().unwrap();
        assert_eq!((entry.iter, entry.title.as_str()), (next.iter, next.title.as_str()));
        let at_end = manager.boundaries.get(&entry.end()).unwrap();
        let prev = at_end.prev.as_ref().unwrap();
        assert_eq!((entry.iter, entry.title.as_str()), (prev.iter, prev.title.as_str()));
    }
    for (ts, chapters) in manager.boundaries.0.iter() {
        if chapters.next.is_some() {
            assert!(entries.iter().any(|e| e.start().as_u64() == *ts));
        }
        if chapters.prev.is_some() {
            assert!(entries.iter().any(|e| e.end().as_u64() == *ts));
        }
    }
}

#[test]
fn list_and_boundaries_stay_in_step() {
    let mut manager = ChapterTreeManager::new();
    assert_in_step(&manager);
    // after the last chapter
    manager.add_chapter(Timestamp::new(0), Timestamp::new(100), "a");
    assert_in_step(&manager);
    // split the selected chapter
    manager.add_chapter(Timestamp::new(40), Timestamp::new(100), "b");
    assert_in_step(&manager);
    manager.update_ts(Timestamp::new(10));
    manager.add_chapter(Timestamp::new(20), Timestamp::new(100), "c");
    assert_in_step(&manager);
    assert_eq!(3, manager.iter().len());
    manager.rename_selected("renamed");
    assert_in_step(&manager);
    manager.remove_selected_chapter();
    assert_in_step(&manager);
    assert_eq!(2, manager.iter().len());
    manager.clear();
    assert_in_step(&manager);
}

#[test]
fn toc_and_moves_stay_in_step() {
    let mut manager = ChapterTreeManager::new();
    manager.replace_with(&toc(), "untitled");
    assert_in_step(&manager);
    manager.move_chapter_boundary(Timestamp::new(10), Timestamp::new(15));
    assert_in_step(&manager);
    manager.move_chapter_boundary(Timestamp::new(20), Timestamp::new(18));
    assert_in_step(&manager);
    manager.replace_with(&None, "untitled");
    assert_in_step(&manager);
}

#[test]
fn walk_hands_out_each_chapter_once_in_order() {
    let mut manager = ChapterTreeManager::new();
    manager.replace_with(&toc(), "untitled");
    let mut chapters = Iter::new(&manager);
    let first = chapters.next().unwrap();
    assert_eq!("first", first.title);
    assert_eq!(Timestamp::new(0), first.start());
    let second = chapters.next().unwrap();
    assert_eq!("untitled", second.title);
    assert_eq!(Timestamp::new(10), second.start());
    assert!(chapters.next().is_none());
    assert!(chapters.next().is_none());
}
