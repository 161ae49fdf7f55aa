use media_toc::chapter_tree::PositionStatus;
use media_toc::info::{ChapterSelectionChange, InfoController};
use media_toc::timestamp::Timestamp;
use media_toc::ui_event::{MainEvent, PlaybackEvent, SeekFlag, UIEvent, UIEventChannel};

fn with_chapters() -> InfoController {
    let mut ctrl = InfoController::new();
    ctrl.duration = Timestamp::new(3_000_000_000);
    // chapters [0, 3s) then split at 1s and at 2s
    assert!(ctrl.add_chapter(Timestamp::new(0), "one").is_some());
    assert!(ctrl.add_chapter(Timestamp::new(1_000_000_000), "two").is_some());
    assert!(ctrl.add_chapter(Timestamp::new(2_000_000_000), "three").is_some());
    ctrl
}

#[test]
fn no_chapter_at_the_end() {
    let mut ctrl = InfoController::new();
    ctrl.duration = Timestamp::new(1_000);
    assert_eq!(None, ctrl.add_chapter(Timestamp::new(1_000), "late"));
    assert_eq!(0, ctrl.chapter_manager.iter().len());
}

#[test]
fn tick_follows_chapters() {
    let mut channel = UIEventChannel::new();
    let mut ctrl = with_chapters();
    ctrl.chapter_manager.unselect();
    ctrl.chapter_manager.tree.rewind();
    let change = ctrl.tick(&mut channel, Timestamp::new(1_500_000_000), false);
    match change {
        ChapterSelectionChange::Select(row) => {
            let selected = ctrl.chapter_manager.selected().unwrap();
            assert_eq!(row, selected.iter);
            assert_eq!("two", selected.title);
        }
        other => panic!("unexpected {:?}", other),
    }
    assert!(matches!(
        channel.receive(),
        Some(UIEvent::Main(MainEvent::UpdateFocus))
    ));
    // same chapter: nothing changes
    let change = ctrl.tick(&mut channel, Timestamp::new(1_600_000_000), false);
    assert_eq!(ChapterSelectionChange::Unchanged, change);
    assert!(channel.receive().is_none());
}

#[test]
fn repeat_loops_on_chapter() {
    let mut channel = UIEventChannel::new();
    let mut ctrl = with_chapters();
    ctrl.chapter_manager.unselect();
    ctrl.chapter_manager.tree.rewind();
    ctrl.tick(&mut channel, Timestamp::new(1_500_000_000), false);
    channel.receive();
    ctrl.repeat_chapter = true;
    // the playback reaches the next chapter: back to the start of the current one
    let change = ctrl.tick(&mut channel, Timestamp::new(2_100_000_000), false);
    assert_eq!(ChapterSelectionChange::Unchanged, change);
    assert!(ctrl.chapter_manager.selected().is_none());
    match channel.receive() {
        Some(UIEvent::Playback(event)) => assert_eq!(
            PlaybackEvent::Seek(Timestamp::new(1_000_000_000), SeekFlag::Accurate),
            event
        ),
        other => panic!("unexpected {:?}", other),
    }
    // at the end of the media: back to the start
    ctrl.tick(&mut channel, Timestamp::new(2_900_000_000), true);
    match channel.receive() {
        Some(UIEvent::Playback(event)) => assert_eq!(
            PlaybackEvent::Seek(Timestamp::new(0), SeekFlag::Accurate),
            event
        ),
        other => panic!("unexpected {:?}", other),
    }
}

#[test]
fn previous_chapter_threshold() {
    let mut ctrl = with_chapters();
    ctrl.chapter_manager.unselect();
    ctrl.chapter_manager.tree.rewind();
    let status = ctrl.chapter_manager.update_ts(Timestamp::new(1_500_000_000));
    assert!(matches!(status, PositionStatus::ChapterChanged { .. }));
    // well into the chapter: back to its start
    assert_eq!(
        Some(Timestamp::new(1_000_000_000)),
        ctrl.previous_chapter(Timestamp::new(2_500_000_000))
    );
    // just after its start: the chapter before
    assert_eq!(
        Some(Timestamp::new(0)),
        ctrl.previous_chapter(Timestamp::new(1_500_000_000))
    );
}

#[test]
fn remove_selected_chapter() {
    let mut ctrl = with_chapters();
    let before = ctrl.chapter_manager.iter().len();
    assert_eq!(3, before);
    ctrl.remove_chapter();
    assert_eq!(2, ctrl.chapter_manager.iter().len());
}
