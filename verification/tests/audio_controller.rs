use media_toc::audio::{
    boundary_at, boundary_tolerance, play_range_end, AudioController, AudioState,
    TickCallbackChange, INIT_REQ_DURATION_FOR_1000PX, MAX_REQ_DURATION_FOR_1000PX,
    MIN_RANGE_DURATION, MIN_REQ_DURATION_FOR_1000PX, OTHER_UI_REFRESH_PERIOD,
};
use media_toc::chapters_boundaries::{ChapterTimestamps, ChaptersBoundaries, RowId};
use media_toc::timestamp::Timestamp;
use media_toc::ui_event::{MainEvent, PlaybackEvent, SeekFlag, UIEvent, UIEventChannel};

fn paused() -> AudioController {
    let mut ctrl = AudioController::new();
    assert!(ctrl.new_media(true));
    assert_eq!(AudioState::Paused, ctrl.state);
    ctrl
}

fn boundaries_at(starts: &[u64], end: u64) -> ChaptersBoundaries {
    let mut boundaries = ChaptersBoundaries::new();
    for (i, start) in starts.iter().enumerate() {
        let stop = starts.get(i + 1).copied().unwrap_or(end);
        boundaries.add_chapter(
            ChapterTimestamps::new_from_u64(*start, stop),
            "chapter",
            &RowId(i as u64),
        );
    }
    boundaries
}

#[test]
fn new_controller_is_disabled_with_initial_zoom() {
    let ctrl = AudioController::new();
    assert_eq!(AudioState::Disabled, ctrl.state);
    assert_eq!(INIT_REQ_DURATION_FOR_1000PX, ctrl.requested_duration);
    assert_eq!(2_000_000_000, ctrl.seek_step);
    assert!(!ctrl.tick_registered);
}

#[test]
fn new_media_requests_update_once() {
    let mut ctrl = AudioController::new();
    assert!(ctrl.new_media(true));
    assert!(ctrl.pending_update_conditions);
    // already pending: no second request
    assert!(!ctrl.update_conditions_async());
    // dimensions received: no longer pending
    assert!(ctrl.update_conditions(true));
    assert!(!ctrl.pending_update_conditions);

    let mut no_audio = AudioController::new();
    assert!(!no_audio.new_media(false));
    assert_eq!(AudioState::Disabled, no_audio.state);
    assert!(!no_audio.update_conditions(false));
}

#[test]
fn play_then_pause_restores_state() {
    let mut ctrl = paused();
    assert_eq!(TickCallbackChange::Register, ctrl.play());
    assert_eq!(AudioState::Playing, ctrl.state);
    assert!(ctrl.tick_registered);
    assert_eq!(Some(TickCallbackChange::Remove), ctrl.pause());
    assert_eq!(AudioState::Paused, ctrl.state);
    assert!(!ctrl.tick_registered);
    // nothing to pause
    assert_eq!(None, ctrl.pause());
    assert_eq!(AudioState::Paused, ctrl.state);
}

#[test]
fn play_range_cycle() {
    let mut ctrl = paused();
    assert_eq!(TickCallbackChange::Register, ctrl.start_play_range());
    assert_eq!(AudioState::PlayingRange, ctrl.state);
    assert_eq!(TickCallbackChange::Unchanged, ctrl.start_play_range());
    assert_eq!(Some(TickCallbackChange::Remove), ctrl.pause());
    assert_eq!(AudioState::PausedPlayingRange, ctrl.state);
    assert_eq!(TickCallbackChange::Register, ctrl.play());
    assert_eq!(AudioState::PlayingRange, ctrl.state);
    assert_eq!(TickCallbackChange::Remove, ctrl.stop_play_range());
    assert_eq!(AudioState::Paused, ctrl.state);
}

#[test]
fn zoom_limits() {
    let mut ctrl = paused();
    assert!(ctrl.zoom_in());
    assert_eq!(2_000_000_000, ctrl.requested_duration);
    assert_eq!(1_000_000_000, ctrl.seek_step);
    assert!(ctrl.zoom_out());
    assert_eq!(INIT_REQ_DURATION_FOR_1000PX, ctrl.requested_duration);

    for _ in 0..20 {
        ctrl.zoom_in();
    }
    assert_eq!(MIN_REQ_DURATION_FOR_1000PX, ctrl.requested_duration);
    assert!(!ctrl.zoom_in());
    assert_eq!(MIN_REQ_DURATION_FOR_1000PX / 2, ctrl.seek_step);

    for _ in 0..20 {
        ctrl.zoom_out();
    }
    assert_eq!(MAX_REQ_DURATION_FOR_1000PX, ctrl.requested_duration);
    assert!(!ctrl.zoom_out());
}

#[test]
fn zoom_in_then_out_restores_duration() {
    let mut ctrl = paused();
    ctrl.zoom_out();
    let before = ctrl.requested_duration;
    ctrl.zoom_in();
    ctrl.zoom_out();
    assert_eq!(before, ctrl.requested_duration);
}

#[test]
fn disabled_area_needs_no_update() {
    let mut ctrl = AudioController::new();
    assert!(!ctrl.zoom_in());
    assert_eq!(2_000_000_000, ctrl.requested_duration);
}

#[test]
fn cleanup_resets() {
    let mut ctrl = paused();
    ctrl.play();
    ctrl.zoom_in();
    ctrl.cleanup();
    assert_eq!(AudioState::Disabled, ctrl.state);
    assert_eq!(INIT_REQ_DURATION_FOR_1000PX, ctrl.requested_duration);
    assert!(ctrl.tick_registered);
}

#[test]
fn tick_redraws_while_playing() {
    let mut ctrl = paused();
    assert!(!ctrl.tick(true));
    ctrl.play();
    assert!(ctrl.tick(true));
    assert!(!ctrl.tick(false));
}

#[test]
fn tolerance() {
    assert_eq!(1, boundary_tolerance(1_000, false, 0));
    assert_eq!(2 * 1_000 * 3, boundary_tolerance(1_000, true, 3));
}

#[test]
fn boundary_lookup() {
    let boundaries = boundaries_at(&[0, 1_000, 2_000], 3_000);
    assert_eq!(None, boundary_at(&boundaries, None, 100));
    assert_eq!(
        Some(Timestamp::new(1_000)),
        boundary_at(&boundaries, Some(Timestamp::new(950)), 100)
    );
    assert_eq!(None, boundary_at(&boundaries, Some(Timestamp::new(500)), 100));
    // near 0: the lower bound does not go below 0
    assert_eq!(
        Some(Timestamp::new(0)),
        boundary_at(&boundaries, Some(Timestamp::new(50)), 100)
    );
    // the first boundary within the tolerance
    assert_eq!(
        Some(Timestamp::new(1_000)),
        boundary_at(&boundaries, Some(Timestamp::new(1_500)), 600)
    );
}

#[test]
fn hover_grab_move_and_drop_boundary() {
    let boundaries = boundaries_at(&[0, 1_000], 2_000);
    let mut channel = UIEventChannel::new();
    let mut ctrl = paused();

    // hovering a boundary
    assert_eq!(
        None,
        ctrl.motion_notify(&mut channel, &boundaries, Some(Timestamp::new(990)), 20)
    );
    assert_eq!(
        AudioState::CursorAboveBoundary(Timestamp::new(1_000)),
        ctrl.state
    );
    assert!(matches!(
        channel.receive(),
        Some(UIEvent::Main(MainEvent::SetCursorDoubleArrow))
    ));

    // grabbing it
    ctrl.button_pressed(&mut channel, 1, Some(Timestamp::new(990)));
    assert_eq!(AudioState::MovingBoundary(Timestamp::new(1_000)), ctrl.state);
    assert!(channel.receive().is_none());

    // moving it
    assert_eq!(
        Some((Timestamp::new(1_000), Timestamp::new(1_200))),
        ctrl.motion_notify(&mut channel, &boundaries, Some(Timestamp::new(1_200)), 20)
    );

    // dropping it
    ctrl.button_released(1);
    assert_eq!(
        AudioState::CursorAboveBoundary(Timestamp::new(1_000)),
        ctrl.state
    );

    // leaving the boundary
    assert_eq!(
        None,
        ctrl.motion_notify(&mut channel, &boundaries, Some(Timestamp::new(1_500)), 20)
    );
    assert_eq!(AudioState::Paused, ctrl.state);
    assert!(matches!(
        channel.receive(),
        Some(UIEvent::Main(MainEvent::ResetCursor))
    ));
}

#[test]
fn leaving_area_releases_boundary() {
    let boundaries = boundaries_at(&[0, 1_000], 2_000);
    let mut channel = UIEventChannel::new();
    let mut ctrl = paused();
    ctrl.motion_notify(&mut channel, &boundaries, Some(Timestamp::new(1_000)), 20);
    channel.receive();
    ctrl.leave_drawing_area(&mut channel);
    assert_eq!(AudioState::Paused, ctrl.state);
    assert!(matches!(
        channel.receive(),
        Some(UIEvent::Main(MainEvent::ResetCursor))
    ));
    // nothing to release
    ctrl.leave_drawing_area(&mut channel);
    assert!(channel.receive().is_none());
}

#[test]
fn buttons_seek_and_play_range() {
    let mut channel = UIEventChannel::new();
    let mut ctrl = paused();
    ctrl.button_pressed(&mut channel, 1, Some(Timestamp::new(300)));
    match channel.receive() {
        Some(UIEvent::Playback(event)) => assert_eq!(
            PlaybackEvent::Seek(Timestamp::new(300), SeekFlag::Accurate),
            event
        ),
        other => panic!("unexpected {:?}", other),
    }
    ctrl.button_pressed(&mut channel, 3, Some(Timestamp::new(400)));
    match channel.receive() {
        Some(UIEvent::Playback(event)) => {
            assert_eq!(PlaybackEvent::PlayRange(Timestamp::new(400)), event)
        }
        other => panic!("unexpected {:?}", other),
    }
    // outside the waveform or another button: nothing
    ctrl.button_pressed(&mut channel, 1, None);
    ctrl.button_pressed(&mut channel, 2, Some(Timestamp::new(400)));
    assert!(channel.receive().is_none());
    assert_eq!(AudioState::Paused, ctrl.state);
}

#[test]
fn step_targets() {
    let ctrl = paused();
    assert_eq!(2_000_000_000, ctrl.seek_step);
    assert_eq!(
        Timestamp::new(1_000_000_000),
        ctrl.step_back_target(Timestamp::new(3_000_000_000))
    );
    assert_eq!(Timestamp::new(0), ctrl.step_back_target(Timestamp::new(1_000)));
    assert_eq!(
        Timestamp::new(5_000_000_000),
        ctrl.step_forward_target(Timestamp::new(3_000_000_000))
    );
}

#[test]
fn seek_returns_to_playback_state() {
    let mut ctrl = paused();
    assert_eq!(TickCallbackChange::Unchanged, ctrl.seek());
    assert_eq!(AudioState::SeekingPaused, ctrl.state);
    assert!(ctrl.seek_done());
    assert_eq!(AudioState::Paused, ctrl.state);

    ctrl.play();
    ctrl.seek();
    assert_eq!(AudioState::SeekingPlaying, ctrl.state);
    assert!(!ctrl.seek_done());
    assert_eq!(AudioState::Playing, ctrl.state);

    // a range which played is not resumed
    ctrl.pause();
    ctrl.start_play_range();
    assert_eq!(TickCallbackChange::Remove, ctrl.seek());
    assert_eq!(AudioState::SeekingPaused, ctrl.state);
    assert!(ctrl.seek_done());
    assert_eq!(AudioState::Paused, ctrl.state);
}

#[test]
fn range_end() {
    assert_eq!(
        Timestamp::new(5_000_000_000),
        play_range_end(Timestamp::new(1_000_000_000), Timestamp::new(5_000_000_000))
    );
    assert_eq!(
        Timestamp::new(1_000_000_000 + MIN_RANGE_DURATION),
        play_range_end(Timestamp::new(1_000_000_000), Timestamp::new(1_050_000_000))
    );
}

#[test]
fn cursor_reports_throttled_while_playing() {
    let mut ctrl = paused();
    // paused: every position is reported
    assert_eq!(Some(Timestamp::new(10)), ctrl.cursor_report(Some(Timestamp::new(10))));
    assert_eq!(Some(Timestamp::new(20)), ctrl.cursor_report(Some(Timestamp::new(20))));
    assert_eq!(None, ctrl.cursor_report(None));
    ctrl.play();
    // within the period after the last report: not reported
    assert_eq!(
        None,
        ctrl.cursor_report(Some(Timestamp::new(20 + OTHER_UI_REFRESH_PERIOD)))
    );
    assert_eq!(
        Some(Timestamp::new(21 + OTHER_UI_REFRESH_PERIOD)),
        ctrl.cursor_report(Some(Timestamp::new(21 + OTHER_UI_REFRESH_PERIOD)))
    );
    assert_eq!(Timestamp::new(21 + OTHER_UI_REFRESH_PERIOD), ctrl.last_other_ui_refresh);
    // going back before the last report: reported
    assert_eq!(Some(Timestamp::new(5)), ctrl.cursor_report(Some(Timestamp::new(5))));
    // disabled: nothing is reported
    ctrl.cleanup();
    assert_eq!(None, ctrl.cursor_report(Some(Timestamp::new(5))));
    assert_eq!(Timestamp::new(0), ctrl.last_other_ui_refresh);
}
