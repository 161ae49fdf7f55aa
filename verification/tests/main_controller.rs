use media_toc::main_panel::{
    first_ts_for_paused_seek, MainAction, MainController, MainState, MediaEvent, PlayPauseIcon,
    PlaybackState, WaveformLimits,
};
use media_toc::timestamp::Timestamp;
use media_toc::ui_event::{InfoBarEvent, MainEvent, SeekFlag, UIEvent, UIEventChannel};

fn limits() -> WaveformLimits {
    WaveformLimits {
        lower: Timestamp::new(10_000),
        upper: Timestamp::new(20_000),
        half_window: 1_000,
        queue_duration: 5_000,
    }
}

fn opened(channel: &mut UIEventChannel) -> MainController {
    let mut ctrl = MainController::new();
    let actions = ctrl.close_media();
    assert!(matches!(actions.as_slice(), [MainAction::CleanupAll]));
    assert!(ctrl.media_opened(channel, Ok(())).is_empty());
    assert!(ctrl.has_pipeline);
    let actions = ctrl.handle_media_event(channel, MediaEvent::InitDone, &limits());
    assert!(matches!(
        actions.as_slice(),
        [
            MainAction::NewMedia,
            MainAction::StreamsSelected,
            MainAction::AudioPause
        ]
    ));
    assert_eq!(MainState::Paused, ctrl.state);
    assert!(matches!(
        channel.receive(),
        Some(UIEvent::Main(MainEvent::ResetCursor))
    ));
    ctrl
}

#[test]
fn first_step_of_paused_seek() {
    let limits = limits();
    // close to the start: from the start
    assert_eq!(
        Some(Timestamp::new(0)),
        first_ts_for_paused_seek(Timestamp::new(500), &limits)
    );
    // before what the waveform holds: step back first
    assert_eq!(
        Some(Timestamp::new(9_000)),
        first_ts_for_paused_seek(Timestamp::new(10_000), &limits)
    );
    // after what it holds
    assert_eq!(
        Some(Timestamp::new(29_000)),
        first_ts_for_paused_seek(Timestamp::new(30_000), &limits)
    );
    // already held: one step only
    assert_eq!(None, first_ts_for_paused_seek(Timestamp::new(15_000), &limits));
    // the step back is bounded by the queues
    let short_queues = WaveformLimits {
        queue_duration: 200,
        ..limits
    };
    assert_eq!(
        Some(Timestamp::new(29_800)),
        first_ts_for_paused_seek(Timestamp::new(30_000), &short_queues)
    );
}

#[test]
fn play_pause_without_media_selects_one() {
    let mut channel = UIEventChannel::new();
    let mut ctrl = MainController::new();
    let actions = ctrl.play_pause(&mut channel, &limits());
    assert!(matches!(actions.as_slice(), [MainAction::ShowFileDialog]));
    assert_eq!(MainState::PendingSelectMediaDecision, ctrl.state);
    assert!(matches!(
        channel.receive(),
        Some(UIEvent::InfoBar(InfoBarEvent::Hide))
    ));
    ctrl.cancel_select_media();
    assert_eq!(MainState::Stopped, ctrl.state);
}

#[test]
fn play_pause_twice_restores_state() {
    let mut channel = UIEventChannel::new();
    let mut ctrl = opened(&mut channel);
    let actions = ctrl.play_pause(&mut channel, &limits());
    assert!(matches!(
        actions.as_slice(),
        [
            MainAction::SetIcon(PlayPauseIcon::Pause),
            MainAction::AudioPlay,
            MainAction::PipelinePlay
        ]
    ));
    assert_eq!(MainState::Playing, ctrl.state);
    let actions = ctrl.play_pause(&mut channel, &limits());
    assert!(matches!(
        actions.as_slice(),
        [
            MainAction::SetIcon(PlayPauseIcon::Playback),
            MainAction::AudioPause,
            MainAction::PipelinePause
        ]
    ));
    assert_eq!(MainState::Paused, ctrl.state);
}

#[test]
fn seek_while_playing_completes() {
    let mut channel = UIEventChannel::new();
    let mut ctrl = opened(&mut channel);
    ctrl.play_pause(&mut channel, &limits());
    let actions = ctrl.seek(Timestamp::new(12_345), SeekFlag::KeyUnit, &limits());
    assert!(matches!(
        actions.as_slice(),
        [
            MainAction::AudioSeek,
            MainAction::PipelineSeek(Timestamp(12_345), SeekFlag::KeyUnit)
        ]
    ));
    assert_eq!(MainState::Seeking(Timestamp::new(12_345)), ctrl.state);
    let actions = ctrl.handle_media_event(
        &mut channel,
        MediaEvent::AsyncDone(PlaybackState::Playing),
        &limits(),
    );
    assert!(matches!(
        actions.as_slice(),
        [MainAction::SeekDone(Timestamp(12_345))]
    ));
    assert_eq!(MainState::Playing, ctrl.state);
}

#[test]
fn seek_while_paused_takes_two_steps() {
    let mut channel = UIEventChannel::new();
    let mut ctrl = opened(&mut channel);
    let actions = ctrl.seek(Timestamp::new(30_000), SeekFlag::KeyUnit, &limits());
    assert!(matches!(
        actions.as_slice(),
        [
            MainAction::AudioSeek,
            MainAction::PipelineSeek(Timestamp(29_000), SeekFlag::Accurate)
        ]
    ));
    assert_eq!(MainState::TwoStepsSeek(Timestamp::new(30_000)), ctrl.state);
    let actions = ctrl.handle_media_event(&mut channel, MediaEvent::ReadyToRefresh, &limits());
    assert!(matches!(
        actions.as_slice(),
        [MainAction::PipelineSeek(Timestamp(30_000), SeekFlag::Accurate)]
    ));
    let actions = ctrl.handle_media_event(
        &mut channel,
        MediaEvent::AsyncDone(PlaybackState::Paused),
        &limits(),
    );
    assert!(matches!(
        actions.as_slice(),
        [MainAction::SeekDone(Timestamp(30_000))]
    ));
    assert_eq!(MainState::Paused, ctrl.state);
}

#[test]
fn play_range_restores_position() {
    let mut channel = UIEventChannel::new();
    let mut ctrl = opened(&mut channel);
    let actions = ctrl.play_range(Timestamp::new(100), Timestamp::new(200), Timestamp::new(150));
    assert!(matches!(
        actions.as_slice(),
        [
            MainAction::SetIcon(PlayPauseIcon::Pause),
            MainAction::AudioStartPlayRange(Timestamp(150)),
            MainAction::PipelineSeekRange(Timestamp(100), Timestamp(200))
        ]
    ));
    assert_eq!(MainState::PlayingRange(Timestamp::new(150)), ctrl.state);
    let actions = ctrl.handle_media_event(&mut channel, MediaEvent::Eos, &limits());
    assert!(matches!(actions.as_slice(), [MainAction::PipelinePause]));
    assert_eq!(MainState::CompletePlayRange(Timestamp::new(150)), ctrl.state);
    let actions = ctrl.handle_media_event(&mut channel, MediaEvent::ReadyToRefresh, &limits());
    assert!(matches!(
        actions.as_slice(),
        [MainAction::PipelineSeek(Timestamp(150), SeekFlag::Accurate)]
    ));
    let actions = ctrl.handle_media_event(
        &mut channel,
        MediaEvent::AsyncDone(PlaybackState::Paused),
        &limits(),
    );
    assert!(matches!(
        actions.as_slice(),
        [
            MainAction::SetIcon(PlayPauseIcon::Playback),
            MainAction::AudioStopPlayRange
        ]
    ));
    assert_eq!(MainState::Paused, ctrl.state);
}

#[test]
fn eos_then_play_restarts() {
    let mut channel = UIEventChannel::new();
    let mut ctrl = opened(&mut channel);
    ctrl.play_pause(&mut channel, &limits());
    let actions = ctrl.handle_media_event(&mut channel, MediaEvent::Eos, &limits());
    assert!(matches!(
        actions.as_slice(),
        [
            MainAction::SetIcon(PlayPauseIcon::Playback),
            MainAction::AudioPause
        ]
    ));
    assert_eq!(MainState::EOS, ctrl.state);
    let actions = ctrl.play_pause(&mut channel, &limits());
    assert!(matches!(
        actions.as_slice(),
        [
            MainAction::AudioPlay,
            MainAction::AudioSeek,
            MainAction::PipelineSeek(Timestamp(0), SeekFlag::Accurate)
        ]
    ));
    assert_eq!(MainState::Seeking(Timestamp::new(0)), ctrl.state);
}

#[test]
fn missing_plugins_are_reported_once_each() {
    let mut channel = UIEventChannel::new();
    let mut ctrl = MainController::new();
    ctrl.media_opened(&mut channel, Ok(()));
    for plugin in ["a52dec", "x264", "a52dec"] {
        let actions = ctrl.handle_media_event(
            &mut channel,
            MediaEvent::MissingPlugin(plugin.to_owned()),
            &limits(),
        );
        assert!(actions.is_empty());
    }
    match ctrl.missing_plugins_report() {
        Some((list, count)) => {
            assert_eq!("a52dec, x264", list);
            assert_eq!(2, count);
        }
        None => panic!("missing plugins not reported"),
    }
    let actions = ctrl.handle_media_event(&mut channel, MediaEvent::InitDone, &limits());
    match actions.as_slice() {
        [MainAction::NewMedia, MainAction::StreamsSelected, MainAction::ReportMissingPlugins(list, 2), MainAction::AudioPause] => {
            assert_eq!("a52dec, x264", list)
        }
        other => panic!("unexpected {:?}", other),
    }
}

#[test]
fn failed_open_is_reported() {
    let mut channel = UIEventChannel::new();
    let mut ctrl = MainController::new();
    ctrl.media_opened(&mut channel, Ok(()));
    ctrl.handle_media_event(
        &mut channel,
        MediaEvent::MissingPlugin("flac".to_owned()),
        &limits(),
    );
    let actions = ctrl.handle_media_event(
        &mut channel,
        MediaEvent::FailedToOpenMedia("bad header".to_owned()),
        &limits(),
    );
    match actions.as_slice() {
        [MainAction::DropPipeline, MainAction::ReportOpenError(error, Some((list, 1)))] => {
            assert_eq!("bad header", error);
            assert_eq!("flac", list);
        }
        other => panic!("unexpected {:?}", other),
    }
    assert_eq!(MainState::Stopped, ctrl.state);
    assert!(!ctrl.has_pipeline);
    assert!(matches!(
        channel.receive(),
        Some(UIEvent::Main(MainEvent::ResetCursor))
    ));

    let actions = ctrl.media_opened(&mut channel, Err("no such file".to_owned()));
    match actions.as_slice() {
        [MainAction::ReportOpenError(error, Some(_))] => assert_eq!("no such file", error),
        other => panic!("unexpected {:?}", other),
    }
}

#[test]
fn gl_sink_error_disables_acceleration() {
    let mut channel = UIEventChannel::new();
    let mut ctrl = MainController::new();
    ctrl.media_opened(&mut channel, Ok(()));
    let actions = ctrl.handle_media_event(&mut channel, MediaEvent::GLSinkError, &limits());
    assert!(matches!(
        actions.as_slice(),
        [MainAction::DropPipeline, MainAction::DisableGlSink]
    ));
    assert!(!ctrl.has_pipeline);
}

#[test]
fn pause_and_callback_waits_for_pause() {
    let mut channel = UIEventChannel::new();
    let mut ctrl = opened(&mut channel);
    let actions = ctrl.pause_and_callback();
    assert!(matches!(
        actions.as_slice(),
        [
            MainAction::AudioPause,
            MainAction::SetIcon(PlayPauseIcon::Playback),
            MainAction::PipelinePause,
            MainAction::RunPausedCallback
        ]
    ));
    ctrl.play_pause(&mut channel, &limits());
    let actions = ctrl.pause_and_callback();
    assert_eq!(3, actions.len());
    assert_eq!(MainState::PendingPaused, ctrl.state);
    let actions = ctrl.handle_media_event(&mut channel, MediaEvent::ReadyToRefresh, &limits());
    assert!(matches!(actions.as_slice(), [MainAction::RunPausedCallback]));
    assert_eq!(MainState::Paused, ctrl.state);
    assert!(!ctrl.has_paused_callback);
}

#[test]
fn select_media_while_playing_holds_first() {
    let mut channel = UIEventChannel::new();
    let mut ctrl = opened(&mut channel);
    ctrl.play_pause(&mut channel, &limits());
    let actions = ctrl.select_media(&mut channel);
    assert!(matches!(
        actions.as_slice(),
        [
            MainAction::AudioPause,
            MainAction::SetIcon(PlayPauseIcon::Playback),
            MainAction::PipelinePause
        ]
    ));
    assert_eq!(MainState::PendingSelectMedia, ctrl.state);
    assert!(matches!(
        channel.receive(),
        Some(UIEvent::Main(MainEvent::SetCursorWaiting))
    ));
    let actions = ctrl.handle_media_event(&mut channel, MediaEvent::ReadyToRefresh, &limits());
    assert!(matches!(actions.as_slice(), [MainAction::ShowFileDialog]));
    assert_eq!(MainState::PendingSelectMediaDecision, ctrl.state);
    ctrl.cancel_select_media();
    assert_eq!(MainState::Paused, ctrl.state);
}

#[test]
fn hold_pauses_everything() {
    let mut channel = UIEventChannel::new();
    let mut ctrl = opened(&mut channel);
    let actions = ctrl.hold(&mut channel);
    assert_eq!(3, actions.len());
    assert!(matches!(
        channel.receive(),
        Some(UIEvent::Main(MainEvent::SetCursorWaiting))
    ));
}

#[test]
fn stream_selection_waits_for_pipeline_while_playing() {
    let mut ctrl = MainController::new();
    assert!(matches!(
        ctrl.select_streams().as_slice(),
        [MainAction::StreamsSelected]
    ));
    ctrl.state = MainState::Playing;
    assert!(ctrl.select_streams().is_empty());
    ctrl.state = MainState::PlayingRange(Timestamp::new(3));
    assert!(matches!(
        ctrl.select_streams().as_slice(),
        [MainAction::StreamsSelected]
    ));
}
