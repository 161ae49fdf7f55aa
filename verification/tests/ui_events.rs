use media_toc::audio;
use media_toc::info;
use media_toc::info_bar;
use media_toc::main_panel;
use media_toc::playback;
use media_toc::timestamp::Timestamp;
use media_toc::ui_event::{
    AudioEvent, InfoBarEvent, InfoEvent, MainEvent, PlaybackEvent, SeekFlag, UIEvent,
    UIEventChannel, UIFocusContext,
};

#[test]
fn empty_channel_hands_out_nothing() {
    let mut channel = UIEventChannel::new();
    assert_eq!(0, channel.len());
    assert!(channel.receive().is_none());
}

#[test]
fn events_are_delivered_in_order() {
    let mut channel = UIEventChannel::new();
    audio::tick(&mut channel);
    main_panel::quit(&mut channel);
    assert_eq!(2, channel.len());
    assert!(matches!(
        channel.receive(),
        Some(UIEvent::Audio(AudioEvent::Tick))
    ));
    assert!(matches!(
        channel.receive(),
        Some(UIEvent::Main(MainEvent::Quit))
    ));
    assert!(channel.receive().is_none());
    assert_eq!(0, channel.len());
}

#[test]
fn audio_events() {
    let mut channel = UIEventChannel::new();
    audio::refresh(&mut channel);
    audio::step_back(&mut channel);
    audio::step_forward(&mut channel);
    audio::tick(&mut channel);
    audio::zoom_in(&mut channel);
    audio::zoom_out(&mut channel);
    for expected in [
        AudioEvent::Refresh,
        AudioEvent::StepBack,
        AudioEvent::StepForward,
        AudioEvent::Tick,
        AudioEvent::ZoomIn,
        AudioEvent::ZoomOut,
    ] {
        match channel.receive() {
            Some(UIEvent::Audio(event)) => assert_eq!(expected, event),
            other => panic!("unexpected {:?}", other),
        }
    }
    assert!(channel.receive().is_none());
}

#[test]
fn info_events() {
    let mut channel = UIEventChannel::new();
    info::add_chapter(&mut channel);
    info::chapter_clicked(&mut channel, 3);
    info::refresh(&mut channel, Timestamp::new(42));
    info::rename_chapter(&mut channel, "Intro");
    info::remove_chapter(&mut channel);
    info::toggle_chapter_list(&mut channel, true);
    info::toggle_repeat(&mut channel, false);

    assert!(matches!(
        channel.receive(),
        Some(UIEvent::Info(InfoEvent::AddChapter))
    ));
    assert!(matches!(
        channel.receive(),
        Some(UIEvent::Info(InfoEvent::ChapterClicked(3)))
    ));
    match channel.receive() {
        Some(UIEvent::Info(InfoEvent::Refresh(ts))) => assert_eq!(Timestamp::new(42), ts),
        other => panic!("unexpected {:?}", other),
    }
    match channel.receive() {
        Some(UIEvent::Info(InfoEvent::RenameChapter(title))) => assert_eq!("Intro", title),
        other => panic!("unexpected {:?}", other),
    }
    assert!(matches!(
        channel.receive(),
        Some(UIEvent::Info(InfoEvent::RemoveChapter))
    ));
    assert!(matches!(
        channel.receive(),
        Some(UIEvent::Info(InfoEvent::ToggleChapterList(true)))
    ));
    assert!(matches!(
        channel.receive(),
        Some(UIEvent::Info(InfoEvent::ToggleRepeat(false)))
    ));
    assert!(channel.receive().is_none());
}

#[test]
fn info_bar_events() {
    let mut channel = UIEventChannel::new();
    info_bar::ask_question(&mut channel, "Overwrite?");
    info_bar::hide_info_bar(&mut channel);
    info_bar::show_error(&mut channel, "failed");
    info_bar::show_info(&mut channel, "done");

    match channel.receive() {
        Some(UIEvent::InfoBar(InfoBarEvent::AskQuestion { question })) => {
            assert_eq!("Overwrite?", question)
        }
        other => panic!("unexpected {:?}", other),
    }
    assert!(matches!(
        channel.receive(),
        Some(UIEvent::InfoBar(InfoBarEvent::Hide))
    ));
    match channel.receive() {
        Some(UIEvent::InfoBar(InfoBarEvent::ShowError(msg))) => assert_eq!("failed", msg),
        other => panic!("unexpected {:?}", other),
    }
    match channel.receive() {
        Some(UIEvent::InfoBar(InfoBarEvent::ShowInfo(msg))) => assert_eq!("done", msg),
        other => panic!("unexpected {:?}", other),
    }
}

#[test]
fn main_events() {
    let mut channel = UIEventChannel::new();
    main_panel::about(&mut channel);
    main_panel::cancel_select_media(&mut channel);
    main_panel::open_media(&mut channel, "/tmp/media.mkv");
    main_panel::quit(&mut channel);
    main_panel::reset_cursor(&mut channel);
    main_panel::restore_context(&mut channel);
    main_panel::select_media(&mut channel);
    main_panel::set_cursor_double_arrow(&mut channel);
    main_panel::set_cursor_waiting(&mut channel);
    main_panel::show_all(&mut channel);
    main_panel::switch_to(&mut channel, UIFocusContext::ExportPage);
    main_panel::temporarily_switch_to(&mut channel, UIFocusContext::InfoBar);
    main_panel::update_focus(&mut channel);

    assert!(matches!(channel.receive(), Some(UIEvent::Main(MainEvent::About))));
    assert!(matches!(
        channel.receive(),
        Some(UIEvent::Main(MainEvent::CancelSelectMedia))
    ));
    match channel.receive() {
        Some(UIEvent::Main(MainEvent::OpenMedia(path))) => assert_eq!("/tmp/media.mkv", path),
        other => panic!("unexpected {:?}", other),
    }
    assert!(matches!(channel.receive(), Some(UIEvent::Main(MainEvent::Quit))));
    assert!(matches!(
        channel.receive(),
        Some(UIEvent::Main(MainEvent::ResetCursor))
    ));
    assert!(matches!(
        channel.receive(),
        Some(UIEvent::Main(MainEvent::RestoreContext))
    ));
    assert!(matches!(
        channel.receive(),
        Some(UIEvent::Main(MainEvent::SelectMedia))
    ));
    assert!(matches!(
        channel.receive(),
        Some(UIEvent::Main(MainEvent::SetCursorDoubleArrow))
    ));
    assert!(matches!(
        channel.receive(),
        Some(UIEvent::Main(MainEvent::SetCursorWaiting))
    ));
    assert!(matches!(channel.receive(), Some(UIEvent::Main(MainEvent::ShowAll))));
    assert!(matches!(
        channel.receive(),
        Some(UIEvent::Main(MainEvent::SwitchTo(UIFocusContext::ExportPage)))
    ));
    assert!(matches!(
        channel.receive(),
        Some(UIEvent::Main(MainEvent::TemporarilySwitchTo(
            UIFocusContext::InfoBar
        )))
    ));
    assert!(matches!(
        channel.receive(),
        Some(UIEvent::Main(MainEvent::UpdateFocus))
    ));
    assert!(channel.receive().is_none());
}

#[test]
fn playback_events() {
    let mut channel = UIEventChannel::new();
    playback::seek(&mut channel, Timestamp::new(5), SeekFlag::KeyUnit);
    playback::play_range(&mut channel, Timestamp::new(7));
    playback::next_chapter(&mut channel);
    playback::previous_chapter(&mut channel);
    playback::eos(&mut channel);
    playback::play_range_done(&mut channel);
    for expected in [
        PlaybackEvent::Seek(Timestamp::new(5), SeekFlag::KeyUnit),
        PlaybackEvent::PlayRange(Timestamp::new(7)),
        PlaybackEvent::NextChapter,
        PlaybackEvent::PreviousChapter,
        PlaybackEvent::Eos,
        PlaybackEvent::PlayRangeDone,
    ] {
        match channel.receive() {
            Some(UIEvent::Playback(event)) => assert_eq!(expected, event),
            other => panic!("unexpected {:?}", other),
        }
    }
}
