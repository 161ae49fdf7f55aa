use media_toc::generic_output::{
    ActionOutcome, OutputProcessor, OverwriteResponse, ProcessingAction, ProcessingState,
};
use media_toc::ui_event::{InfoBarEvent, MainEvent, UIEvent, UIEventChannel};

#[test]
fn every_file_produced() {
    let mut channel = UIEventChannel::new();
    let (mut processor, action) = OutputProcessor::new();
    assert!(matches!(action, ProcessingAction::FetchNext));
    let action = processor.step(&mut channel, ActionOutcome::Next(Some("a.flac".to_owned())));
    match action {
        ProcessingAction::CheckExists(path) => assert_eq!("a.flac", path),
        other => panic!("unexpected {:?}", other),
    }
    let action = processor.step(&mut channel, ActionOutcome::Exists(false));
    match action {
        ProcessingAction::Process(path) => assert_eq!("a.flac", path),
        other => panic!("unexpected {:?}", other),
    }
    let action = processor.step(&mut channel, ActionOutcome::Processed(Ok(())));
    assert!(matches!(action, ProcessingAction::FetchNext));
    assert!(matches!(processor.state, ProcessingState::DoneWithCurrent));
    let action = processor.step(&mut channel, ActionOutcome::Next(None));
    assert!(matches!(action, ProcessingAction::Complete));
    assert!(processor.is_over());
    assert!(channel.receive().is_none());
}

#[test]
fn existing_file_asked_then_skipped() {
    let mut channel = UIEventChannel::new();
    let (mut processor, _) = OutputProcessor::new();
    processor.step(&mut channel, ActionOutcome::Next(Some("a.flac".to_owned())));
    let action = processor.step(&mut channel, ActionOutcome::Exists(true));
    match action {
        ProcessingAction::AskOverwrite(path) => assert_eq!("a.flac", path),
        other => panic!("unexpected {:?}", other),
    }
    assert!(matches!(
        channel.receive(),
        Some(UIEvent::Main(MainEvent::ResetCursor))
    ));
    let action = processor.step(&mut channel, ActionOutcome::Answer(OverwriteResponse::No));
    assert!(matches!(action, ProcessingAction::FetchNext));
    assert!(matches!(processor.state, ProcessingState::SkipCurrent));
    assert!(matches!(
        channel.receive(),
        Some(UIEvent::Main(MainEvent::SetCursorWaiting))
    ));
    // the last file was skipped: no success message
    let action = processor.step(&mut channel, ActionOutcome::Next(None));
    assert!(matches!(action, ProcessingAction::Stop));
    assert!(processor.is_over());
}

#[test]
fn yes_to_all_skips_further_questions() {
    let mut channel = UIEventChannel::new();
    let (mut processor, _) = OutputProcessor::new();
    processor.step(&mut channel, ActionOutcome::Next(Some("a.flac".to_owned())));
    processor.step(&mut channel, ActionOutcome::Exists(true));
    let action = processor.step(&mut channel, ActionOutcome::Answer(OverwriteResponse::Apply));
    assert!(matches!(action, ProcessingAction::Process(_)));
    assert!(processor.overwrite_all);
    processor.step(&mut channel, ActionOutcome::Processed(Ok(())));
    let action = processor.step(&mut channel, ActionOutcome::Next(Some("b.flac".to_owned())));
    match action {
        ProcessingAction::Process(path) => assert_eq!("b.flac", path),
        other => panic!("unexpected {:?}", other),
    }
}

#[test]
fn cancel_stops_processing() {
    let mut channel = UIEventChannel::new();
    let (mut processor, _) = OutputProcessor::new();
    processor.step(&mut channel, ActionOutcome::Next(Some("a.flac".to_owned())));
    processor.step(&mut channel, ActionOutcome::Exists(true));
    let action = processor.step(&mut channel, ActionOutcome::Answer(OverwriteResponse::Cancel));
    assert!(matches!(action, ProcessingAction::CancelAndStop));
    assert!(processor.is_over());
}

#[test]
fn failure_is_reported() {
    let mut channel = UIEventChannel::new();
    let (mut processor, _) = OutputProcessor::new();
    processor.step(&mut channel, ActionOutcome::Next(Some("a.flac".to_owned())));
    processor.step(&mut channel, ActionOutcome::Exists(false));
    let action = processor.step(
        &mut channel,
        ActionOutcome::Processed(Err("disk full".to_owned())),
    );
    assert!(matches!(action, ProcessingAction::Stop));
    match channel.receive() {
        Some(UIEvent::InfoBar(InfoBarEvent::ShowError(msg))) => assert_eq!("disk full", msg),
        other => panic!("unexpected {:?}", other),
    }
    assert!(processor.is_over());
}
