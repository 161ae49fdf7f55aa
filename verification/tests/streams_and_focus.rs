use media_toc::main_panel::{FocusActions, FocusTracker};
use media_toc::streams::{StreamKind, StreamsSelection};
use media_toc::ui_event::UIFocusContext;

#[test]
fn first_stream_of_each_kind_selected() {
    let mut selection = StreamsSelection::new();
    selection.new_media(
        &vec!["video-1".to_owned(), "video-2".to_owned()],
        &vec!["audio-1".to_owned()],
        &vec![],
    );
    assert_eq!(Some("video-1".to_owned()), selection.video_selected);
    assert_eq!(Some("audio-1".to_owned()), selection.audio_selected);
    assert_eq!(None, selection.text_selected);
    assert_eq!(
        vec!["video-1".to_owned(), "audio-1".to_owned()],
        selection.selected_streams()
    );
    selection.cleanup();
    assert!(selection.selected_streams().is_empty());
}

#[test]
fn selected_streams_in_kind_order() {
    let selection = StreamsSelection {
        video_selected: None,
        audio_selected: Some("a".to_owned()),
        text_selected: Some("t".to_owned()),
    };
    assert_eq!(
        vec!["a".to_owned(), "t".to_owned()],
        selection.selected_streams()
    );
}

#[test]
fn switching_pages_moves_focus() {
    let mut tracker = FocusTracker::new();
    let actions = tracker.switch_to(UIFocusContext::ExportPage);
    assert_eq!(
        FocusActions {
            bind_accels_for: Some(UIFocusContext::ExportPage),
            loose_info_focus: true,
            grab_focus_of: Some(UIFocusContext::ExportPage),
        },
        actions
    );
    assert_eq!(UIFocusContext::ExportPage, tracker.focus);
    let actions = tracker.update_focus(UIFocusContext::TextEntry);
    assert_eq!(None, actions.grab_focus_of);
    assert!(!actions.loose_info_focus);
}

#[test]
fn restore_undoes_temporary_switch() {
    let mut tracker = FocusTracker::new();
    let actions = tracker.temporarily_switch_to(UIFocusContext::InfoBar);
    assert_eq!(Some(UIFocusContext::InfoBar), actions.bind_accels_for);
    assert_eq!(UIFocusContext::PlaybackPage, tracker.focus);
    let actions = tracker.restore_context();
    assert_eq!(Some(UIFocusContext::PlaybackPage), actions.bind_accels_for);
    assert_eq!(Some(UIFocusContext::PlaybackPage), actions.grab_focus_of);
    assert!(!actions.loose_info_focus);
    assert_eq!(None, tracker.saved_context);
    // nothing saved: nothing to do
    let actions = tracker.restore_context();
    assert_eq!(None, actions.bind_accels_for);
}

#[test]
fn activating_a_stream_changes_selection_once() {
    let mut selection = StreamsSelection::new();
    assert!(selection.select(StreamKind::Audio, "audio-2".to_owned()));
    assert_eq!(Some("audio-2".to_owned()), selection.audio_selected);
    assert_eq!(None, selection.video_selected);
    // activating the selected stream again changes nothing
    assert!(!selection.select(StreamKind::Audio, "audio-2".to_owned()));
    assert!(selection.select(StreamKind::Audio, "audio-1".to_owned()));
    assert_eq!(Some("audio-1".to_owned()), selection.audio_selected);
    assert!(selection.select(StreamKind::Text, "text-1".to_owned()));
    assert_eq!(
        vec!["audio-1".to_owned(), "text-1".to_owned()],
        selection.selected_streams()
    );
}
