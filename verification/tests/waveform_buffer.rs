use media_toc::waveform_buffer::{DoubleWaveformBuffer, LockState, WaveformBuffer};

fn ready_buffer() -> WaveformBuffer {
    let mut buffer = WaveformBuffer::new(1);
    buffer.set_sample_duration(1_000);
    buffer.image.sample_step = 2;
    buffer.set_sample_window(100);
    buffer
}

#[test]
fn new_double_buffer() {
    let dbl = DoubleWaveformBuffer::new(5_000_000_000);
    assert_eq!(5_000_000_000, dbl.buffer_duration);
    assert_eq!(1, dbl.exposed.image.id);
    assert_eq!(2, dbl.working.image.id);
    assert_eq!(None, dbl.exposed.first_visible_sample);
    assert_eq!(None, dbl.working.first_visible_sample_lock);
}

#[test]
fn seek_aligns_on_sample_step() {
    let mut buffer = ready_buffer();
    buffer.seek(7_000, false);
    // sample 7, aligned on a step of 2
    assert_eq!(Some(6), buffer.sought_sample);
    assert_eq!(6, buffer.cursor_sample);
}

#[test]
fn seek_without_step_does_nothing() {
    let mut buffer = WaveformBuffer::new(1);
    buffer.seek(7_000, true);
    assert_eq!(None, buffer.sought_sample);
    assert_eq!(0, buffer.cursor_sample);
}

#[test]
fn range_playback_restores_position() {
    let mut buffer = ready_buffer();
    buffer.first_visible_sample = Some(40);
    buffer.start_play_range();
    assert_eq!(
        Some((40, LockState::PlayingRange)),
        buffer.first_visible_sample_lock
    );
    // a pause keeps the range constraint
    buffer.switch_to_paused();
    assert_eq!(
        Some((40, LockState::PlayingRange)),
        buffer.first_visible_sample_lock
    );
    // seeking back while paused restores the first visible sample
    buffer.first_visible_sample = Some(90);
    buffer.seek(50_000, false);
    assert_eq!(Some(40), buffer.first_visible_sample);
    assert_eq!(
        Some((40, LockState::RestoringInitialPos)),
        buffer.first_visible_sample_lock
    );
    assert_eq!(50, buffer.cursor_sample);
}

#[test]
fn pause_drops_playing_constraint() {
    let mut buffer = ready_buffer();
    buffer.first_visible_sample = Some(10);
    buffer.first_visible_sample_lock = Some((10, LockState::Playing));
    buffer.switch_to_paused();
    assert_eq!(None, buffer.first_visible_sample_lock);
    assert_eq!(None, buffer.first_visible_sample);
}

#[test]
fn refresh_position_tracks_samples() {
    let mut buffer = ready_buffer();
    buffer.refresh_position(3_000, 3);
    assert_eq!(3, buffer.current_sample);
    assert_eq!(0, buffer.previous_sample);
    assert_eq!(3_000, buffer.cursor_position);
    buffer.refresh_position(5_000, 5);
    assert_eq!(3, buffer.previous_sample);
    assert_eq!(5, buffer.current_sample);
    // after a seek, the previous sample is reset
    buffer.seek(9_000, false);
    buffer.refresh_position(9_000, 9);
    assert_eq!(9, buffer.previous_sample);
    assert_eq!(None, buffer.sought_sample);
}

#[test]
fn sample_window_halves() {
    let buffer = ready_buffer();
    assert_eq!(200, buffer.req_sample_window);
    assert_eq!(100, buffer.half_req_sample_window);
    assert_eq!(50, buffer.quarter_req_sample_window);
    assert_eq!(200, buffer.get_requested_sample_window());
}

fn rendered_buffer() -> WaveformBuffer {
    let mut buffer = ready_buffer();
    buffer.image.is_ready = true;
    buffer.image.lower = 0;
    buffer.image.upper = 1_000;
    buffer
}

#[test]
fn cursor_centered_without_constraint() {
    let mut buffer = rendered_buffer();
    let (position, window) = buffer.get_image(500_000, 500);
    assert_eq!(500_000, position);
    let window = window.unwrap();
    assert_eq!(Some(buffer.half_req_sample_window), window.cursor_offset);
    assert_eq!(400, window.first_sample);
}

#[test]
fn restoring_releases_constraint() {
    let mut buffer = rendered_buffer();
    buffer.first_visible_sample = Some(300);
    buffer.first_visible_sample_lock = Some((300, LockState::RestoringInitialPos));
    let (_, window) = buffer.get_image(350_000, 350);
    assert_eq!(300, window.unwrap().first_sample);
    assert_eq!(None, buffer.first_visible_sample_lock);
    assert_eq!(None, buffer.sought_sample);
}
