//! Verified core of the media-toc user interface: the bookkeeping of the
//! waveform rendering, the chapters model, and the state machines that drive
//! the playback and the output processes.
pub mod waveform_image;
pub mod waveform_buffer;
pub mod timestamp;
pub mod chapters_boundaries;
pub mod chapter_tree;
pub mod ui_event;
pub mod audio;
pub mod info;
pub mod info_bar;
pub mod main_panel;
pub mod playback;
pub mod generic_output;
pub mod image_surface;
pub mod split_path;
pub mod streams;
pub mod chapters_in_step;
