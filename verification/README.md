# media_toc

The verified core of the media-toc user interface, a tool which builds a table of
contents from a media file or splits a media file into chapters.

`src/` holds the decisions of the user interface, each with its contract, proved
with Verus:

- `ui_event`, `audio`, `info`, `info_bar`, `main_panel`, `playback`: the events the
  parts of the interface exchange through a queue, and the state machines which
  handle them (the waveform area, the chapters panel, the main window and the
  playback, the focus).
- `chapters_boundaries`, `chapter_tree`, `chapters_in_step`: the chapters, their
  list and the boundaries between them, and how the operations keep the list and
  the boundaries describing the same chapters.
- `waveform_buffer`, `waveform_image`: which samples of the audio stream are drawn
  and which part of the drawing is visible.
- `generic_output`, `split_path`: the production of the output files.
- `image_surface`, `streams`, `timestamp`: decoding of embedded images, stream
  selection, positions.

`app/` is the GTK front end: it builds the widgets, runs the GStreamer pipeline,
localizes the messages and performs the actions which the library returns.
