# torque_tracker

The user interface of a music tracker in the style of Impulse Tracker: a header with the
song position, pages (song variables, pattern editor, order list, sample list, help),
pop-up dialogs and menus, all drawn with an 8 x 8 bitmap font into a 640 x 400 frame
buffer. The library is written in Verus: each function's contract says what it draws,
how it answers a key, and what events it sends on, and Verus proves the code against it.

Layout:

- `src/draw_buffer.rs`: the frame buffer; every drawing call is described by a `Paint`
  command, and `painted` relates a buffer to the one before and the commands drawn.
- `src/coordinates.rs`, `src/palettes.rs`, `src/font.rs`, `src/numbers.rs`,
  `src/ascii_text.rs`: positions, colours, glyphs, numbers as text, ASCII strings.
- `src/ui/widgets/`: buttons, text inputs, sliders, toggles.
- `src/ui/dialog/`: confirm dialogs, the page menus, the slider value dialog.
- `src/ui/pages/` and `src/ui/pages.rs`: the pages and the switching between them.
- `src/ui/header.rs`: the header above the pages.
- `src/playback/pattern.rs`: patterns of note events and the edits applied to them.
- `src/file_formats/impulse_format/pattern.rs`: packed Impulse Tracker patterns.
- `src/app.rs`: what a window or application event does to all of the above.
- `app/main.rs`: the window (winit) and the screen output (softbuffer) around the library;
  the song's patterns sit in left-right handles that the editor's edits are published to.
- `app/sample_file.rs`: picking a sample file (rfd) and decoding it (symphonia).
