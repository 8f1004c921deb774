pub mod app;
mod ascii_text;
pub mod coordinates;
pub mod draw_buffer;
pub mod events;
pub mod file_formats;
mod font;
pub mod input;
pub mod numbers;
pub mod palettes;
pub mod ui;
pub mod playback;
