//! Song file formats.
pub mod impulse_format;
