//! The Impulse Tracker format.
pub mod pattern;
