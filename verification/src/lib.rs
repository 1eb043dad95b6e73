//! Core of a debug-text overlay: capture of draw calls, a bounded command
//! channel, and the scaling state of the overlay.

pub mod channel;
pub mod command;
pub mod geometry;
pub mod install;
pub mod intercept;
pub mod overlay;
pub mod report;
pub mod single;
pub mod surface;
pub mod wide_text;
