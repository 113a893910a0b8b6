//! A verified core for a pacman-log viewer.
//!
//! The library turns raw log lines into typed package-change events,
//! filters them by name glob and calendar date, and renders them as
//! plain or styled text. All parsing, filtering and rendering logic is
//! verified; the only trusted pieces are a conversion of a fixed-offset
//! timestamp to the local time zone (chrono) and a `Vec<char>` to
//! `String` conversion (std).

pub mod chars;
pub mod cli;
pub mod date;
pub mod glob;
pub mod laws;
pub mod line;
pub mod paclog;
pub mod render;
pub mod timestamp;
