//! A verified Morse-code playback engine.
//!
//! The engine turns input lines into precisely timed tone/gap event
//! sequences, parses inline `#!` reconfiguration directives, validates
//! and merges parameter changes, and keeps a registry of named
//! configuration presets.  All quantities that the timing logic reads
//! are plain integers; fractional parameters (volume, loudness curve,
//! Farnsworth multiplier) are carried in thousandths.  Audio output and
//! stream I/O live outside the library: callers feed lines in and
//! perform the returned events.

pub mod args;
pub mod directive;
pub mod errors;
pub mod morse;
pub mod numeric;
pub mod players;
pub mod sequencer;
pub mod text;
pub mod translation_table;
