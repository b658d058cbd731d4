//! Journey: a verified core for a personal journaling tool.
//!
//! The library covers the journal's bootstrap-and-entry lifecycle: resolving a
//! free-text location, confirming a timezone through a retry dialogue,
//! building the forecast request and reading its answer into a weather
//! snapshot, composing an entry preamble, deciding the outcome of an editor
//! round-trip, and locating previously written entries by date.  All file,
//! network and terminal work is left to the surrounding binary, which feeds
//! plain values in and carries the decisions out.

pub mod args;
pub mod choice;
pub mod compass;
pub mod compose;
pub mod config;
pub mod datetime;
pub mod editor;
pub mod entry;
pub mod interact;
pub mod location;
pub mod error;
pub mod strutil;
pub mod timezone;
pub mod weather;
pub mod weather_codes;
