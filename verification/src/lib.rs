//! A small library for staggered slide/fade row animations driven by a
//! per-frame timestamp, plus the one-shot channel handoff that replaces a
//! loading placeholder with a freshly animated row list.
//!
//! Times are modelled in whole milliseconds and progress in fixed point
//! (`easing::PROGRESS_ONE` stands for a progress of 1), so that every rule --
//! easing, stagger, geometry, and the fetch state machine -- is stated and
//! verified exactly.

pub mod easing;
pub mod fetch;
pub mod geometry;
pub mod label;
pub mod list;
pub mod row;
