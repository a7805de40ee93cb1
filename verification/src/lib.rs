//! A lazy, composable view engine over an immutable rope-structured text
//! buffer.
//!
//! A view pairs a shared text buffer with an ordered chain of pending
//! slicing operations (by character range, by byte range, or by line index).
//! Slicing only appends to the chain; the chain is applied, in order, when a
//! query actually needs concrete data. Bounds are checked lazily at that
//! point: an out-of-range step surfaces as a [`model::RangeError`].

pub mod buffer;
pub mod chain;
pub mod laws;
pub mod model;
pub mod registry;
pub mod view;
