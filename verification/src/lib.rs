//! Phase sequencer for a four-way traffic-light intersection that follows the
//! German signalling convention: red, red and yellow together, green, yellow,
//! red, with an all-red clearance between the two conflicting axes.
//!
//! The crate holds the decisions only. `lamps` models the twelve lamps,
//! `phase` says which of them each phase lights and for how long, and
//! `sequencer` is the state machine that a host drives: it performs each
//! action on the real output lines, waits, and reports back.

pub mod lamps;
pub mod phase;
pub mod sequencer;
