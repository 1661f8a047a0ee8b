//! Control core of a knob-and-two-button RGB brightness controller.
//!
//! The device reads one analog knob and two buttons and drives a
//! three-channel LED through software pulse-width modulation. This crate
//! holds the verified logic of that device: the knob-sample-to-level
//! mapping, the pulse timing arithmetic, the shared configuration store,
//! and the input controller's routing and update decisions. Hardware
//! access (analog sampling, pin switching, timed waits) and the async
//! plumbing that interleaves the two activities live in the host driver,
//! which feeds plain values into these functions and carries out the
//! actions they return.
use vstd::prelude::*;

pub mod knob;
pub mod rgb;
pub mod store;
pub mod ui;

verus! {

/// Number of brightness levels per channel; a level always lies in
/// `[0, LEVELS - 1]`.
pub const LEVELS: u32 = 16;

} // verus!
