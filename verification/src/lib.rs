//! Merges pointer input contributed by several remote clients into a single
//! synthetic input stream: weighted reduction primitives, a per-client input
//! combiner, and a single-slot broadcast channel for fanning the combined
//! output out to consumers.
use vstd::prelude::*;

pub mod broadcast_channel;
pub mod driver;
pub mod input_combiner;
pub mod weighted_average;

verus! {

/// A message a remote client sends to the host: a relative mouse
/// contribution with a bitfield of button levels (bit 0 left, bit 1 right),
/// or one edge of a key identified by its browser-style code.
pub enum ClientInput {
    Mouse { dx: i32, dy: i32, btns: u16 },
    KeyDown { code: String },
    KeyUp { code: String },
}

/// A message the host relays to consumers: one tick's combined output.
#[derive(Clone, Copy, Debug)]
pub enum ClientOutput {
    Output { dx: i32, dy: i32, lb: bool, rb: bool },
}

} // verus!
