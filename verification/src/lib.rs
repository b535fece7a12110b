//! Remote control of a lighting console by emulated keypad presses.
//!
//! The console is driven over OSC: every key of its keypad has an address, a
//! key goes down with a toggle of `true` sent to that address and up again
//! with a toggle of `false`, and the console needs a moment to settle after
//! each of them. This crate holds the catalogue of keys and addresses, the
//! console operations composed from key presses, and the framing of what
//! goes out to and comes back from the console.

pub mod digits;
pub mod keys;
pub mod script;
pub mod chimp;
pub mod osc;
pub mod inbound;
pub mod recorder;
pub mod batch;

