//! Driver core for a daisy-chain of byte-wide serial-in/parallel-out shift
//! registers driven over three digital output lines (data, clock, latch).
//!
//! The device keeps a shadow image of the chain's intended outputs and
//! serializes that image onto the hardware with a bit-banged protocol.
//! Callers obtain lightweight handles (single byte, byte range, or single
//! bit) that carry the coordinates of the bytes they address; every mutating
//! operation takes the owning device and pushes the fresh image out again.

pub mod line;
pub mod protocol;
pub mod register;
pub mod wrappers;

pub use register::AdvancedShiftRegister;
