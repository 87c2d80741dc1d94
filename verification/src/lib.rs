//! Core logic of a daemon that mediates the physical detachment of a tablet
//! unit from its base on a convertible device with a motorized latch.
//!
//! The library holds the verified parts: the event classifier, the detach
//! policy state machine, the bounded process task queue and the two-stage
//! shutdown coordinator. Hardware access, the signal bus, subprocess
//! execution and logging live outside, in the unverified shell that drives
//! these types.

pub mod events;
pub mod machine;
pub mod queue;
pub mod shutdown;
pub mod error;
