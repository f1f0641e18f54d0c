//! Traits, types and protocol logic for the LC-3 platform: the peripherals,
//! memory and control interfaces and the pieces that carry control calls
//! between a host and a device.

pub mod isa;
pub mod control;
pub mod memory;
pub mod tools;
pub mod peripherals;
