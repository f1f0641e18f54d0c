//! The pieces that carry control calls between a controller and a device.

pub mod futures;
pub mod encoding;
pub mod messages;
pub mod device;
pub mod controller;
