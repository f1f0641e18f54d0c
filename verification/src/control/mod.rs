//! The control interface and the types that travel with it.

pub mod metadata;
pub mod load;
pub mod ranges;
pub mod control;
pub mod snapshot;
pub mod ext;
pub mod control_rpc;
pub mod rpc;
