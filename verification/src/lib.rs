//! A simulated device-control protocol endpoint.
//!
//! The crate provides a fake protocol server that performs a connection
//! handshake, announces a configurable device roster, dispatches client
//! commands by kind and acknowledges them, together with a call registry
//! that records every command received per device, assertion helpers over
//! the recorded commands, and a target resolver that maps event tags and
//! a device configuration list to the subset of devices a pattern
//! addresses.

pub mod devices;
pub mod input;
pub mod messages;
pub mod registry;
pub mod server;
