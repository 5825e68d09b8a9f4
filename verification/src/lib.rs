//! Verified core of a cross-platform game networking layer: the wire format of
//! native messages, the per-channel receive queues and channel registry of the
//! native client, and the bookkeeping of a network resource.

pub mod client;
pub mod crate_specs;
pub mod frame;
pub mod ports;
pub mod resource;
pub mod shared;

