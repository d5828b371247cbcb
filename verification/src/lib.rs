//! Network endpoints of a sandbox: the host interfaces that are plugged into
//! and out of a running guest, and the state saved to rebuild them.

pub mod device;
pub mod network;
