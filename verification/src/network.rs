//! The network resources of a sandbox.

pub mod endpoint;
pub mod error;
pub mod utils;
