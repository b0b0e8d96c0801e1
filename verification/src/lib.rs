//! Verified core of a client for the Juno message bus: the wire-level
//! message model, the bookkeeping a module keeps while it talks to the
//! bus (declared functions, hook listeners, pending requests and the
//! buffer of requests held back until the module is registered), and the
//! choice of socket from a connection path.

pub mod constants;
pub mod error;
pub mod json;
pub mod messages;
pub mod registry;
pub mod module_impl;
pub mod address;
pub mod laws;
pub mod wire;
