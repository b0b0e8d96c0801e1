//! Constants of the wire protocol.

pub mod errors;
pub mod request_keys;
pub mod request_types;
