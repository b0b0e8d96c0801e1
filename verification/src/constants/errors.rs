//! Error codes that travel in the `error` field of an error message.

use vstd::prelude::*;

verus! {

pub const MALFORMED_REQUEST: u32 = 0;
pub const INVALID_REQUEST_ID: u32 = 1;
pub const UNKNOWN_REQUEST: u32 = 2;
pub const UNREGISTERED_MODULE: u32 = 3;
pub const UNKNOWN_MODULE: u32 = 4;
pub const UNKNOWN_FUNCTION: u32 = 5;
pub const INVALID_MODULE_ID: u32 = 6;
pub const DUPLICATE_MODULE: u32 = 7;

} // verus!
