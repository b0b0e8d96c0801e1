//! Numbers that travel in the `type` field of every message.

use vstd::prelude::*;

verus! {

pub const ERROR: u64 = 0;
pub const REGISTER_MODULE_REQUEST: u64 = 1;
pub const REGISTER_MODULE_RESPONSE: u64 = 2;
pub const FUNCTION_CALL_REQUEST: u64 = 3;
pub const FUNCTION_CALL_RESPONSE: u64 = 4;
pub const REGISTER_HOOK_REQUEST: u64 = 5;
pub const REGISTER_HOOK_RESPONSE: u64 = 6;
pub const TRIGGER_HOOK_REQUEST: u64 = 7;
pub const TRIGGER_HOOK_RESPONSE: u64 = 8;
pub const DECLARE_FUNCTION_REQUEST: u64 = 9;
pub const DECLARE_FUNCTION_RESPONSE: u64 = 10;

} // verus!
