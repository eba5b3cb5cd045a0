//! A native bridge that answers a host runtime's call with a fixed greeting.
//!
//! The host hands the exported entry point an environment handle whose
//! callback table may or may not hold the "construct a string from a
//! NUL-terminated UTF-8 buffer" slot. This library decides, from what that
//! lookup found, what the boundary does: hand the host the greeting buffer,
//! or terminate the process. It also fixes the buffer itself and its
//! invariant: the greeting's UTF-8 bytes followed by exactly one zero byte.
use vstd::prelude::*;

pub mod boundary;
pub mod payload;

verus! {

} // verus!
