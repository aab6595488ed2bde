//! Negative return values of the host's `call` function.

use vstd::prelude::*;

verus! {

/// The guest passed a pointer and a length outside its own memory.
pub const BAD_POINTER: i32 = -1;

/// The capability name or the request was not valid UTF-8 or JSON.
pub const BAD_REQUEST: i32 = -2;

/// The host could not serialize a response.
pub const INTERNAL: i32 = -3;

} // verus!
