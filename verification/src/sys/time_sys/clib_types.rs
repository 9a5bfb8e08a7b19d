//! The integer types of the C library's time interface, as they are on a
//! 64-bit Linux.

use vstd::prelude::*;

verus! {

pub type CTimeT = i64;

pub type CSusecondsT = i64;

} // verus!
