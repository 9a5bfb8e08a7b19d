//! The types of the packets that come in.

use vstd::prelude::*;

verus! {

pub const INIT: u8 = 0;

pub const EVENT: u8 = 1;

} // verus!
