//! The tags of the events.

use vstd::prelude::*;

verus! {

pub const CLOSE: u8 = 0;

pub const RESIZE: u8 = 1;

} // verus!
