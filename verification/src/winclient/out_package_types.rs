//! The types of the packets that go out.

use vstd::prelude::*;

verus! {

pub const PRESENT: u8 = 0;

} // verus!
