//! File status flag bits.

use vstd::prelude::*;

verus! {

/// The bit that makes reads and writes return at once instead of waiting.
pub const O_NONBLOCK: usize = 0o4000;

} // verus!
