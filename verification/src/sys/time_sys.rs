//! The clock's reading and the difference of two readings.

use core::ops::Sub;
use vstd::prelude::*;
use vstd::std_specs::ops::SubSpecImpl;

pub mod clib_types;

verus! {

/// Number of microseconds in a second.
pub const MICROS_PER_SEC: i64 = 1_000_000;

/// A reading of the clock: whole seconds and the microseconds beyond them.
#[derive(Debug, Clone, Copy, PartialEq, Eq, Structural)]
pub struct CTimeval {
    /// seconds
    pub tv_sec: clib_types::CTimeT,
    /// microseconds
    pub tv_usec: clib_types::CSusecondsT,
}

impl CTimeval {
    /// The microseconds are less than a second's worth and not negative.
    pub open spec fn wf(self) -> bool {
        0 <= self.tv_usec < MICROS_PER_SEC
    }

    /// The reading in microseconds.
    pub open spec fn micros(self) -> int {
        self.tv_sec * MICROS_PER_SEC + self.tv_usec
    }

    /// The microseconds from the reading `rhs` to the reading `self`; none
    /// where `rhs` is the later one.
    pub open spec fn since(self, rhs: CTimeval) -> Option<u128> {
        if self.micros() >= rhs.micros() {
            Some((self.micros() - rhs.micros()) as u128)
        } else {
            None
        }
    }
}

impl Default for CTimeval {
    fn default() -> (tv: Self)
        ensures
            tv == (CTimeval { tv_sec: 0, tv_usec: 0 }),
    {
        CTimeval { tv_sec: 0, tv_usec: 0 }
    }
}

impl Sub for CTimeval {
    type Output = Option<u128>;

    /// The microseconds from `rhs` to `self`, where `rhs` is not the later.
    fn sub(self, rhs: Self) -> (elapsed: Option<u128>) {
        let (sec, usec): (i128, i128) = if self.tv_usec < rhs.tv_usec {
            (
                self.tv_sec as i128 - rhs.tv_sec as i128 - 1,
                self.tv_usec as i128 + MICROS_PER_SEC as i128 - rhs.tv_usec as i128,
            )
        } else {
            (self.tv_sec as i128 - rhs.tv_sec as i128, self.tv_usec as i128 - rhs.tv_usec as i128)
        };
        if sec >= 0 {
            Some((sec * 1_000_000 + usec) as u128)
        } else {
            None
        }
    }
}

impl SubSpecImpl for CTimeval {
    open spec fn obeys_sub_spec() -> bool {
        true
    }

    open spec fn sub_req(self, rhs: CTimeval) -> bool {
        self.wf() && rhs.wf()
    }

    open spec fn sub_spec(self, rhs: CTimeval) -> Option<u128> {
        self.since(rhs)
    }
}

} // verus!
