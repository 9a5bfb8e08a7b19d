//! Points in time, and waiting for a span to pass.

use crate::sys::time_sys::CTimeval;
use core::ops::Sub;
use vstd::prelude::*;
use vstd::std_specs::ops::SubSpecImpl;

verus! {

/// A point in time, as the clock read it.
#[derive(Debug, Clone, Copy, PartialEq, Eq, Structural)]
pub struct Point(pub CTimeval);

impl Point {
    /// The point in time at which the clock read `tv`.
    pub fn now(tv: CTimeval) -> (p: Self)
        ensures
            p.0 == tv,
    {
        Self(tv)
    }

    /// The point in time from which the clock counts.
    pub fn epoch() -> (p: Self)
        ensures
            p.0 == (CTimeval { tv_sec: 0, tv_usec: 0 }),
    {
        Self(CTimeval { tv_sec: 0, tv_usec: 0 })
    }

    /// The microseconds from this point to `now`; none where `now` is the
    /// earlier one.
    pub fn elapsed(&self, now: Point) -> (e: Option<u128>)
        requires
            self.0.wf(),
            now.0.wf(),
        ensures
            e == now.0.since(self.0),
    {
        now - *self
    }

    /// One turn of waiting until `for_dur` microseconds have passed since
    /// this point, where the clock now reads `now`. `Some(true)`: they have
    /// passed. `Some(false)`: the clock went back behind this point, so the
    /// wait is given up. `None`: read the clock and ask again.
    pub fn loop_for(self, for_dur: u128, now: Point) -> (done: Option<bool>)
        requires
            self.0.wf(),
            now.0.wf(),
        ensures
            done == match now.0.since(self.0) {
                Some(e) => if e >= for_dur {
                    Some(true)
                } else {
                    None
                },
                None => Some(false),
            },
    {
        if let Some(e) = self.elapsed(now) {
            if e >= for_dur {
                Some(true)
            } else {
                None
            }
        } else {
            Some(false)
        }
    }
}

impl Default for Point {
    fn default() -> (p: Self)
        ensures
            p.0 == (CTimeval { tv_sec: 0, tv_usec: 0 }),
    {
        Self(CTimeval { tv_sec: 0, tv_usec: 0 })
    }
}

impl Sub for Point {
    type Output = Option<u128>;

    fn sub(self, rhs: Self) -> (elapsed: Option<u128>) {
        self.0 - rhs.0
    }
}

impl SubSpecImpl for Point {
    open spec fn obeys_sub_spec() -> bool {
        true
    }

    open spec fn sub_req(self, rhs: Point) -> bool {
        self.0.wf() && rhs.0.wf()
    }

    open spec fn sub_spec(self, rhs: Point) -> Option<u128> {
        self.0.since(rhs.0)
    }
}

} // verus!
