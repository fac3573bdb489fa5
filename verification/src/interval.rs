//! Spans of time as a query asks for them and as the store takes them.

use vstd::prelude::*;

verus! {

/// Microseconds in an hour.
pub const MICROS_PER_HOUR: i64 = 3_600_000_000;

/// An interval as the database holds it: months, days and microseconds, each
/// counted on its own.
#[derive(Clone, Copy, Debug, PartialEq, Eq, Structural)]
pub struct Interval {
    pub months: i32,
    pub days: i32,
    pub microseconds: i64,
}

/// The quotient of `a` by a positive `b`, rounded towards zero.
pub open spec fn quotient_towards_zero(a: int, b: int) -> int {
    if a >= 0 {
        a / b
    } else {
        -((-a) / b)
    }
}

/// What is left of `a` after [`quotient_towards_zero`]: it has the sign of
/// `a`.
pub open spec fn rest_towards_zero(a: int, b: int) -> int {
    a - b * quotient_towards_zero(a, b)
}

/// A span of time that can be made from a number of hours.
pub trait FromHours: Sized {
    /// The span of `hours` hours.
    spec fn spec_from_hours(hours: i32) -> Self;

    /// The span of `hours` hours.
    fn from_hours(hours: i32) -> (span: Self)
        ensures
            span == Self::spec_from_hours(hours),
    ;
}

impl FromHours for Interval {
    /// Whole days, and the hours left over as microseconds.
    open spec fn spec_from_hours(hours: i32) -> Interval {
        Interval {
            months: 0,
            days: quotient_towards_zero(hours as int, 24) as i32,
            microseconds: (rest_towards_zero(hours as int, 24) * 3_600_000_000) as i64,
        }
    }

    fn from_hours(hours: i32) -> (span: Interval) {
        let days: i32 = hours / 24;
        let rest: i32 = hours % 24;
        assert(rest == rest_towards_zero(hours as int, 24)) by {
            if hours < 0 {
                vstd::arithmetic::div_mod::lemma_fundamental_div_mod(-(hours as int), 24);
            } else {
                vstd::arithmetic::div_mod::lemma_fundamental_div_mod(hours as int, 24);
            }
        }
        Interval { months: 0, days, microseconds: rest as i64 * 60 * 60 * 1_000_000 }
    }
}

/// The window that a graph is asked for: the last `hours` hours.
#[derive(Clone, Copy, Debug, PartialEq, Eq, Structural)]
pub struct GraphQuery {
    pub hours: i32,
}

impl GraphQuery {
    /// The length of the window in microseconds.
    pub fn recent_span(&self) -> (micros: i64)
        ensures
            micros == self.hours * 3_600_000_000,
    {
        self.hours as i64 * MICROS_PER_HOUR
    }
}

} // verus!
