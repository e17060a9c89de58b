//! Laws of the cache: when an entry is too old.

use crate::cache::expired;
use crate::timestamp::{Timestamp, NANOS_PER_SECOND, SECONDS_PER_DAY};
use vstd::prelude::*;

verus! {

/// Nanoseconds in a day.
pub open spec fn nanos_per_day() -> int {
    SECONDS_PER_DAY * NANOS_PER_SECOND
}

/// The expiry boundary: what was fetched exactly `expiry_days` days ago is
/// not too old, and what was fetched one day earlier is.
pub proof fn lemma_expiry_boundary(fetched_at: Timestamp, now: Timestamp, expiry_days: u32)
    ensures
        now.total_nanos() - fetched_at.total_nanos() == expiry_days * nanos_per_day() ==> !expired(
            fetched_at,
            expiry_days,
            now,
        ),
        now.total_nanos() - fetched_at.total_nanos() == (expiry_days + 1) * nanos_per_day()
            ==> expired(fetched_at, expiry_days, now),
{
    let day = nanos_per_day();
    let d = expiry_days as int;
    assert((d * day) / day == d) by (nonlinear_arith)
        requires
            day > 0,
    ;
    assert(((d + 1) * day) / day == d + 1) by (nonlinear_arith)
        requires
            day > 0,
    ;
    assert(d * day >= 0) by (nonlinear_arith)
        requires
            d >= 0,
            day > 0,
    ;
    assert((d + 1) * day >= 0) by (nonlinear_arith)
        requires
            d >= 0,
            day > 0,
    ;
}

/// What is younger than a day more than `expiry_days` days is not too old,
/// and everything else is.
pub proof fn lemma_expiry_is_by_whole_days(fetched_at: Timestamp, now: Timestamp, expiry_days: u32)
    ensures
        expired(fetched_at, expiry_days, now) <==> now.total_nanos() - fetched_at.total_nanos()
            >= (expiry_days + 1) * nanos_per_day(),
{
    let day = nanos_per_day();
    let d = expiry_days as int;
    let span = now.total_nanos() - fetched_at.total_nanos();
    if span >= 0 {
        assert(span / day > d <==> span >= (d + 1) * day) by (nonlinear_arith)
            requires
                day > 0,
                span >= 0,
                d >= 0,
        ;
    } else {
        assert((-span) / day >= 0) by (nonlinear_arith)
            requires
                day > 0,
                span < 0,
        ;
        assert((d + 1) * day >= 0) by (nonlinear_arith)
            requires
                d >= 0,
                day > 0,
        ;
    }
}

} // verus!
