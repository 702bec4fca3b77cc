//! Lifetime (TTL) policy.
//!
//! Stored entries expire once the ledger passes their horizon. The policy is
//! a pure function of the current horizon, the current ledger, and two
//! tier-fixed parameters: whenever the remaining lifetime falls strictly
//! below `threshold` ticks, the horizon is moved to `target` ticks from now;
//! otherwise nothing changes. It is independent of any storage mechanism.

use vstd::prelude::*;

verus! {

/// Ledger ticks in roughly one day (one tick every five to six seconds).
pub const DAY_IN_LEDGERS: u32 = 17_280;

/// Ledger ticks in roughly one week.
pub const WEEK_IN_LEDGERS: u32 = 120_960;

/// Ledger ticks in roughly one month.
pub const MONTH_IN_LEDGERS: u32 = 518_400;

/// Ledger ticks in roughly one year.
pub const YEAR_IN_LEDGERS: u32 = 6_307_200;

/// Horizon that a per-principal record is extended to.
pub const VOTER_RECORD_TTL: u32 = YEAR_IN_LEDGERS;

/// Remaining lifetime below which a per-principal record is extended.
pub const VOTER_RECORD_TTL_THRESHOLD: u32 = MONTH_IN_LEDGERS;

/// Horizon that the aggregate tier is extended to.
pub const INSTANCE_TTL: u32 = YEAR_IN_LEDGERS;

/// Remaining lifetime below which the aggregate tier is extended.
pub const INSTANCE_TTL_THRESHOLD: u32 = MONTH_IN_LEDGERS;

/// Ticks left before the horizon passes; zero once it has passed.
pub open spec fn remaining_life(live_until: u32, now: u32) -> int {
    if live_until >= now {
        live_until - now
    } else {
        0
    }
}

/// `u32` addition that stops at the largest representable horizon.
pub open spec fn saturating_add(a: u32, b: u32) -> u32 {
    if a + b <= u32::MAX {
        (a + b) as u32
    } else {
        u32::MAX
    }
}

/// The horizon after one application of the extension policy.
pub open spec fn extended_horizon(live_until: u32, now: u32, threshold: u32, target: u32) -> u32 {
    if remaining_life(live_until, now) < threshold {
        saturating_add(now, target)
    } else {
        live_until
    }
}

/// Applies the extension policy: if fewer than `threshold` ticks remain at
/// `now`, the horizon becomes `target` ticks from now; otherwise it is kept.
pub fn extend_horizon(live_until: u32, now: u32, threshold: u32, target: u32) -> (r: u32)
    ensures
        r == extended_horizon(live_until, now, threshold, target),
{
    let remaining: u32 = if live_until >= now {
        live_until - now
    } else {
        0
    };
    if remaining < threshold {
        if now <= u32::MAX - target {
            now + target
        } else {
            u32::MAX
        }
    } else {
        live_until
    }
}

} // verus!
