use vstd::prelude::*;

use crate::error::VestingError;
use crate::state::{duration_to_i64, fits_i64, lemma_share_bounds, Vesting};

verus! {

impl Vesting {
    /// The times at which claiming from this state is defined: on the pro-rata
    /// branch (from the cliff on, before the end) the time is not before `start`.
    /// Every well-formed state meets this at every time.
    pub open spec fn claim_is_defined(self, now: i64) -> bool {
        (now >= self.cliff && fits_i64(self.end()) && now < self.end()) ==> self.start <= now
    }

    /// Whether a claim at `now` is defined: the test of `handle_claim`'s
    /// precondition for callers that hold a state of unknown origin.
    pub fn claim_defined(&self, now: i64) -> (r: bool)
        ensures
            r == self.claim_is_defined(now),
            now < self.cliff ==> r,
            self.start <= now ==> r,
            self.start <= self.cliff ==> r,
            (self.cliff <= now < self.start && self.duration <= i64::MAX && self.start
                + self.duration <= i64::MAX && now < self.start + self.duration) ==> !r,
    {
        if now < self.cliff {
            return true;
        }
        match self.start.checked_add(duration_to_i64(self.duration)) {
            Some(end) => now >= end || self.start <= now,
            None => true,
        }
    }
}

/// What a claim at time `now` gives: the error, or the amount that becomes
/// payable to the beneficiary, which is what has vested minus what was claimed.
pub open spec fn claim_outcome(v: Vesting, now: i64) -> Result<u64, VestingError> {
    if now < v.cliff {
        Err(VestingError::InvalidClaimBeforeCliff)
    } else if !fits_i64(v.end()) {
        Err(VestingError::Overflow)
    } else if v.vested_at(now) < v.total_claimed {
        Err(VestingError::Underflow)
    } else if v.vested_at(now) == v.total_claimed {
        Err(VestingError::InvalidClaimAmount)
    } else {
        Ok((v.vested_at(now) - v.total_claimed) as u64)
    }
}

/// The share of `total` vested `now`, strictly before the end of the schedule.
fn vested_before_end(total: u64, start: i64, duration: u64, now: i64) -> (r: u64)
    requires
        start <= now,
        now < start + duration,
        duration <= i64::MAX,
    ensures
        r == (total * (now - start)) / (duration as int),
        r <= total,
{
    let elapsed: i64 = now - start;
    proof {
        lemma_share_bounds(total as int, elapsed as int, elapsed as int, duration as int);
        vstd::arithmetic::mul::lemma_mul_upper_bound(
            total as int,
            u64::MAX as int,
            elapsed as int,
            i64::MAX as int,
        );
    }
    let product: u128 = (total as u128) * (elapsed as u128);
    let share: u128 = product / (duration as u128);
    share as u64
}

/// Claims what has vested at `current_time` and not been claimed yet.
///
/// Refused before the cliff, when the end of the schedule overflows `i64`,
/// when less has vested than was claimed, and when nothing new has vested.
/// On success the amount to pay out is returned and added to
/// `total_claimed`; on refusal the state is left as it was.
pub fn handle_claim(vesting: &mut Vesting, current_time: i64) -> (r: Result<u64, VestingError>)
    requires
        old(vesting).claim_is_defined(current_time),
    ensures
        r == claim_outcome(*old(vesting), current_time),
        match r {
            Ok(amount) => *final(vesting) == old(vesting).after_claim(amount),
            Err(_) => *final(vesting) == *old(vesting),
        },
        match r {
            Ok(amount) => {
                &&& amount > 0
                &&& final(vesting).total_claimed == old(vesting).total_claimed + amount
                &&& final(vesting).id == old(vesting).id
                &&& final(vesting).creator == old(vesting).creator
                &&& final(vesting).beneficiary == old(vesting).beneficiary
                &&& final(vesting).mint == old(vesting).mint
                &&& final(vesting).total_amount == old(vesting).total_amount
                &&& final(vesting).start == old(vesting).start
                &&& final(vesting).cliff == old(vesting).cliff
                &&& final(vesting).duration == old(vesting).duration
                &&& final(vesting).bump == old(vesting).bump
            },
            Err(_) => true,
        },
{
    if current_time < vesting.cliff {
        return Err(VestingError::InvalidClaimBeforeCliff);
    }
    let end: i64 = match vesting.start.checked_add(duration_to_i64(vesting.duration)) {
        Some(e) => e,
        None => {
            return Err(VestingError::Overflow);
        },
    };
    let vested: u64 = if current_time >= end {
        vesting.total_amount
    } else {
        vested_before_end(vesting.total_amount, vesting.start, vesting.duration, current_time)
    };
    assert(vested == vesting.vested_at(current_time));
    let amount: u64 = match vested.checked_sub(vesting.total_claimed) {
        Some(a) => a,
        None => {
            return Err(VestingError::Underflow);
        },
    };
    if amount == 0 {
        return Err(VestingError::InvalidClaimAmount);
    }
    let claimed: u64 = match vesting.total_claimed.checked_add(amount) {
        Some(c) => c,
        None => {
            return Err(VestingError::Overflow);
        },
    };
    vesting.total_claimed = claimed;
    Ok(amount)
}

} // verus!
