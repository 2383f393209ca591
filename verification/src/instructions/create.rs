use vstd::prelude::*;

use crate::error::VestingError;
use crate::state::{duration_to_i64, fits_i64, schedule_end};

verus! {

/// What `handle_create` answers to the arguments of a new schedule.
pub open spec fn create_outcome(amount: u64, start: i64, cliff: i64, duration: u64) -> Result<
    (),
    VestingError,
> {
    if amount == 0 {
        Err(VestingError::InvalidArguments)
    } else if cliff < start {
        Err(VestingError::InvalidArguments)
    } else if !fits_i64(schedule_end(start, duration)) {
        Err(VestingError::Overflow)
    } else if cliff > schedule_end(start, duration) {
        Err(VestingError::InvalidArguments)
    } else if duration == 0 {
        Err(VestingError::InvalidArguments)
    } else {
        Ok(())
    }
}

/// Checks the arguments of a new schedule before `amount` tokens are locked in
/// it: the amount and the duration are positive, and the cliff lies between
/// `start` and `start + (duration as i64)`, whose computation must not overflow.
pub fn handle_create(amount: u64, start: i64, cliff: i64, duration: u64) -> (r: Result<
    (),
    VestingError,
>)
    ensures
        r == create_outcome(amount, start, cliff, duration),
{
    if amount == 0 {
        return Err(VestingError::InvalidArguments);
    }
    if cliff < start {
        return Err(VestingError::InvalidArguments);
    }
    let end: i64 = match start.checked_add(duration_to_i64(duration)) {
        Some(e) => e,
        None => {
            return Err(VestingError::Overflow);
        },
    };
    if cliff > end {
        return Err(VestingError::InvalidArguments);
    }
    if duration == 0 {
        return Err(VestingError::InvalidArguments);
    }
    Ok(())
}

} // verus!
