//! What holds of the schedule and of every sequence of instructions.
use vstd::prelude::*;

use crate::error::VestingError;
use crate::instructions::claim::claim_outcome;
use crate::instructions::create::create_outcome;
use crate::state::{
    duration_as_i64, lemma_share_bounds, schedule_valid, vesting_seeds, Pubkey, Vesting,
};
use vstd::bytes::spec_u64_to_le_bytes;

verus! {

/// A new schedule is accepted exactly when the amount is positive and the
/// schedule is valid: positive duration, cliff between start and end, and an
/// end that fits in `i64`.
pub proof fn lemma_create_accepts_exactly_valid_schedules(
    amount: u64,
    start: i64,
    cliff: i64,
    duration: u64,
)
    ensures
        (create_outcome(amount, start, cliff, duration) is Ok) <==> (amount > 0 && schedule_valid(
            start,
            cliff,
            duration,
        )),
{
}

/// The state that an accepted creation stores is well formed.
pub proof fn lemma_created_state_is_well_formed(amount: u64, v: Vesting)
    requires
        create_outcome(amount, v.start, v.cliff, v.duration) is Ok,
        v.total_claimed == 0,
    ensures
        v.wf(),
{
}

/// From a well-formed state a claim is defined at every time.
pub proof fn lemma_well_formed_claims_are_defined(v: Vesting, now: i64)
    requires
        v.wf(),
    ensures
        v.claim_is_defined(now),
{
}

/// Nothing is vested at the start, everything from the end on, and in
/// between a part of the total.
pub proof fn lemma_vested_bounds(v: Vesting, now: i64)
    requires
        v.wf(),
        v.start <= now,
    ensures
        0 <= v.vested_at(now) <= v.total_amount,
        now == v.start ==> v.vested_at(now) == 0,
        now >= v.end() ==> v.vested_at(now) == v.total_amount,
{
    if now < v.end() {
        lemma_share_bounds(
            v.total_amount as int,
            now - v.start,
            now - v.start,
            v.duration as int,
        );
        if now == v.start {
            assert(now - v.start == 0);
            vstd::arithmetic::mul::lemma_mul_basics(v.total_amount as int);
        }
    }
}

/// The vested amount never decreases with time.
pub proof fn lemma_vested_monotone(v: Vesting, t1: i64, t2: i64)
    requires
        v.wf(),
        v.start <= t1 <= t2,
    ensures
        v.vested_at(t1) <= v.vested_at(t2),
{
    lemma_vested_bounds(v, t1);
    if t2 < v.end() {
        lemma_share_bounds(v.total_amount as int, t1 - v.start, t2 - v.start, v.duration as int);
    }
}

/// Before the cliff every claim is refused as early.
pub proof fn lemma_no_claim_before_cliff(v: Vesting, now: i64)
    requires
        now < v.cliff,
    ensures
        claim_outcome(v, now) == Err::<u64, VestingError>(VestingError::InvalidClaimBeforeCliff),
{
}

/// A successful claim pays a positive amount, brings `total_claimed` up to
/// what has vested, and keeps the state well formed.
pub proof fn lemma_claim_keeps_well_formed(v: Vesting, now: i64)
    requires
        v.wf(),
        claim_outcome(v, now) is Ok,
    ensures
        ({
            let amount = claim_outcome(v, now)->Ok_0;
            &&& amount > 0
            &&& v.after_claim(amount).total_claimed == v.vested_at(now)
            &&& v.after_claim(amount).wf()
        }),
{
    lemma_vested_bounds(v, now);
}

/// A second claim at the same time finds nothing new.
pub proof fn lemma_no_double_claim(v: Vesting, now: i64)
    requires
        v.wf(),
        claim_outcome(v, now) is Ok,
    ensures
        claim_outcome(v.after_claim(claim_outcome(v, now)->Ok_0), now) == Err::<u64, VestingError>(
            VestingError::InvalidClaimAmount,
        ),
{
    lemma_vested_bounds(v, now);
}

/// After a successful claim, a claim at the same time or later is either paid
/// or finds nothing new: it is never refused as early, as overflowing or as
/// underflowing.
pub proof fn lemma_later_claim_not_refused_otherwise(v: Vesting, t1: i64, t2: i64)
    requires
        v.wf(),
        claim_outcome(v, t1) is Ok,
        t1 <= t2,
    ensures
        ({
            let w = v.after_claim(claim_outcome(v, t1)->Ok_0);
            claim_outcome(w, t2) is Ok || claim_outcome(w, t2) == Err::<u64, VestingError>(
                VestingError::InvalidClaimAmount,
            )
        }),
{
    lemma_vested_monotone(v, t1, t2);
}

/// A successful claim from the end of the schedule on pays out everything that
/// is left, after which nothing more can be claimed.
pub proof fn lemma_claim_after_end_drains(v: Vesting, now: i64, later: i64)
    requires
        v.wf(),
        now >= v.end(),
        claim_outcome(v, now) is Ok,
    ensures
        claim_outcome(v, now)->Ok_0 == v.total_amount - v.total_claimed,
        v.after_claim(claim_outcome(v, now)->Ok_0).total_claimed == v.total_amount,
        claim_outcome(v.after_claim(claim_outcome(v, now)->Ok_0), later) is Err,
{
    let w = v.after_claim(claim_outcome(v, now)->Ok_0);
    if later >= v.cliff {
        lemma_vested_bounds(w, later);
    }
}

/// The state after a claim at `now`: what `handle_claim` leaves.
pub open spec fn claim_step(v: Vesting, now: i64) -> Vesting {
    match claim_outcome(v, now) {
        Ok(amount) => v.after_claim(amount),
        Err(_) => v,
    }
}

/// What a claim at `now` pays out.
pub open spec fn claim_payment(v: Vesting, now: i64) -> int {
    match claim_outcome(v, now) {
        Ok(amount) => amount as int,
        Err(_) => 0,
    }
}

/// The state after claims at each of `times` in turn.
pub open spec fn claims_state(v: Vesting, times: Seq<i64>) -> Vesting
    decreases times.len(),
{
    if times.len() == 0 {
        v
    } else {
        claim_step(claims_state(v, times.drop_last()), times.last())
    }
}

/// All that claims at each of `times` in turn pay out.
pub open spec fn claims_paid(v: Vesting, times: Seq<i64>) -> int
    decreases times.len(),
{
    if times.len() == 0 {
        0
    } else {
        claims_paid(v, times.drop_last()) + claim_payment(
            claims_state(v, times.drop_last()),
            times.last(),
        )
    }
}

/// Over any sequence of claims, at whatever times, the state stays well
/// formed, the schedule itself is unchanged, and what is paid out is exactly
/// the growth of `total_claimed`, so never more than was locked.
pub proof fn lemma_claims_conserve_tokens(v: Vesting, times: Seq<i64>)
    requires
        v.wf(),
    ensures
        ({
            let w = claims_state(v, times);
            &&& w.wf()
            &&& w == Vesting { total_claimed: w.total_claimed, ..v }
            &&& claims_paid(v, times) == w.total_claimed - v.total_claimed
            &&& claims_paid(v, times) <= v.total_amount - v.total_claimed
        }),
    decreases times.len(),
{
    if times.len() > 0 {
        let prev = times.drop_last();
        lemma_claims_conserve_tokens(v, prev);
        let u = claims_state(v, prev);
        if claim_outcome(u, times.last()) is Ok {
            lemma_claim_keeps_well_formed(u, times.last());
        }
    }
}

/// Claims ending with one at or after the end of the schedule pay out, in all,
/// everything that was not yet claimed.
pub proof fn lemma_final_claim_pays_everything(v: Vesting, times: Seq<i64>)
    requires
        v.wf(),
        times.len() > 0,
        times.last() >= v.end(),
    ensures
        claims_state(v, times).total_claimed == v.total_amount,
        claims_paid(v, times) == v.total_amount - v.total_claimed,
{
    let prev = times.drop_last();
    lemma_claims_conserve_tokens(v, prev);
    lemma_claims_conserve_tokens(v, times);
    let u = claims_state(v, prev);
    lemma_vested_bounds(u, times.last());
}

/// Creation, stated on the arguments themselves: a positive amount, a positive
/// duration up to `i64::MAX`, and a cliff between `start` and an end
/// `start + duration` that fits in `i64` are accepted, whatever their size;
/// whatever is accepted has these properties; and each refusal comes with the
/// error of the first check that fails.
pub proof fn law_create_on_arguments(amount: u64, start: i64, cliff: i64, duration: u64)
    ensures
        (amount > 0 && start <= cliff && 0 < duration && duration <= i64::MAX && cliff <= start
            + duration && start + duration <= i64::MAX) ==> create_outcome(
            amount,
            start,
            cliff,
            duration,
        ) == Ok::<(), VestingError>(()),
        create_outcome(amount, start, cliff, duration) is Ok ==> (amount > 0 && start <= cliff && 0
            < duration && duration <= i64::MAX && cliff <= start + duration && start + duration
            <= i64::MAX),
        amount == 0 ==> create_outcome(amount, start, cliff, duration) == Err::<(), VestingError>(
            VestingError::InvalidArguments,
        ),
        (amount > 0 && cliff < start) ==> create_outcome(amount, start, cliff, duration) == Err::<
            (),
            VestingError,
        >(VestingError::InvalidArguments),
        (amount > 0 && start <= cliff && duration == 0) ==> create_outcome(
            amount,
            start,
            cliff,
            duration,
        ) == Err::<(), VestingError>(VestingError::InvalidArguments),
        (amount > 0 && start <= cliff && duration <= i64::MAX && start + duration > i64::MAX) ==> create_outcome(
            amount,
            start,
            cliff,
            duration,
        ) == Err::<(), VestingError>(VestingError::Overflow),
        (amount > 0 && start <= cliff && duration <= i64::MAX && start + duration <= i64::MAX
            && cliff > start + duration) ==> create_outcome(amount, start, cliff, duration) == Err::<
            (),
            VestingError,
        >(VestingError::InvalidArguments),
        (amount > 0 && start <= cliff && duration > i64::MAX) ==> create_outcome(
            amount,
            start,
            cliff,
            duration,
        ) is Err,
{
}

/// `duration as i64`, stated on the number: durations up to `i64::MAX` keep
/// their value, larger ones lose 2^64.
pub proof fn law_duration_as_i64(d: u64)
    ensures
        d <= i64::MAX ==> duration_as_i64(d) == d,
        d > i64::MAX ==> duration_as_i64(d) == d - 0x1_0000_0000_0000_0000,
{
}

/// Claiming from a schedule created with valid arguments, stated on its fields:
/// before the cliff it is refused as early; from the cliff on, with
/// `vested` the whole `total_amount` from `start + duration` on and
/// `total_amount * (now - start) / duration` before, it pays exactly
/// `vested - total_claimed` whenever that is positive, finds nothing new when
/// it is zero, and underflows when it is negative.
pub proof fn law_claim_on_fields(v: Vesting, now: i64)
    requires
        v.start <= v.cliff,
        0 < v.duration <= i64::MAX,
        v.cliff <= v.start + v.duration <= i64::MAX,
        v.total_claimed <= v.total_amount,
    ensures
        now < v.cliff ==> claim_outcome(v, now) == Err::<u64, VestingError>(
            VestingError::InvalidClaimBeforeCliff,
        ),
        ({
            let vested: int = if now >= v.start + v.duration {
                v.total_amount as int
            } else {
                (v.total_amount * (now - v.start)) / (v.duration as int)
            };
            &&& (now >= v.cliff && vested > v.total_claimed) ==> claim_outcome(v, now) == Ok::<
                u64,
                VestingError,
            >((vested - v.total_claimed) as u64)
            &&& (now >= v.cliff && vested > v.total_claimed) ==> 0 < vested - v.total_claimed
                <= v.total_amount - v.total_claimed
            &&& (now >= v.cliff && vested == v.total_claimed) ==> claim_outcome(v, now) == Err::<
                u64,
                VestingError,
            >(VestingError::InvalidClaimAmount)
            &&& (now >= v.cliff && vested < v.total_claimed) ==> claim_outcome(v, now) == Err::<
                u64,
                VestingError,
            >(VestingError::Underflow)
            &&& now >= v.start + v.duration ==> vested == v.total_amount
            &&& now >= v.cliff ==> 0 <= vested <= v.total_amount
        }),
{
    if now >= v.cliff {
        lemma_vested_bounds(v, now);
    }
}

/// Claiming when the end `start + (duration as i64)` does not fit in `i64`:
/// from the cliff on, the claim is refused as overflowing.
pub proof fn law_claim_end_overflow(v: Vesting, now: i64)
    requires
        now >= v.cliff,
        v.duration <= i64::MAX ==> v.start + v.duration > i64::MAX,
        v.duration > i64::MAX ==> v.start + v.duration - 0x1_0000_0000_0000_0000 < i64::MIN,
    ensures
        claim_outcome(v, now) == Err::<u64, VestingError>(VestingError::Overflow),
{
}

/// The seeds of a vesting account, stated on the addresses themselves: the
/// ASCII bytes of "vesting", the creator's, the beneficiary's and the mint's
/// 32 bytes each in their own order, and the id's 8 little-endian bytes,
/// from which the id is read back.
pub proof fn law_seed_layout(creator: Pubkey, beneficiary: Pubkey, mint: Pubkey, id: u64)
    ensures
        vesting_seeds(creator, beneficiary, mint, id).len() == 5,
        vesting_seeds(creator, beneficiary, mint, id)[0] == seq![
            118u8,
            101u8,
            115u8,
            116u8,
            105u8,
            110u8,
            103u8,
        ],
        vesting_seeds(creator, beneficiary, mint, id)[1] == creator.bytes@,
        vesting_seeds(creator, beneficiary, mint, id)[2] == beneficiary.bytes@,
        vesting_seeds(creator, beneficiary, mint, id)[3] == mint.bytes@,
        forall|i: int|
            0 <= i < 32 ==> #[trigger] vesting_seeds(creator, beneficiary, mint, id)[1][i]
                == creator.bytes[i],
        vesting_seeds(creator, beneficiary, mint, id)[4] == spec_u64_to_le_bytes(id),
        vstd::bytes::spec_u64_from_le_bytes(vesting_seeds(creator, beneficiary, mint, id)[4])
            == id,
{
    vstd::bytes::lemma_auto_spec_u64_to_from_le_bytes();
}

} // verus!
