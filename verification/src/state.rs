use vstd::arithmetic::div_mod::{lemma_div_by_multiple, lemma_div_is_ordered, lemma_div_pos_is_pos};
use vstd::arithmetic::mul::{lemma_mul_inequality, lemma_mul_is_commutative, lemma_mul_nonnegative};
use vstd::bytes::{spec_u64_to_le_bytes, u64_to_le_bytes};
use vstd::prelude::*;

use crate::constants::VESTING_SEED;

verus! {

/// The 32 bytes of an account address.
#[derive(Debug, Clone, Copy, PartialEq, Eq)]
pub struct Pubkey {
    pub bytes: [u8; 32],
}

/// The state of one vesting schedule.
#[derive(Debug, Clone, Copy, PartialEq, Eq)]
pub struct Vesting {
    pub id: u64,
    pub creator: Pubkey,
    pub beneficiary: Pubkey,
    pub mint: Pubkey,
    pub total_amount: u64,
    pub total_claimed: u64,
    pub start: i64,
    pub cliff: i64,
    pub duration: u64,
    pub bump: u8,
}

/// Whether `x` is a value of `i64`.
pub open spec fn fits_i64(x: int) -> bool {
    i64::MIN <= x <= i64::MAX
}

/// A duration read as a signed 64-bit number (two's complement), as
/// `duration as i64` does.
pub open spec fn duration_as_i64(d: u64) -> int {
    if d <= i64::MAX {
        d as int
    } else {
        d - 0x1_0000_0000_0000_0000
    }
}

/// `duration as i64`.
pub fn duration_to_i64(d: u64) -> (r: i64)
    ensures
        r == duration_as_i64(d),
        d <= 0x7fff_ffff_ffff_ffff ==> r == d,
        d > 0x7fff_ffff_ffff_ffff ==> r == d - 0x1_0000_0000_0000_0000,
{
    if d <= 0x7fff_ffff_ffff_ffff {
        d as i64
    } else {
        let r: i64 = d as i64;
        assert(d > 0x7fff_ffff_ffff_ffff ==> r == d - 0x1_0000_0000_0000_0000) by (bit_vector)
            requires
                r == d as i64,
        ;
        r
    }
}

/// The end of a schedule: `start + (duration as i64)`, as a mathematical integer.
pub open spec fn schedule_end(start: i64, duration: u64) -> int {
    start + duration_as_i64(duration)
}

/// The arguments of a schedule that `handle_create` accepts.
pub open spec fn schedule_valid(start: i64, cliff: i64, duration: u64) -> bool {
    &&& start <= cliff
    &&& 0 < duration <= i64::MAX
    &&& cliff <= start + duration <= i64::MAX
}

impl Vesting {
    /// The state that `handle_create` leads to and that `handle_claim` keeps:
    /// the cliff lies within the schedule, the schedule ends within `i64`, and no
    /// more has been claimed than was locked.
    pub open spec fn wf(self) -> bool {
        &&& schedule_valid(self.start, self.cliff, self.duration)
        &&& self.total_claimed <= self.total_amount
    }

    /// The end of the schedule.
    pub open spec fn end(self) -> int {
        schedule_end(self.start, self.duration)
    }

    /// The amount vested at time `now`: everything from the end of the schedule
    /// on, and before it the share of `total_amount` that the time elapsed since
    /// `start` is of `duration`, rounded down.
    pub open spec fn vested_at(self, now: i64) -> int {
        if now >= self.end() {
            self.total_amount as int
        } else {
            (self.total_amount * (now - self.start)) / (self.duration as int)
        }
    }

    /// The state after `amount` more has been claimed.
    pub open spec fn after_claim(self, amount: u64) -> Vesting {
        Vesting { total_claimed: (self.total_claimed + amount) as u64, ..self }
    }

    /// A fresh schedule with nothing claimed yet.
    pub fn new(
        id: u64,
        creator: Pubkey,
        beneficiary: Pubkey,
        mint: Pubkey,
        total_amount: u64,
        start: i64,
        cliff: i64,
        duration: u64,
        bump: u8,
    ) -> (v: Vesting)
        ensures
            v.id == id,
            v.creator == creator,
            v.beneficiary == beneficiary,
            v.mint == mint,
            v.total_amount == total_amount,
            v.total_claimed == 0,
            v.start == start,
            v.cliff == cliff,
            v.duration == duration,
            v.bump == bump,
            schedule_valid(start, cliff, duration) ==> v.wf(),
    {
        Vesting {
            id,
            creator,
            beneficiary,
            mint,
            total_amount,
            total_claimed: 0,
            start,
            cliff,
            duration,
            bump,
        }
    }
}

impl Pubkey {
    /// The address as a byte vector.
    pub fn to_vec(&self) -> (r: Vec<u8>)
        ensures
            r@ == self.bytes@,
    {
        broadcast use vstd::array::group_array_axioms;

        vstd::slice::slice_to_vec(self.bytes.as_slice())
    }
}

/// The contents of a list of byte vectors.
pub open spec fn byte_seqs(v: Seq<Vec<u8>>) -> Seq<Seq<u8>> {
    v.map_values(|b: Vec<u8>| b@)
}

/// The seeds from which the address of the vesting account of `creator`,
/// `beneficiary`, `mint` and `id` is derived.
pub open spec fn vesting_seeds(creator: Pubkey, beneficiary: Pubkey, mint: Pubkey, id: u64) -> Seq<
    Seq<u8>,
> {
    seq![VESTING_SEED@, creator.bytes@, beneficiary.bytes@, mint.bytes@, spec_u64_to_le_bytes(id)]
}

/// The seeds of the vesting account address: `VESTING_SEED`, the three
/// addresses, and `id` in little-endian bytes.
pub fn seeds(creator: &Pubkey, beneficiary: &Pubkey, mint: &Pubkey, id: u64) -> (r: Vec<Vec<u8>>)
    ensures
        byte_seqs(r@) == vesting_seeds(*creator, *beneficiary, *mint, id),
        r@.len() == 5,
        r@[0]@ == seq![118u8, 101u8, 115u8, 116u8, 105u8, 110u8, 103u8],
        r@[1]@ == creator.bytes@,
        r@[2]@ == beneficiary.bytes@,
        r@[3]@ == mint.bytes@,
        r@[4]@ == spec_u64_to_le_bytes(id),
        r@[4]@.len() == 8,
        vstd::bytes::spec_u64_from_le_bytes(r@[4]@) == id,
{
    proof {
        vstd::bytes::lemma_auto_spec_u64_to_from_le_bytes();
    }
    broadcast use vstd::array::group_array_axioms;

    let mut r: Vec<Vec<u8>> = Vec::new();
    r.push(vstd::slice::slice_to_vec(VESTING_SEED.as_slice()));
    r.push(creator.to_vec());
    r.push(beneficiary.to_vec());
    r.push(mint.to_vec());
    r.push(u64_to_le_bytes(id));
    assert(byte_seqs(r@) =~= vesting_seeds(*creator, *beneficiary, *mint, id));
    r
}

impl Vesting {
    /// The seeds with which the vesting account signs: those of its address,
    /// then its bump.
    pub fn signer_seeds(&self) -> (r: Vec<Vec<u8>>)
        ensures
            byte_seqs(r@) == vesting_seeds(self.creator, self.beneficiary, self.mint, self.id).push(
                seq![self.bump],
            ),
            r@.len() == 6,
            r@[0]@ == seq![118u8, 101u8, 115u8, 116u8, 105u8, 110u8, 103u8],
            r@[1]@ == self.creator.bytes@,
            r@[2]@ == self.beneficiary.bytes@,
            r@[3]@ == self.mint.bytes@,
            r@[4]@ == spec_u64_to_le_bytes(self.id),
            r@[5]@ == seq![self.bump],
    {
        let mut r = seeds(&self.creator, &self.beneficiary, &self.mint, self.id);
        let mut last: Vec<u8> = Vec::new();
        last.push(self.bump);
        r.push(last);
        assert(byte_seqs(r@) =~= vesting_seeds(self.creator, self.beneficiary, self.mint, self.id).push(
            seq![self.bump],
        ));
        r
    }
}

/// A share `total * elapsed / d` with `elapsed` between 0 and `d` lies between
/// 0 and `total`, and grows with `elapsed`.
pub proof fn lemma_share_bounds(total: int, e1: int, e2: int, d: int)
    requires
        total >= 0,
        0 <= e1 <= e2 <= d,
        d > 0,
    ensures
        0 <= (total * e1) / d <= (total * e2) / d <= total,
{
    lemma_mul_nonnegative(total, e1);
    lemma_div_pos_is_pos(total * e1, d);
    lemma_mul_inequality(e1, e2, total);
    lemma_mul_inequality(e2, d, total);
    lemma_mul_is_commutative(e1, total);
    lemma_mul_is_commutative(e2, total);
    lemma_mul_is_commutative(d, total);
    lemma_div_is_ordered(total * e1, total * e2, d);
    lemma_div_is_ordered(total * e2, total * d, d);
    lemma_div_by_multiple(total, d);
}

} // verus!
