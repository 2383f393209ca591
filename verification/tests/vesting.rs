use vesting::instructions::claim::handle_claim;
use vesting::instructions::create::handle_create;
use vesting::state::{duration_to_i64, seeds, Pubkey, Vesting};
use vesting::{VestingError, VESTING_SEED};

fn key(b: u8) -> Pubkey {
    Pubkey { bytes: [b; 32] }
}

fn schedule(total: u64, start: i64, cliff: i64, duration: u64) -> Vesting {
    Vesting::new(7, key(1), key(2), key(3), total, start, cliff, duration, 255)
}

#[test]
fn test_vesting() {
    let current_time: i64 = 1_700_000_000;
    let creator = key(1);
    let beneficiary = key(2);
    let mint = key(3);

    let id = 1u64;
    let amount = 100_000_000_000u64;
    let start = current_time;
    let cliff = current_time + 60 * 60;
    let duration = 60 * 60 * 4;
    let vesting_bump = 254u8;

    assert_eq!(handle_create(amount, start, cliff, duration), Ok(()));
    let mut vesting_state =
        Vesting::new(id, creator, beneficiary, mint, amount, start, cliff, duration, vesting_bump);
    assert_eq!(vesting_state.id, id);
    assert_eq!(vesting_state.creator, creator);
    assert_eq!(vesting_state.beneficiary, beneficiary);
    assert_eq!(vesting_state.mint, mint);
    assert_eq!(vesting_state.total_amount, amount);
    assert_eq!(vesting_state.total_claimed, 0);
    assert_eq!(vesting_state.start, start);
    assert_eq!(vesting_state.cliff, cliff);
    assert_eq!(vesting_state.duration, duration);
    assert_eq!(vesting_state.bump, vesting_bump);

    let res = handle_claim(&mut vesting_state, current_time);
    assert!(res.is_err());

    let mut received = 0u64;
    let first = handle_claim(&mut vesting_state, cliff + 1).unwrap();
    assert_eq!(first, 25_006_944_444);
    received += first;
    assert!(received > 0);

    let second = handle_claim(&mut vesting_state, cliff + duration as i64 + 1).unwrap();
    received += second;
    assert_eq!(received, amount);
}

#[test]
fn create_accepts_valid_schedule() {
    assert_eq!(handle_create(1, 0, 0, 1), Ok(()));
    assert_eq!(handle_create(5, -100, 0, 100), Ok(()));
    assert_eq!(handle_create(5, i64::MAX - 10, i64::MAX, 10), Ok(()));
}

#[test]
fn create_rejects_zero_amount() {
    assert_eq!(handle_create(0, 0, 10, 100), Err(VestingError::InvalidArguments));
}

#[test]
fn create_rejects_cliff_before_start() {
    assert_eq!(handle_create(10, 100, 99, 100), Err(VestingError::InvalidArguments));
}

#[test]
fn create_rejects_cliff_after_end() {
    assert_eq!(handle_create(10, 100, 201, 100), Err(VestingError::InvalidArguments));
}

#[test]
fn create_rejects_overflowing_end() {
    assert_eq!(handle_create(10, i64::MAX - 5, i64::MAX - 5, 6), Err(VestingError::Overflow));
    assert_eq!(handle_create(10, i64::MIN, i64::MIN, u64::MAX / 2 + 1), Err(VestingError::Overflow));
}

#[test]
fn create_rejects_zero_duration() {
    assert_eq!(handle_create(10, 100, 100, 0), Err(VestingError::InvalidArguments));
}

#[test]
fn create_reads_huge_duration_as_negative() {
    // u64::MAX as i64 is -1, so the end lies before the cliff.
    assert_eq!(handle_create(10, 0, 0, u64::MAX), Err(VestingError::InvalidArguments));
    assert_eq!(duration_to_i64(u64::MAX), -1);
    assert_eq!(duration_to_i64(1 << 63), i64::MIN);
    assert_eq!(duration_to_i64(12345), 12345);
}

#[test]
fn claim_before_cliff_is_refused() {
    let mut v = schedule(1000, 0, 100, 1000);
    let before = v;
    assert_eq!(handle_claim(&mut v, 99), Err(VestingError::InvalidClaimBeforeCliff));
    assert_eq!(v, before);
}

#[test]
fn claim_pro_rata_exact_value() {
    let mut v = schedule(1000, 0, 100, 1000);
    assert_eq!(handle_claim(&mut v, 100), Ok(100));
    assert_eq!(v.total_claimed, 100);
    // 1000 * 333 / 1000 = 333, minus 100 already claimed.
    assert_eq!(handle_claim(&mut v, 333), Ok(233));
    assert_eq!(v.total_claimed, 333);
    // rounding down: 7 * 1 / 3 = 2
    let mut w = schedule(7, 0, 0, 3);
    assert_eq!(handle_claim(&mut w, 1), Ok(2));
    assert_eq!(handle_claim(&mut w, 2), Ok(2));
    assert_eq!(handle_claim(&mut w, 3), Ok(3));
}

#[test]
fn claim_large_amount_does_not_overflow() {
    let mut v = schedule(u64::MAX, 0, 0, i64::MAX as u64);
    assert_eq!(handle_claim(&mut v, i64::MAX - 1), Ok(u64::MAX - 3));
    assert_eq!(handle_claim(&mut v, i64::MAX), Ok(3));
}

#[test]
fn claim_twice_at_same_time_finds_nothing() {
    let mut v = schedule(1000, 0, 0, 1000);
    assert_eq!(handle_claim(&mut v, 500), Ok(500));
    let before = v;
    assert_eq!(handle_claim(&mut v, 500), Err(VestingError::InvalidClaimAmount));
    assert_eq!(v, before);
}

#[test]
fn claim_at_cliff_of_zero_share_is_refused() {
    let mut v = schedule(1000, 0, 0, 1000);
    assert_eq!(handle_claim(&mut v, 0), Err(VestingError::InvalidClaimAmount));
}

#[test]
fn claim_with_overflowing_end_is_refused() {
    let mut v = schedule(1000, i64::MAX, i64::MAX, 1);
    assert_eq!(handle_claim(&mut v, i64::MAX), Err(VestingError::Overflow));
}

#[test]
fn claim_going_back_in_time_underflows() {
    let mut v = schedule(1000, 0, 0, 1000);
    assert_eq!(handle_claim(&mut v, 600), Ok(600));
    assert_eq!(handle_claim(&mut v, 300), Err(VestingError::Underflow));
    assert_eq!(v.total_claimed, 600);
}

#[test]
fn claims_after_end_pay_everything_once() {
    let mut v = schedule(1000, 10, 20, 100);
    let mut paid = 0u64;
    for t in [20i64, 35, 35, 60, 99, 110, 200, 5000] {
        if let Ok(a) = handle_claim(&mut v, t) {
            paid += a;
        }
        assert!(v.total_claimed <= v.total_amount);
        assert_eq!(paid, v.total_claimed);
    }
    assert_eq!(paid, 1000);
    assert_eq!(handle_claim(&mut v, 6000), Err(VestingError::InvalidClaimAmount));
}

#[test]
fn vested_amount_never_decreases() {
    let mut last = 0u64;
    for t in 0..=120i64 {
        let mut v = schedule(997, 0, 0, 100);
        let got = handle_claim(&mut v, t).unwrap_or(0);
        assert!(got >= last);
        assert!(got <= 997);
        last = got;
    }
    assert_eq!(last, 997);
}

#[test]
fn seeds_are_laid_out_in_order() {
    let s = seeds(&key(1), &key(2), &key(3), 0x0102030405060708);
    assert_eq!(s.len(), 5);
    assert_eq!(s[0], VESTING_SEED.to_vec());
    assert_eq!(s[0], b"vesting".to_vec());
    assert_eq!(s[1], vec![1u8; 32]);
    assert_eq!(s[2], vec![2u8; 32]);
    assert_eq!(s[3], vec![3u8; 32]);
    assert_eq!(s[4], vec![8u8, 7, 6, 5, 4, 3, 2, 1]);
    assert_eq!(s[4], 0x0102030405060708u64.to_le_bytes().to_vec());
}

#[test]
fn signer_seeds_end_with_bump() {
    let v = schedule(1, 0, 0, 1);
    let s = v.signer_seeds();
    assert_eq!(s.len(), 6);
    assert_eq!(s[4], 7u64.to_le_bytes().to_vec());
    assert_eq!(s[5], vec![255u8]);
    assert_eq!(s[..5].to_vec(), seeds(&key(1), &key(2), &key(3), 7));
}

#[test]
fn error_messages() {
    assert_eq!(VestingError::InvalidArguments.message(), "Invalid arguments");
    assert_eq!(VestingError::InvalidClaimBeforeCliff.message(), "Invalid claim before cliff");
    assert_eq!(VestingError::InvalidClaimAmount.message(), "Invalid claim amount");
    assert_eq!(VestingError::Overflow.message(), "Overflow");
    assert_eq!(VestingError::Underflow.message(), "Underflow");
}

#[test]
fn pubkey_to_vec_copies_bytes() {
    let mut bytes = [0u8; 32];
    for (i, b) in bytes.iter_mut().enumerate() {
        *b = i as u8;
    }
    let k = Pubkey { bytes };
    assert_eq!(k.to_vec(), bytes.to_vec());
}

#[test]
fn claim_defined_marks_states_that_cannot_be_claimed_from() {
    // Cliff before start: between cliff and start the pro-rata share is undefined.
    let odd = schedule(1000, 100, 0, 1000);
    assert!(!odd.claim_defined(50));
    assert!(odd.claim_defined(-1));
    assert!(odd.claim_defined(100));
    assert!(odd.claim_defined(2000));
    let fine = schedule(1000, 0, 10, 1000);
    for t in [-5i64, 0, 10, 500, 1000, 5000] {
        assert!(fine.claim_defined(t));
    }
}
