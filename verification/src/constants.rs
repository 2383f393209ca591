use vstd::prelude::*;

verus! {

/// First seed of every vesting account address: the ASCII bytes of "vesting".
pub const VESTING_SEED: [u8; 7] = [118u8, 101u8, 115u8, 116u8, 105u8, 110u8, 103u8];

} // verus!
