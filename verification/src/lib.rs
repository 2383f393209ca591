//! Token vesting: a creator locks an amount of tokens for a beneficiary, which
//! becomes claimable after a cliff and vests linearly until the end of the
//! schedule. This crate holds the schedule arithmetic and the decisions of the
//! two instructions, with their contracts; moving tokens is left to the caller.
pub mod constants;
pub mod error;
pub mod instructions;
pub mod laws;
pub mod state;

pub use constants::VESTING_SEED;
pub use error::VestingError;
pub use instructions::claim::handle_claim;
pub use instructions::create::handle_create;
pub use state::{Pubkey, Vesting};
