use vstd::prelude::*;

verus! {

/// Why an instruction was refused.
#[derive(Debug, Clone, Copy, PartialEq, Eq, Structural)]
pub enum VestingError {
    InvalidArguments,
    InvalidClaimBeforeCliff,
    InvalidClaimAmount,
    Overflow,
    Underflow,
}

impl VestingError {
    /// The human-readable message attached to each error.
    pub fn message(&self) -> (r: &'static str)
        ensures
            r@ == match *self {
                VestingError::InvalidArguments => "Invalid arguments"@,
                VestingError::InvalidClaimBeforeCliff => "Invalid claim before cliff"@,
                VestingError::InvalidClaimAmount => "Invalid claim amount"@,
                VestingError::Overflow => "Overflow"@,
                VestingError::Underflow => "Underflow"@,
            },
    {
        match self {
            VestingError::InvalidArguments => "Invalid arguments",
            VestingError::InvalidClaimBeforeCliff => "Invalid claim before cliff",
            VestingError::InvalidClaimAmount => "Invalid claim amount",
            VestingError::Overflow => "Overflow",
            VestingError::Underflow => "Underflow",
        }
    }
}

} // verus!
