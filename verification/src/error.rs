use vstd::prelude::*;

verus! {

/// Why a request was rejected. Every rejection leaves the ledger untouched.
#[derive(Clone, Copy, Debug, PartialEq, Eq, Structural)]
pub enum ContractError {
    /// The caller lacks the capability the operation needs.
    Unauthorized,
    /// An amount was zero where a positive one is required.
    InvalidZeroAmount,
    /// An addition would leave the 128-bit range.
    Overflow,
    /// A mint would push the total supply above the configured cap.
    CannotExceedCap,
    /// A balance is smaller than the amount to move or burn.
    InsufficientFunds,
    /// The live allowance is smaller than the amount to spend.
    InsufficientAllowance,
}

impl ContractError {
    /// The stable, machine-readable name of the error kind.
    pub fn name(&self) -> (s: &'static str)
        ensures
            s@ == match *self {
                ContractError::Unauthorized => "Unauthorized"@,
                ContractError::InvalidZeroAmount => "InvalidZeroAmount"@,
                ContractError::Overflow => "Overflow"@,
                ContractError::CannotExceedCap => "CannotExceedCap"@,
                ContractError::InsufficientFunds => "InsufficientFunds"@,
                ContractError::InsufficientAllowance => "InsufficientAllowance"@,
            },
    {
        match self {
            ContractError::Unauthorized => "Unauthorized",
            ContractError::InvalidZeroAmount => "InvalidZeroAmount",
            ContractError::Overflow => "Overflow",
            ContractError::CannotExceedCap => "CannotExceedCap",
            ContractError::InsufficientFunds => "InsufficientFunds",
            ContractError::InsufficientAllowance => "InsufficientAllowance",
        }
    }
}

} // verus!
