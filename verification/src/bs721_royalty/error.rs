//! Reasons for which the royalty splitter refuses a transition.

use vstd::prelude::*;
use crate::host::StdError;
use crate::text::{decimal, u128_to_string};

verus! {

#[derive(Debug, Clone, PartialEq, Eq)]
pub enum ContractError {
    /// A failure of the host or of the storage layer.
    Std(StdError),
    /// The caller is no member of the group.
    Unauthorized {},
    /// The contract holds nothing to pay out.
    NoCoins {},
    /// The group's address is not a valid address.
    InvalidCw4 { addr: String },
    /// A weight of zero where a positive one is needed.
    InvalidCw4TotalWeight { weight: u64 },
}

impl ContractError {
    /// The refusal in words.
    pub open spec fn message(&self) -> Seq<char> {
        match self {
            ContractError::Std(e) => e.message(),
            ContractError::Unauthorized {} => "Unauthorized"@,
            ContractError::NoCoins {} => "Contract has no coins"@,
            ContractError::InvalidCw4 { addr } => "Invalid cw4 address '"@ + addr@ + "'"@,
            ContractError::InvalidCw4TotalWeight { weight } => {
                "Invalid cw4 total weight '"@
                    + decimal(*weight as nat)
                    + "'"@
            },
        }
    }

    pub fn to_string(&self) -> (s: String)
        ensures
            s@ == self.message(),
    {
        match self {
            ContractError::Std(e) => e.to_string(),
            ContractError::Unauthorized {} => String::from_str("Unauthorized"),
            ContractError::NoCoins {} => String::from_str("Contract has no coins"),
            ContractError::InvalidCw4 { addr } => {
                String::from_str("Invalid cw4 address '").concat(addr.as_str()).concat("'")
            },
            ContractError::InvalidCw4TotalWeight { weight } => {
                String::from_str("Invalid cw4 total weight '")
                    .concat(u128_to_string(*weight as u128).as_str())
                    .concat("'")
            },
        }
    }
}

} // verus!
