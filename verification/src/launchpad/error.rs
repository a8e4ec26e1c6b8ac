//! Reasons for which the single-price launchpad refuses a transition.

use vstd::prelude::*;
use crate::host::StdError;

verus! {

#[derive(Debug, Clone, PartialEq, Eq)]
pub enum ContractError {
    /// A failure of the host or of the storage layer.
    Std(StdError),
    Unauthorized {},
    /// A reply carried an identifier that no request of this contract uses.
    UnknownReplyId {},
    /// The token contract could not be created, or its reply was unreadable.
    InstantiateContractError {},
    /// A price of zero.
    InvalidUnitPrice {},
    /// A sale of no token.
    InvalidNftLimit {},
    BS721AlreadyLinked {},
}

impl ContractError {
    /// The refusal in words.
    pub open spec fn message(&self) -> Seq<char> {
        match self {
            ContractError::Std(e) => e.message(),
            ContractError::Unauthorized {} => "Unauthorized"@,
            ContractError::UnknownReplyId {} => "Unknown reply id"@,
            ContractError::InstantiateContractError {} => "Instantiate contract error"@,
            ContractError::InvalidUnitPrice {} => "InvalidUnitPrice"@,
            ContractError::InvalidNftLimit {} => "InvalidNftLimit"@,
            ContractError::BS721AlreadyLinked {} => "BS721AlreadyLinked"@,
        }
    }

    pub fn to_string(&self) -> (s: String)
        ensures
            s@ == self.message(),
    {
        match self {
            ContractError::Std(e) => e.to_string(),
            ContractError::Unauthorized {} => String::from_str("Unauthorized"),
            ContractError::UnknownReplyId {} => String::from_str("Unknown reply id"),
            ContractError::InstantiateContractError {} => String::from_str(
                "Instantiate contract error",
            ),
            ContractError::InvalidUnitPrice {} => String::from_str("InvalidUnitPrice"),
            ContractError::InvalidNftLimit {} => String::from_str("InvalidNftLimit"),
            ContractError::BS721AlreadyLinked {} => String::from_str("BS721AlreadyLinked"),
        }
    }
}

} // verus!
