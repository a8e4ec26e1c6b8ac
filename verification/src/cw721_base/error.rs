//! Reasons for which the base token contract refuses a transition.

use vstd::prelude::*;
use crate::host::StdError;

verus! {

#[derive(Debug, Clone, PartialEq, Eq)]
pub enum ContractError {
    /// A failure of the host or of the storage layer.
    Std(StdError),
    Unauthorized {},
    /// The token identifier is taken.
    Claimed {},
    /// An approval that has expired already.
    Expired {},
    ApprovalNotFound { spender: String },
    CreatorsTooShort {},
    CreatorsTooLong {},
    CreatorsMustBeAtleastOne {},
    /// The seller fee exceeds 10000 basis points.
    SellerFeeBasisPointsTooHigh {},
    CreatorShareTotalMustBe100 {},
    DuplicateCreatorAddress {},
}

impl ContractError {
    /// The refusal in words.
    pub open spec fn message(&self) -> Seq<char> {
        match self {
            ContractError::Std(e) => e.message(),
            ContractError::Unauthorized {} => "Unauthorized"@,
            ContractError::Claimed {} => "token_id already claimed"@,
            ContractError::Expired {} => "Cannot set approval that is already expired"@,
            ContractError::ApprovalNotFound { spender } => "Approval not found for: "@ + spender@,
            ContractError::CreatorsTooShort {} => "Creators list must be at least 1"@,
            ContractError::CreatorsTooLong {} => "Creators list too long"@,
            ContractError::CreatorsMustBeAtleastOne {} => "Creators must be at least one if set"@,
            ContractError::SellerFeeBasisPointsTooHigh {} => {
                "Basis points in seller fee cannot exceed 10000"@
            },
            ContractError::CreatorShareTotalMustBe100 {} => "Creator shares must sum to 100"@,
            ContractError::DuplicateCreatorAddress {} => "No duplicate creator addresses allowed"@,
        }
    }

    pub fn to_string(&self) -> (s: String)
        ensures
            s@ == self.message(),
    {
        match self {
            ContractError::Std(e) => e.to_string(),
            ContractError::Unauthorized {} => String::from_str("Unauthorized"),
            ContractError::Claimed {} => String::from_str("token_id already claimed"),
            ContractError::Expired {} => String::from_str(
                "Cannot set approval that is already expired",
            ),
            ContractError::ApprovalNotFound { spender } => {
                String::from_str("Approval not found for: ").concat(spender.as_str())
            },
            ContractError::CreatorsTooShort {} => String::from_str(
                "Creators list must be at least 1",
            ),
            ContractError::CreatorsTooLong {} => String::from_str("Creators list too long"),
            ContractError::CreatorsMustBeAtleastOne {} => String::from_str(
                "Creators must be at least one if set",
            ),
            ContractError::SellerFeeBasisPointsTooHigh {} => String::from_str(
                "Basis points in seller fee cannot exceed 10000",
            ),
            ContractError::CreatorShareTotalMustBe100 {} => String::from_str(
                "Creator shares must sum to 100",
            ),
            ContractError::DuplicateCreatorAddress {} => String::from_str(
                "No duplicate creator addresses allowed",
            ),
        }
    }
}

} // verus!
