//! Reasons for which a launchpad transition is refused.

use vstd::prelude::*;
use crate::host::{Coin, StdError};

verus! {

/// Why a transition was refused. Every refusal leaves the state untouched.
#[derive(Debug, Clone, PartialEq, Eq)]
pub enum ContractError {
    /// A failure of the host or of the storage layer.
    Std(StdError),
    Unauthorized {},
    /// A reply carried an identifier that no request of this contract uses.
    UnknownReplyId {},
    /// The token contract could not be created, or its reply was unreadable.
    InstantiateContractError {},
    /// The token contract has been linked before.
    BS721AlreadyLinked {},
    /// What was paid, and what the stage asks for.
    IncorrectPaymentAmount(Coin, Coin),
    /// The seller fee exceeds 10000 basis points.
    SellerFeeBasisPointsTooHigh {},
    /// No stage was given.
    StageRequired {},
    StageSoldOut {},
    StageNotFound {},
    StageNotBegun {},
    StageExpired {},
    /// A stage with a supply of zero.
    StageInvalidSupply {},
    /// All stages together offer no token.
    StageInvalidMaxSupply {},
    /// A stage window that is empty, lies in the past, or overlaps the
    /// stage before it.
    InvalidDate {},
    /// A price of zero.
    InvalidUnitPrice {},
    WrongLength {},
    VerificationFailed {},
}

impl ContractError {
    /// The refusal in words.
    pub open spec fn message(&self) -> Seq<char> {
        match self {
            ContractError::Std(e) => e.message(),
            ContractError::Unauthorized {} => "Unauthorized"@,
            ContractError::UnknownReplyId {} => "Unknown reply id"@,
            ContractError::InstantiateContractError {} => "Instantiate contract error"@,
            ContractError::BS721AlreadyLinked {} => "BS721AlreadyLinked"@,
            ContractError::IncorrectPaymentAmount(sent, wanted) => {
                "IncorrectPaymentAmount "@
                    + sent.text()
                    + " != "@
                    + wanted.text()
            },
            ContractError::SellerFeeBasisPointsTooHigh {} => {
                "Basis points in seller fee cannot exceed 10000"@
            },
            ContractError::StageRequired {} => "Add at least one stage"@,
            ContractError::StageSoldOut {} => "Stage is sold out!"@,
            ContractError::StageNotFound {} => "Stage not found"@,
            ContractError::StageNotBegun {} => "Stage not begun"@,
            ContractError::StageExpired {} => "Start is expired"@,
            ContractError::StageInvalidSupply {} => "Stage invalid supply"@,
            ContractError::StageInvalidMaxSupply {} => "Stage invalid max supply"@,
            ContractError::InvalidDate {} => "Invalid date"@,
            ContractError::InvalidUnitPrice {} => "InvalidUnitPrice"@,
            ContractError::WrongLength {} => "Wrong length"@,
            ContractError::VerificationFailed {} => "Verification failed"@,
        }
    }

    pub fn to_string(&self) -> (s: String)
        ensures
            s@ == self.message(),
    {
        match self {
            ContractError::Std(e) => e.to_string(),
            ContractError::Unauthorized {} => String::from_str("Unauthorized"),
            ContractError::UnknownReplyId {} => String::from_str("Unknown reply id"),
            ContractError::InstantiateContractError {} => String::from_str(
                "Instantiate contract error",
            ),
            ContractError::BS721AlreadyLinked {} => String::from_str("BS721AlreadyLinked"),
            ContractError::IncorrectPaymentAmount(sent, wanted) => {
                String::from_str("IncorrectPaymentAmount ")
                    .concat(sent.to_string().as_str())
                    .concat(" != ")
                    .concat(wanted.to_string().as_str())
            },
            ContractError::SellerFeeBasisPointsTooHigh {} => String::from_str(
                "Basis points in seller fee cannot exceed 10000",
            ),
            ContractError::StageRequired {} => String::from_str("Add at least one stage"),
            ContractError::StageSoldOut {} => String::from_str("Stage is sold out!"),
            ContractError::StageNotFound {} => String::from_str("Stage not found"),
            ContractError::StageNotBegun {} => String::from_str("Stage not begun"),
            ContractError::StageExpired {} => String::from_str("Start is expired"),
            ContractError::StageInvalidSupply {} => String::from_str("Stage invalid supply"),
            ContractError::StageInvalidMaxSupply {} => String::from_str("Stage invalid max supply"),
            ContractError::InvalidDate {} => String::from_str("Invalid date"),
            ContractError::InvalidUnitPrice {} => String::from_str("InvalidUnitPrice"),
            ContractError::WrongLength {} => String::from_str("Wrong length"),
            ContractError::VerificationFailed {} => String::from_str("Verification failed"),
        }
    }
}

} // verus!
