//! Requests of the base token contract.

use vstd::prelude::*;

verus! {

/// Setup request of the base token contract.
#[derive(Debug, Clone, PartialEq, Eq)]
pub struct InstantiateMsg {
    /// Name of the collection.
    pub name: String,
    /// Symbol of the collection.
    pub symbol: String,
    /// The only account that may create tokens.
    pub minter: String,
}

} // verus!
