//! Requests and responses of the royalty splitter.

use vstd::prelude::*;
use crate::bs721_royalty::state::Config;

verus! {

#[derive(Debug, Clone, PartialEq, Eq)]
pub struct InstantiateMsg {
    /// Address of the group whose members are paid.
    pub cw4_address: String,
}

#[derive(Debug, Clone, Copy, PartialEq, Eq, Structural)]
pub enum ExecuteMsg {
    /// Pays the held balances out to the members.
    PayMembers {},
}

#[derive(Debug, Clone, PartialEq, Eq)]
pub enum QueryMsg {
    Config {},
    Member { address: String },
    AllMembers { start_after: Option<String>, limit: Option<u32> },
}

#[derive(Debug, Clone, PartialEq, Eq)]
pub struct ConfigResponse {
    pub config: Config,
}

} // verus!
