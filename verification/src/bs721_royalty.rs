//! The royalty splitter: pays the balances that it holds out to the
//! members of a group, each in proportion to the member's weight.

pub mod contract;
pub mod error;
pub mod msg;
pub mod state;
