//! What the single-price launchpad persists.

use vstd::prelude::*;
use crate::host::{Addr, Coin};

verus! {

/// Sale parameters, fixed when the sale is set up.
#[derive(Debug, Clone, PartialEq, Eq)]
pub struct Config {
    pub owner: Addr,
    pub payment_addr: Option<Addr>,
    pub mint_cost: Coin,
    pub name: String,
    pub symbol: String,
    pub uri: Option<String>,
    pub base_token_uri: String,
    pub nft_limit: u32,
    pub limit_per_address: u64,
}

/// Everything that the launchpad persists between calls.
#[derive(Debug, Clone, PartialEq, Eq)]
pub struct State {
    pub config: Config,
    /// Number of tokens that may still be minted.
    pub mintable_nft_limit: u32,
    /// The companion token contract, once it has been linked.
    pub nft_address: Option<Addr>,
}

impl State {
    /// Whether the companion token contract has been linked.
    pub open spec fn linked(&self) -> bool {
        self.nft_address matches Some(a) && a@.len() > 0
    }
}

} // verus!
