//! Requests and responses of the single-price launchpad.

use vstd::prelude::*;
use crate::host::{Addr, Coin};

verus! {

#[derive(Debug, Clone, PartialEq, Eq)]
pub struct InstantiateMsg {
    pub owner: String,
    pub payment_addr: Option<String>,
    /// Price of one token.
    pub mint_cost: Coin,
    pub name: String,
    pub symbol: String,
    pub uri: Option<String>,
    pub base_token_uri: String,
    /// Number of tokens on sale.
    pub nft_limit: u32,
    pub limit_per_address: u64,
}

#[derive(Debug, Clone, PartialEq, Eq)]
pub struct CreateMsg<T> {
    pub init_msg: T,
    pub collection_params: CollectionParams,
}

#[derive(Debug, Clone, PartialEq, Eq)]
pub struct CollectionParams {
    pub code_id: u64,
    pub name: String,
    pub symbol: String,
    pub uri: Option<String>,
}

#[derive(Debug, Clone, Copy, PartialEq, Eq, Structural)]
pub enum QueryMsg {
    GetConfig {},
}

#[derive(Debug, Clone, PartialEq, Eq)]
pub struct ConfigResponse {
    pub nft_address: Option<Addr>,
    pub owner: Addr,
    pub payment_addr: Option<Addr>,
    pub mint_cost: Coin,
    pub name: String,
    pub symbol: String,
    pub uri: Option<String>,
    pub base_token_uri: String,
    pub nft_limit: u32,
    pub limit_per_address: u64,
}

} // verus!
