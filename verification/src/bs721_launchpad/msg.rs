//! Requests and responses of the staged launchpad.

use vstd::prelude::*;
use crate::host::{clone_opt_coin, clone_opt_string, Addr, Coin, Timestamp};
use crate::schedule::{Expiration, Scheduled};

verus! {

/// One sale stage: a window, an optional price and a supply cap.
#[derive(Debug, PartialEq, Eq)]
pub struct Stage {
    pub merkle_root: Option<String>,
    /// Opening of the window; open from the beginning when absent.
    pub start: Option<Scheduled>,
    /// Closing of the window; never closed when absent.
    pub expiration: Option<Expiration>,
    /// Price of one token; free when absent.
    pub price: Option<Coin>,
    /// Number of tokens that the stage may sell.
    pub total_amount: u32,
}

impl Clone for Stage {
    fn clone(&self) -> (r: Self)
        ensures
            r == *self,
    {
        Stage {
            merkle_root: clone_opt_string(&self.merkle_root),
            start: self.start,
            expiration: self.expiration,
            price: clone_opt_coin(&self.price),
            total_amount: self.total_amount,
        }
    }
}

#[derive(Debug, Clone, PartialEq, Eq)]
pub struct InstantiateMsg {
    pub admin: String,
    pub name: String,
    pub symbol: String,
    pub collection_uri: Option<String>,
    pub base_token_uri: String,
    /// Seller fee in basis points.
    pub seller_fee: u16,
    pub payment_address: Option<String>,
    pub stages: Vec<Stage>,
}

#[derive(Debug, Clone, PartialEq, Eq)]
pub enum ExecuteMsg {
    /// Buys one token from the stage with the given identifier.
    Mint { stage: u8, proofs: Option<Vec<String>> },
}

#[derive(Debug, Clone, Copy, PartialEq, Eq, Structural)]
pub enum QueryMsg {
    Config {},
}

#[derive(Debug, Clone, PartialEq, Eq)]
pub struct ConfigResponse {
    pub admin: Addr,
    pub name: String,
    pub symbol: String,
    pub collection_uri: Option<String>,
    pub base_token_uri: String,
    pub seller_fee_bps: u16,
    pub payment_address: Option<Addr>,
    pub nft_address: Addr,
    pub stages: Vec<StageResponse>,
}

/// Summary of one stage, with the identifier that a mint names it by.
#[derive(Debug, Clone, PartialEq, Eq)]
pub struct StageResponse {
    pub id: u8,
    pub merkle_root: Option<String>,
    pub start: Option<Scheduled>,
    pub expiration: Option<Expiration>,
    pub price: Option<Coin>,
    pub total_amount: u32,
}

/// A sale stage given by its window in time.
#[derive(Debug, PartialEq, Eq)]
pub struct SaleStage {
    /// First moment at which the stage sells.
    pub start_date: Timestamp,
    /// First moment at which the stage sells no more.
    pub end_date: Timestamp,
    /// Price of one token; free when absent.
    pub price: Option<Coin>,
    /// Number of tokens that the stage may sell.
    pub supply: u32,
}

impl Clone for SaleStage {
    fn clone(&self) -> (r: Self)
        ensures
            r == *self,
    {
        SaleStage {
            start_date: self.start_date,
            end_date: self.end_date,
            price: clone_opt_coin(&self.price),
            supply: self.supply,
        }
    }
}

/// Copies an optional stage.
pub fn clone_opt_stage(s: &Option<SaleStage>) -> (r: Option<SaleStage>)
    ensures
        r == *s,
{
    match s {
        Some(v) => Some(v.clone()),
        None => None,
    }
}

/// The three stages of a sale, in the order in which they run: an
/// optional free mint, an optional pre-sale, and the public sale.
#[derive(Debug, Clone, PartialEq, Eq)]
pub struct Stages {
    pub free_mint: Option<SaleStage>,
    pub pre_sale: Option<SaleStage>,
    pub public_sale: SaleStage,
}

/// The stages as a setup request names them.
#[derive(Debug, Clone, PartialEq, Eq)]
pub struct StagesMsg {
    pub free_mint: Option<SaleStage>,
    pub pre_sale: Option<SaleStage>,
    pub public_sale: SaleStage,
}

impl StagesMsg {
    /// The stages that the request names.
    pub open spec fn stages(self) -> Stages {
        Stages { free_mint: self.free_mint, pre_sale: self.pre_sale, public_sale: self.public_sale }
    }

    pub fn to_stages(&self) -> (r: Stages)
        ensures
            r == self.stages(),
    {
        Stages {
            free_mint: clone_opt_stage(&self.free_mint),
            pre_sale: clone_opt_stage(&self.pre_sale),
            public_sale: self.public_sale.clone(),
        }
    }
}

} // verus!
