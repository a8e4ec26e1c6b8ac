//! Requests of the podcast collection.

use vstd::prelude::*;

verus! {

/// What the podcast says of itself to feed readers.
#[derive(Debug, Clone, PartialEq, Eq)]
pub struct ItunesDataMsg {
    pub author: Option<String>,
    pub category: Option<Vec<String>>,
    pub pod_type: Option<String>,
    pub image: Option<String>,
}

#[derive(Debug, Clone, PartialEq, Eq)]
pub struct InstantiateMsg {
    /// Symbol of the token collection.
    pub symbol: String,
    /// The only account that may create tokens.
    pub minter: String,
    pub title: String,
    pub description: String,
    pub link: Option<String>,
    pub lang: Option<String>,
    pub itunes: ItunesDataMsg,
}

#[derive(Debug, Clone, Copy, PartialEq, Eq, Structural)]
pub enum SiPodcastQueryMsg {
    PodcastInfo {},
}

} // verus!
