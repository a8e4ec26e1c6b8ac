//! Points in time, by block height or by clock, at which a sale stage
//! opens or closes.

use vstd::prelude::*;
use crate::host::{BlockInfo, Timestamp};

verus! {

/// The moment from which something is open.
#[derive(Debug, Clone, Copy, PartialEq, Eq, Structural)]
pub enum Scheduled {
    /// Open once the block height has reached the given height.
    AtHeight(u64),
    /// Open once the block time has reached the given time.
    AtTime(Timestamp),
}

impl Scheduled {
    /// Whether the moment has been reached in `block`.
    pub open spec fn triggered_in(self, block: BlockInfo) -> bool {
        match self {
            Scheduled::AtHeight(height) => block.height >= height,
            Scheduled::AtTime(time) => block.time.0 >= time.0,
        }
    }

    pub fn is_triggered(&self, block: &BlockInfo) -> (r: bool)
        ensures
            r == self.triggered_in(*block),
    {
        match self {
            Scheduled::AtHeight(height) => block.height >= *height,
            Scheduled::AtTime(time) => block.time.0 >= time.0,
        }
    }
}

/// The moment from which something is closed.
#[derive(Debug, Clone, Copy, PartialEq, Eq, Structural)]
pub enum Expiration {
    /// Closed once the block height has reached the given height.
    AtHeight(u64),
    /// Closed once the block time has reached the given time.
    AtTime(Timestamp),
    /// Never closed.
    Never {},
}

impl Expiration {
    /// Whether the moment has been reached in `block`.
    pub open spec fn expired_in(self, block: BlockInfo) -> bool {
        match self {
            Expiration::AtHeight(height) => block.height >= height,
            Expiration::AtTime(time) => block.time.0 >= time.0,
            Expiration::Never {} => false,
        }
    }

    pub fn is_expired(&self, block: &BlockInfo) -> (r: bool)
        ensures
            r == self.expired_in(*block),
    {
        match self {
            Expiration::AtHeight(height) => block.height >= *height,
            Expiration::AtTime(time) => block.time.0 >= time.0,
            Expiration::Never {} => false,
        }
    }
}

} // verus!
