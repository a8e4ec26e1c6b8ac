//! The single-price launchpad: sets up a sale of a limited number of
//! tokens at one price and links the companion token contract.

pub mod contract;
pub mod error;
pub mod msg;
pub mod state;
