//! Verified core of an NFT launchpad: seeded token allocation, time-boxed
//! sale stages, royalty splitting and podcast metadata, modelled over plain
//! values so that every state transition carries a proved contract.

pub mod bs721_launchpad;
pub mod bs721_royalty;
pub mod cw721_base;
pub mod host;
pub mod launchpad;
pub mod membership;
pub mod random;
pub mod schedule;
pub mod sinfonia_podcast;
pub mod text;
