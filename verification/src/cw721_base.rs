//! Vocabulary of the base token contract that the podcast collection
//! builds on.

pub mod error;
pub mod msg;
