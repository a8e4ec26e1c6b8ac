//! The staged launchpad: a fixed supply of numbered tokens sold across
//! time-boxed stages, each mint drawing one remaining token.

pub mod contract;
pub mod error;
pub mod helpers;
pub mod msg;
pub mod state;
pub mod validator;
