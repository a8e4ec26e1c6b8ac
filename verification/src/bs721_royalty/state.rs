//! What the royalty splitter persists.

use vstd::prelude::*;
use crate::membership::Cw4Contract;

verus! {

#[derive(Debug, PartialEq, Eq)]
pub struct Config {
    /// The group whose members are paid.
    pub cw4_address: Cw4Contract,
}

impl Clone for Config {
    fn clone(&self) -> (r: Self)
        ensures
            r == *self,
    {
        Config { cw4_address: self.cw4_address.clone() }
    }
}

/// Everything that the royalty splitter persists between calls.
#[derive(Debug, Clone, PartialEq, Eq)]
pub struct State {
    pub config: Config,
}

} // verus!
