//! Members of a weighted group, as the group contract reports them.

use vstd::prelude::*;
use crate::host::Addr;

verus! {

/// Handle of a group contract: its address.
#[derive(Debug, PartialEq, Eq)]
pub struct Cw4Contract(pub Addr);

impl Clone for Cw4Contract {
    fn clone(&self) -> (r: Self)
        ensures
            r == *self,
    {
        Cw4Contract(self.0.clone())
    }
}

/// A member of a group and the weight of its voice.
#[derive(Debug, Clone, PartialEq, Eq)]
pub struct Member {
    pub addr: String,
    pub weight: u64,
}

/// The weight of one account; `None` for an account that is no member.
#[derive(Debug, Clone, Copy, PartialEq, Eq, Structural)]
pub struct MemberResponse {
    pub weight: Option<u64>,
}

#[derive(Debug, Clone, PartialEq, Eq)]
pub struct MemberListResponse {
    pub members: Vec<Member>,
}

} // verus!
