//! What the podcast collection persists besides its tokens.

use vstd::prelude::*;

verus! {

#[derive(Debug, Clone, PartialEq, Eq)]
pub struct Podcast {
    pub title: String,
    pub description: String,
    pub link: Option<String>,
}

/// Everything that the podcast persists between calls, besides what the
/// underlying token collection persists.
#[derive(Debug, Clone, PartialEq, Eq)]
pub struct State {
    pub podcast: Podcast,
}

} // verus!
