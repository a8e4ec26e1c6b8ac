//! Read-only requests of the podcast collection.

use vstd::prelude::*;
use crate::host::{clone_opt_string, StdError};
use crate::sinfonia_podcast::state::{Podcast, State};

verus! {

/// The podcast as it was set up.
pub fn query_podcast_info(state: &State) -> (r: Result<Podcast, StdError>)
    ensures
        r == Ok::<Podcast, StdError>(state.podcast),
{
    let podcast = &state.podcast;
    Ok(
        Podcast {
            title: podcast.title.clone(),
            description: podcast.description.clone(),
            link: clone_opt_string(&podcast.link),
        },
    )
}

} // verus!
