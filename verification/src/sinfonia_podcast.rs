//! A token collection whose tokens are the episodes of a podcast.

use vstd::prelude::*;
use crate::host::{Env, MessageInfo, StdError, Timestamp};
use crate::sinfonia_podcast::msg::{InstantiateMsg, SiPodcastQueryMsg};
use crate::sinfonia_podcast::query::query_podcast_info;
use crate::sinfonia_podcast::state::{Podcast, State};

pub mod msg;
pub mod query;
pub mod state;

verus! {

/// Name under which the contract records its version.
pub const CONTRACT_NAME: &'static str = "crates.io:sinfonia-podcast";

/// Version that the contract records.
pub const CONTRACT_VERSION: &'static str = "0.1.0";

/// Place and length of an episode in its feed.
#[derive(Debug, Clone, PartialEq, Eq)]
pub struct ItunesEpisode {
    pub order: Option<u32>,
    pub duration: Option<std::time::Duration>,
}

/// The media file of an episode.
#[derive(Debug, Clone, PartialEq, Eq)]
pub struct EpisodeEnclosure {
    pub url: String,
    pub media_type: String,
}

/// What a token of the collection says of its episode.
#[derive(Debug, Clone, PartialEq, Eq)]
pub struct Episode {
    pub guid: Option<String>,
    pub title: Option<String>,
    pub description: Option<String>,
    pub pubdate: Option<Timestamp>,
    pub itunes: ItunesEpisode,
    pub enclosure: EpisodeEnclosure,
}

/// The request with which the underlying token collection is set up: it
/// is named after the podcast.
pub fn base_instantiate_msg(msg: &InstantiateMsg) -> (r: crate::cw721_base::msg::InstantiateMsg)
    ensures
        r == (crate::cw721_base::msg::InstantiateMsg {
            name: msg.title,
            minter: msg.minter,
            symbol: msg.symbol,
        }),
{
    crate::cw721_base::msg::InstantiateMsg {
        name: msg.title.clone(),
        minter: msg.minter.clone(),
        symbol: msg.symbol.clone(),
    }
}

/// Sets up the podcast once the underlying token collection has been set
/// up: `base` is the outcome of that, which is handed on as it is. A
/// failure there is the failure of the whole.
pub fn instantiate<R, E>(
    _env: Env,
    _info: MessageInfo,
    msg: InstantiateMsg,
    base: Result<R, E>,
) -> (r: Result<(State, R), E>)
    ensures
        match base {
            Ok(res) => r == Ok::<(State, R), E>(
                (
                    State {
                        podcast: Podcast {
                            title: msg.title,
                            description: msg.description,
                            link: msg.link,
                        },
                    },
                    res,
                ),
            ),
            Err(e) => r == Err::<(State, R), E>(e),
        },
{
    let res = match base {
        Ok(res) => res,
        Err(e) => {
            return Err(e);
        },
    };
    let podcast = Podcast { description: msg.description, title: msg.title, link: msg.link };
    Ok((State { podcast }, res))
}

/// Answers the requests that the podcast adds to those of the underlying
/// token collection.
pub fn query(state: &State, _env: Env, msg: SiPodcastQueryMsg) -> (r: Result<Podcast, StdError>)
    ensures
        r == Ok::<Podcast, StdError>(state.podcast),
{
    match msg {
        SiPodcastQueryMsg::PodcastInfo {} => query_podcast_info(state),
    }
}

} // verus!
