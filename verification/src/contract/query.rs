//! The questions that the exchange answers. They read the state and change nothing.

use crate::msg::{GetMetadataResponse, GetMetadataResponseView};
use crate::state::{clone_tokens, tokens_view, State, StateView, Token};
use vstd::prelude::*;

verus! {

/// The metadata of the collection in the state `state`.
pub open spec fn metadata_of(state: StateView) -> GetMetadataResponseView {
    GetMetadataResponseView {
        flagged: state.flagged,
        collection: state.collection,
        description: state.description,
        symbol: state.symbol,
        logo_uri: state.logo_uri,
        banner_uri: state.banner_uri,
        supply: state.supply,
        contract: state.contract,
        website: state.website,
        contact: state.contact,
        twitter: state.twitter,
        telegram: state.telegram,
        discord: state.discord,
    }
}

/// The metadata of the collection, the moderation flag included.
pub fn get_metadata(state: &State) -> (metadata: GetMetadataResponse)
    ensures
        metadata@ == metadata_of(state@),
{
    GetMetadataResponse {
        flagged: state.flagged,
        collection: state.collection.clone(),
        symbol: state.symbol.clone(),
        description: state.description.clone(),
        logo_uri: state.logo_uri.clone(),
        banner_uri: state.banner_uri.clone(),
        supply: state.supply,
        contract: state.contract.clone(),
        contact: state.contact.clone(),
        discord: state.discord.clone(),
        twitter: state.twitter.clone(),
        telegram: state.telegram.clone(),
        website: state.website.clone(),
    }
}

/// The listing table, in the order in which the state holds it.
pub fn get_listed(state: &State) -> (listed: Vec<Token>)
    ensures
        tokens_view(listed@) == state@.listed,
{
    clone_tokens(&state.listed)
}

} // verus!
