//! The operations of the exchange.
//!
//! An operation reads and changes the exchange state that it is handed, and returns the
//! instructions for the chain. What it needs to know from the token registry is handed to
//! it as a plain value. A refused operation leaves the state as it was.

pub mod execute;
pub mod guarantees;
pub mod query;

use crate::chain::{Env, EnvView, MessageInfo, MessageInfoView, Response, ResponseView};
use crate::contract::execute::{
    buy_outcome, delist_outcome, flag_outcome, list_outcome, update_metadata_outcome,
};
use crate::error::ContractError;
use crate::msg::{
    check_royalties, ExecuteMsg, ExecuteMsgView, GetMetadataResponse, InstantiateMsg,
    InstantiateMsgView, OwnerOf, QueryMsg, Royalties, RoyaltiesView,
};
use crate::state::{lemma_listing_index, listing_index, tokens_view, State, StateView, Token};
use vstd::prelude::*;

verus! {

/// An approval to move a token.
#[derive(Debug, PartialEq, Eq)]
pub struct Approval {
    pub spender: String,
}

impl View for Approval {
    type V = Seq<char>;

    open spec fn view(&self) -> Seq<char> {
        self.spender@
    }
}

/// What the token registry says of a token: its owner and the approvals on it.
#[derive(Debug, PartialEq, Eq)]
pub struct GetOwnerResponse {
    pub owner: String,
    pub approvals: Vec<Approval>,
}

/// A `GetOwnerResponse` as plain data.
pub struct GetOwnerResponseView {
    pub owner: Seq<char>,
    pub approvals: Seq<Seq<char>>,
}

impl View for GetOwnerResponse {
    type V = GetOwnerResponseView;

    open spec fn view(&self) -> GetOwnerResponseView {
        GetOwnerResponseView {
            owner: self.owner@,
            approvals: self.approvals@.map_values(|a: Approval| a@),
        }
    }
}

/// What a command needs to know from the token registry before it can run.
#[derive(Debug, PartialEq, Eq)]
pub enum RegistryQuery {
    /// The command needs nothing from the registry.
    Nothing,
    /// The owner of a token and the approvals on it.
    OwnerOf(OwnerOf),
    /// The collection authority: who administers the registry at this moment.
    Authority,
}

/// A `RegistryQuery` as plain data.
pub enum RegistryQueryView {
    Nothing,
    OwnerOf(Seq<char>),
    Authority,
}

impl View for RegistryQuery {
    type V = RegistryQueryView;

    open spec fn view(&self) -> RegistryQueryView {
        match *self {
            RegistryQuery::Nothing => RegistryQueryView::Nothing,
            RegistryQuery::OwnerOf(q) => RegistryQueryView::OwnerOf(q@),
            RegistryQuery::Authority => RegistryQueryView::Authority,
        }
    }
}

/// What the token registry answered.
#[derive(Debug, PartialEq, Eq)]
pub enum RegistryAnswer {
    /// Nothing was asked.
    Nothing,
    /// The owner of the token asked about, and the approvals on it.
    OwnerOf(GetOwnerResponse),
    /// The collection authority.
    Authority(String),
}

/// A `RegistryAnswer` as plain data.
pub enum RegistryAnswerView {
    Nothing,
    OwnerOf(GetOwnerResponseView),
    Authority(Seq<char>),
}

impl View for RegistryAnswer {
    type V = RegistryAnswerView;

    open spec fn view(&self) -> RegistryAnswerView {
        match *self {
            RegistryAnswer::Nothing => RegistryAnswerView::Nothing,
            RegistryAnswer::OwnerOf(r) => RegistryAnswerView::OwnerOf(r@),
            RegistryAnswer::Authority(a) => RegistryAnswerView::Authority(a@),
        }
    }
}

/// What an operation does: the state it leaves and the response it returns, or why it was
/// refused.
pub type Outcome = Result<(StateView, ResponseView), ContractError>;

/// Whether an operation that started in the state `pre` did what `expected` says: it left
/// `post` and returned `result`.
pub open spec fn achieved(
    result: Result<Response, ContractError>,
    pre: StateView,
    post: StateView,
    expected: Outcome,
) -> bool {
    match expected {
        Ok((state, response)) => result matches Ok(r) && r@ == response && post == state,
        Err(e) => result matches Err(r) && r == e && post == pre,
    }
}

/// The index of the listing for the token `target_id`, if the table holds one: that of the
/// last such listing, should there be several.
pub fn check_duplicate(list: &[Token], target_id: &String) -> (found: Option<usize>)
    ensures
        match found {
            Some(i) => i < list@.len() && list@[i as int].id@ == target_id@ && forall|j: int|
                i < j < list@.len() ==> list@[j].id@ != target_id@,
            None => forall|j: int| 0 <= j < list@.len() ==> list@[j].id@ != target_id@,
        },
        match found {
            Some(i) => listing_index(tokens_view(list@), target_id@) == Some(i as int),
            None => listing_index(tokens_view(list@), target_id@) is None,
        },
{
    let ghost all = tokens_view(list@);
    let mut i: usize = list.len();
    while i > 0
        invariant
            i <= list@.len(),
            all == tokens_view(list@),
            forall|j: int| i <= j < list@.len() ==> list@[j].id@ != target_id@,
        decreases i,
    {
        i -= 1;
        if list[i].id == *target_id {
            proof {
                lemma_listing_index(all, target_id@);
                assert(all[i as int].id == target_id@);
            }
            return Some(i);
        }
    }
    proof {
        lemma_listing_index(all, target_id@);
    }
    None
}

/// The state of an exchange that has just been set up.
pub open spec fn initial_state(msg: InstantiateMsgView, owner: Seq<char>) -> StateView {
    StateView {
        flagged: false,
        collection: msg.collection,
        contract: msg.contract,
        description: msg.description,
        symbol: msg.symbol,
        logo_uri: msg.logo_uri,
        banner_uri: msg.banner_uri,
        supply: msg.supply,
        owner,
        royalties: RoyaltiesView {
            seller_fee_basis_points: msg.basis_points,
            creators: msg.creators,
        },
        listed: Seq::empty(),
        contact: Seq::empty(),
        discord: Seq::empty(),
        twitter: Seq::empty(),
        telegram: Seq::empty(),
        website: Seq::empty(),
    }
}

/// What `instantiate` does.
pub open spec fn instantiate_outcome(msg: InstantiateMsgView, owner: Seq<char>) -> Outcome {
    if !initial_state(msg, owner).royalties.valid() {
        Err(ContractError::InvalidRoyalties {  })
    } else {
        Ok(
            (
                initial_state(msg, owner),
                ResponseView::empty().with_attribute("method"@, "instantiate"@),
            ),
        )
    }
}

/// Sets up an exchange for the collection that `msg` describes. `owner` is the collection
/// authority as the token registry at `msg.contract` names it.
///
/// The new state takes its metadata and royalty configuration from `msg`, has an empty
/// listing table, no social links and a cleared moderation flag. A royalty configuration
/// that cannot be applied to every sale is refused with `InvalidRoyalties`.
pub fn instantiate(
    msg: InstantiateMsg,
    owner: String,
) -> (result: Result<(State, Response), ContractError>)
    ensures
        match instantiate_outcome(msg@, owner@) {
            Ok((state, response)) => result matches Ok(made) && made.0@ == state && made.1@
                == response && made.0@.wf(),
            Err(e) => result matches Err(r) && r == e,
        },
{
    if !check_royalties(msg.basis_points, &msg.creators) {
        return Err(ContractError::InvalidRoyalties {  });
    }
    let state = State {
        flagged: false,
        collection: msg.collection,
        contract: msg.contract,
        symbol: msg.symbol,
        description: msg.description,
        logo_uri: msg.logo_uri,
        banner_uri: msg.banner_uri,
        supply: msg.supply,
        royalties: Royalties {
            seller_fee_basis_points: msg.basis_points,
            creators: msg.creators,
        },
        owner,
        listed: Vec::new(),
        contact: String::new(),
        discord: String::new(),
        twitter: String::new(),
        telegram: String::new(),
        website: String::new(),
    };
    assert(state@.listed =~= Seq::empty());
    Ok((state, Response::new().add_attribute("method", "instantiate")))
}

/// What the command `msg` needs to know from the token registry: `List` the owner of the
/// token and the approvals on it, `UpdateMetadata` and `Flag` the collection authority,
/// `Buy` and `DeList` nothing.
pub open spec fn registry_query_of(msg: ExecuteMsgView) -> RegistryQueryView {
    match msg {
        ExecuteMsgView::List { id, .. } => RegistryQueryView::OwnerOf(id),
        ExecuteMsgView::Buy { .. } => RegistryQueryView::Nothing,
        ExecuteMsgView::DeList { .. } => RegistryQueryView::Nothing,
        ExecuteMsgView::UpdateMetadata { .. } => RegistryQueryView::Authority,
        ExecuteMsgView::Flag { .. } => RegistryQueryView::Authority,
    }
}

/// What has to be asked of the token registry before `msg` is executed.
pub fn registry_query(msg: &ExecuteMsg) -> (query: RegistryQuery)
    ensures
        query@ == registry_query_of(msg@),
{
    match msg {
        ExecuteMsg::List { id, .. } => RegistryQuery::OwnerOf(OwnerOf { token_id: id.clone() }),
        ExecuteMsg::Buy { .. } => RegistryQuery::Nothing,
        ExecuteMsg::DeList { .. } => RegistryQuery::Nothing,
        ExecuteMsg::UpdateMetadata { .. } => RegistryQuery::Authority,
        ExecuteMsg::Flag { .. } => RegistryQuery::Authority,
    }
}

/// What `execute` does: what the operation that `msg` names does, on the answer of the
/// token registry. A command whose question to the registry was not answered is refused
/// as unauthorized.
pub open spec fn execute_outcome(
    pre: StateView,
    env: EnvView,
    info: MessageInfoView,
    msg: ExecuteMsgView,
    answer: RegistryAnswerView,
    flat_deduction: u128,
) -> Outcome {
    match msg {
        ExecuteMsgView::List { id, price, expires } => match answer {
            RegistryAnswerView::OwnerOf(resp) => list_outcome(
                pre,
                id,
                price,
                expires,
                info.sender,
                resp,
            ),
            _ => Err(ContractError::Unauthorized {  }),
        },
        ExecuteMsgView::Buy { id } => buy_outcome(pre, id, info, env, flat_deduction),
        ExecuteMsgView::DeList { id } => delist_outcome(pre, id, info, env),
        ExecuteMsgView::UpdateMetadata { update } => match answer {
            RegistryAnswerView::Authority(authority) => update_metadata_outcome(
                pre,
                update,
                info.sender,
                authority,
            ),
            _ => Err(ContractError::Unauthorized {  }),
        },
        ExecuteMsgView::Flag { enabled } => match answer {
            RegistryAnswerView::Authority(authority) => flag_outcome(
                pre,
                enabled,
                info.sender,
                authority,
            ),
            _ => Err(ContractError::Unauthorized {  }),
        },
    }
}

/// Runs the command `msg`, sent by `info.sender`, on `state`. `answer` is what the token
/// registry answered to `registry_query(&msg)`, and `flat_deduction` the flat amount that
/// this deployment withholds from a seller's proceeds.
pub fn execute(
    state: &mut State,
    env: Env,
    info: MessageInfo,
    msg: ExecuteMsg,
    answer: RegistryAnswer,
    flat_deduction: u128,
) -> (result: Result<Response, ContractError>)
    ensures
        achieved(
            result,
            old(state)@,
            final(state)@,
            execute_outcome(old(state)@, env@, info@, msg@, answer@, flat_deduction),
        ),
        old(state)@.wf() ==> final(state)@.wf(),
{
    match msg {
        ExecuteMsg::List { id, price, expires } => match answer {
            RegistryAnswer::OwnerOf(resp) => execute::list(
                state,
                id,
                price,
                expires,
                info.sender,
                &resp,
            ),
            _ => Err(ContractError::Unauthorized {  }),
        },
        ExecuteMsg::Buy { id } => execute::buy(state, id, &info, env, flat_deduction),
        ExecuteMsg::DeList { id } => execute::delist(state, id, &info, env),
        ExecuteMsg::Flag { enabled } => match answer {
            RegistryAnswer::Authority(authority) => execute::flag(
                enabled,
                state,
                &info.sender,
                &authority,
            ),
            _ => Err(ContractError::Unauthorized {  }),
        },
        ExecuteMsg::UpdateMetadata {
            creators,
            description,
            logo_uri,
            banner_uri,
            basis_points,
            collection,
            website,
            contact,
            twitter,
            telegram,
            discord,
        } => match answer {
            RegistryAnswer::Authority(authority) => execute::update_metadata(
                state,
                creators,
                description,
                logo_uri,
                banner_uri,
                basis_points,
                info.sender,
                collection,
                website,
                contact,
                twitter,
                telegram,
                discord,
                &authority,
            ),
            _ => Err(ContractError::Unauthorized {  }),
        },
    }
}

/// The answer to a query.
#[derive(Debug, PartialEq, Eq)]
pub enum QueryResponse {
    /// The answer to `GetMetadata`.
    Metadata(GetMetadataResponse),
    /// The answer to `GetListed`.
    Listed(Vec<Token>),
}

/// Answers `msg` from `state`: `GetMetadata` with the metadata of the collection,
/// `GetListed` with the listing table in its order.
pub fn query(state: &State, msg: QueryMsg) -> (answer: QueryResponse)
    ensures
        match msg {
            QueryMsg::GetMetadata {  } => answer matches QueryResponse::Metadata(m) && m@
                == query::metadata_of(state@),
            QueryMsg::GetListed {  } => answer matches QueryResponse::Listed(l) && tokens_view(l@)
                == state@.listed,
        },
{
    match msg {
        QueryMsg::GetMetadata {  } => QueryResponse::Metadata(query::get_metadata(state)),
        QueryMsg::GetListed {  } => QueryResponse::Listed(query::get_listed(state)),
    }
}

} // verus!
