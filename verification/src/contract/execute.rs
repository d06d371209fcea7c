//! The commands that change the exchange state.

use crate::chain::{
    paid, BankSend, BankSendView, Env, EnvView, InstructionView, MessageInfo,
    MessageInfoView, RegistryCall, RegistryCallView, Response, ResponseView, WasmExecute,
    WasmExecuteView, DENOM, TREASURY,
};
use crate::contract::{
    achieved, check_duplicate, GetOwnerResponse, GetOwnerResponseView, Outcome,
};
use crate::cosmwasm::must_pay;
use crate::error::ContractError;
use crate::fees::{
    percent_amount, percent_of, platform_fee, platform_fee_of, royalty_amount, royalty_of,
};
use crate::msg::{
    check_royalties, creators_option_view, creators_view, lemma_share_within_total,
    shares_total, text_option_view, Creator, CreatorView, MetadataUpdateView, Revoke,
    RevokeView, Rmessage, RoyaltiesView, SendTokenMsg, SendTokenMsgView, Tmessage,
};
use crate::state::{
    has_listing, in_price_order, lemma_in_price_order, lemma_listing_index, lemma_push_listing,
    lemma_remove_listing, lemma_unexpired, listing_index, sort_by_price, sweep_expired,
    tokens_view, unexpired, State, StateView, Token, TokenView,
};
use vstd::prelude::*;

verus! {

/// An outbound message of the exchange.
#[derive(Debug, PartialEq, Eq)]
pub enum Messages {
    /// A call of the token registry.
    Execute(WasmExecute),
    /// A payment.
    Bank(BankSend),
}

/// A `Messages` as plain data.
pub enum MessagesView {
    Execute(WasmExecuteView),
    Bank(BankSendView),
}

impl View for Messages {
    type V = MessagesView;

    open spec fn view(&self) -> MessagesView {
        match *self {
            Messages::Execute(m) => MessagesView::Execute(m@),
            Messages::Bank(m) => MessagesView::Bank(m@),
        }
    }
}

/// The message that pays `amount` to `to_address`.
pub open spec fn payment_to(to_address: Seq<char>, amount: int) -> MessagesView {
    MessagesView::Bank(BankSendView { to_address, amount, denom: DENOM@ })
}

/// The message that tells the registry at `registry` to move the token `token_id` to
/// `recipient`.
pub open spec fn transfer_of(
    registry: Seq<char>,
    recipient: Seq<char>,
    token_id: Seq<char>,
) -> MessagesView {
    MessagesView::Execute(
        WasmExecuteView {
            contract_addr: registry,
            msg: RegistryCallView::Transfer(SendTokenMsgView { recipient, token_id }),
        },
    )
}

/// The message that tells the registry at `registry` to withdraw the approval of `spender`
/// on the token `token_id`.
pub open spec fn revocation_of(
    registry: Seq<char>,
    spender: Seq<char>,
    token_id: Seq<char>,
) -> MessagesView {
    MessagesView::Execute(
        WasmExecuteView {
            contract_addr: registry,
            msg: RegistryCallView::Revoke(RevokeView { spender, token_id }),
        },
    )
}

/// The message that pays `amount` to `to_address`.
fn pay(to_address: String, amount: u128) -> (msg: Messages)
    ensures
        msg@ == payment_to(to_address@, amount as int),
{
    Messages::Bank(BankSend { to_address, amount, denom: DENOM.to_owned() })
}

/// What `flag` does.
pub open spec fn flag_outcome(
    pre: StateView,
    enabled: bool,
    sender: Seq<char>,
    authority: Seq<char>,
) -> Outcome {
    if sender != authority {
        Err(ContractError::Unauthorized {  })
    } else {
        Ok((StateView { flagged: enabled, ..pre }, ResponseView::empty()))
    }
}

/// Sets the moderation flag of the collection to `enabled`. Only the collection authority
/// may do so: `authority` is who the token registry names as such at this moment, and any
/// other `sender` is refused with `Unauthorized`. Nothing but the flag changes.
pub fn flag(
    enabled: bool,
    state: &mut State,
    sender: &String,
    authority: &String,
) -> (result: Result<Response, ContractError>)
    ensures
        achieved(
            result,
            old(state)@,
            final(state)@,
            flag_outcome(old(state)@, enabled, sender@, authority@),
        ),
        old(state)@.wf() ==> final(state)@.wf(),
{
    if *sender != *authority {
        return Err(ContractError::Unauthorized {  });
    }
    state.flagged = enabled;
    Ok(Response::new())
}

/// The value of a field after an update: the value given, if one is given, else the value
/// that the field had.
pub open spec fn updated<T>(given: Option<T>, kept: T) -> T {
    match given {
        Some(value) => value,
        None => kept,
    }
}

/// The state `pre` with the fields that `update` gives overwritten, and all others as
/// they were.
pub open spec fn patched(pre: StateView, update: MetadataUpdateView) -> StateView {
    StateView {
        royalties: RoyaltiesView {
            seller_fee_basis_points: updated(
                update.basis_points,
                pre.royalties.seller_fee_basis_points,
            ),
            creators: updated(update.creators, pre.royalties.creators),
        },
        description: updated(update.description, pre.description),
        logo_uri: updated(update.logo_uri, pre.logo_uri),
        banner_uri: updated(update.banner_uri, pre.banner_uri),
        collection: updated(update.collection, pre.collection),
        website: updated(update.website, pre.website),
        contact: updated(update.contact, pre.contact),
        twitter: updated(update.twitter, pre.twitter),
        telegram: updated(update.telegram, pre.telegram),
        discord: updated(update.discord, pre.discord),
        ..pre
    }
}

/// The update that the arguments of `update_metadata` describe.
pub open spec fn metadata_update(
    creators: Option<Vec<Creator>>,
    description: Option<String>,
    logo_uri: Option<String>,
    banner_uri: Option<String>,
    basis_points: Option<u16>,
    collection: Option<String>,
    website: Option<String>,
    contact: Option<String>,
    twitter: Option<String>,
    telegram: Option<String>,
    discord: Option<String>,
) -> MetadataUpdateView {
    MetadataUpdateView {
        creators: creators_option_view(creators),
        collection: text_option_view(collection),
        website: text_option_view(website),
        contact: text_option_view(contact),
        twitter: text_option_view(twitter),
        telegram: text_option_view(telegram),
        discord: text_option_view(discord),
        description: text_option_view(description),
        logo_uri: text_option_view(logo_uri),
        banner_uri: text_option_view(banner_uri),
        basis_points,
    }
}

/// What `update_metadata` does.
pub open spec fn update_metadata_outcome(
    pre: StateView,
    update: MetadataUpdateView,
    owner: Seq<char>,
    authority: Seq<char>,
) -> Outcome {
    if owner != authority {
        Err(ContractError::Unauthorized {  })
    } else if !patched(pre, update).royalties.valid() {
        Err(ContractError::InvalidRoyalties {  })
    } else {
        Ok(
            (
                patched(pre, update),
                ResponseView::empty().with_attribute("action"@, "update_metadata"@),
            ),
        )
    }
}

/// Overwrites the metadata fields that are given, and leaves every other field as it is.
///
/// Only the collection authority may do so: `authority` is who the token registry names as
/// such at this moment, and any other `owner` is refused with `Unauthorized`. An update
/// that would leave a royalty configuration that cannot be applied to every sale is refused
/// with `InvalidRoyalties`.
pub fn update_metadata(
    state: &mut State,
    creators: Option<Vec<Creator>>,
    description: Option<String>,
    logo_uri: Option<String>,
    banner_uri: Option<String>,
    basis_points: Option<u16>,
    owner: String,
    collection: Option<String>,
    website: Option<String>,
    contact: Option<String>,
    twitter: Option<String>,
    telegram: Option<String>,
    discord: Option<String>,
    authority: &String,
) -> (result: Result<Response, ContractError>)
    ensures
        achieved(
            result,
            old(state)@,
            final(state)@,
            update_metadata_outcome(
                old(state)@,
                metadata_update(
                    creators,
                    description,
                    logo_uri,
                    banner_uri,
                    basis_points,
                    collection,
                    website,
                    contact,
                    twitter,
                    telegram,
                    discord,
                ),
                owner@,
                authority@,
            ),
        ),
        old(state)@.wf() ==> final(state)@.wf(),
{
    if owner != *authority {
        return Err(ContractError::Unauthorized {  });
    }
    let rate = match basis_points {
        Some(points) => points,
        None => state.royalties.seller_fee_basis_points,
    };
    let valid = match &creators {
        Some(list) => check_royalties(rate, list),
        None => check_royalties(rate, &state.royalties.creators),
    };
    if !valid {
        return Err(ContractError::InvalidRoyalties {  });
    }
    if let Some(_creators) = creators {
        state.royalties.creators = _creators;
    }
    if let Some(_description) = description {
        state.description = _description;
    }
    if let Some(_logo_uri) = logo_uri {
        state.logo_uri = _logo_uri;
    }
    if let Some(_banner_uri) = banner_uri {
        state.banner_uri = _banner_uri;
    }
    if let Some(_basis_points) = basis_points {
        state.royalties.seller_fee_basis_points = _basis_points;
    }
    if let Some(_collection) = collection {
        state.collection = _collection;
    }
    if let Some(_website) = website {
        state.website = _website;
    }
    if let Some(_contact) = contact {
        state.contact = _contact;
    }
    if let Some(_twitter) = twitter {
        state.twitter = _twitter;
    }
    if let Some(_telegram) = telegram {
        state.telegram = _telegram;
    }
    if let Some(_discord) = discord {
        state.discord = _discord;
    }
    Ok(Response::new().add_attribute("action", "update_metadata"))
}

/// The listing that `list` enters.
pub open spec fn new_listing(
    id: Seq<char>,
    price: u128,
    expires: i128,
    owner: Seq<char>,
) -> TokenView {
    TokenView { id, owner, is_listed: true, price, expires }
}

/// Whether the registry's answer `resp` lets `owner` list the token: `owner` owns it and
/// at least one approval is active on it.
pub open spec fn may_list(owner: Seq<char>, resp: GetOwnerResponseView) -> bool {
    owner == resp.owner && resp.approvals.len() >= 1
}

/// What `list` does.
pub open spec fn list_outcome(
    pre: StateView,
    id: Seq<char>,
    price: u128,
    expires: i128,
    owner: Seq<char>,
    resp: GetOwnerResponseView,
) -> Outcome {
    if !may_list(owner, resp) || has_listing(pre.listed, id) {
        Err(ContractError::Unauthorized {  })
    } else {
        Ok(
            (
                pre.with_listed(
                    in_price_order(pre.listed.push(new_listing(id, price, expires, owner))),
                ),
                ResponseView::empty().with_attribute("action"@, "increment"@),
            ),
        )
    }
}

/// Offers the token `id` for sale at `price` until `expires`, in the name of `owner`.
/// `resp` is what the token registry says of the token.
///
/// The offer is refused with `Unauthorized` unless `owner` is the owner that the registry
/// names and an approval is active on the token, and also where the token is listed
/// already. Else the listing enters the table, which is put in price order.
pub fn list(
    state: &mut State,
    id: String,
    price: u128,
    expires: i128,
    owner: String,
    resp: &GetOwnerResponse,
) -> (result: Result<Response, ContractError>)
    ensures
        achieved(
            result,
            old(state)@,
            final(state)@,
            list_outcome(old(state)@, id@, price, expires, owner@, resp@),
        ),
        old(state)@.wf() ==> final(state)@.wf(),
{
    if owner != resp.owner {
        return Err(ContractError::Unauthorized {  });
    }
    if resp.approvals.len() < 1 {
        return Err(ContractError::Unauthorized {  });
    }
    let dup = check_duplicate(state.listed.as_slice(), &id);
    proof {
        lemma_listing_index(state@.listed, id@);
    }
    if dup.is_some() {
        return Err(ContractError::Unauthorized {  });
    }
    let ghost before = state@.listed;
    let ghost entry = new_listing(id@, price, expires, owner@);
    state.listed.push(Token { id, owner, is_listed: true, price, expires });
    assert(tokens_view(state.listed@) =~= before.push(entry));
    sort_by_price(&mut state.listed);
    proof {
        lemma_in_price_order(before.push(entry));
        lemma_push_listing(before, entry);
    }
    Ok(Response::new().add_attribute("action", "increment"))
}

/// What `delist` does.
pub open spec fn delist_outcome(
    pre: StateView,
    id: Seq<char>,
    info: MessageInfoView,
    env: EnvView,
) -> Outcome {
    match listing_index(pre.listed, id) {
        None => Err(ContractError::NotFound {  }),
        Some(i) => if info.sender != pre.listed[i].owner {
            Err(ContractError::Unauthorized {  })
        } else {
            Ok(
                (
                    pre.with_listed(in_price_order(pre.listed.remove(i))),
                    ResponseView::empty().with_attribute("action"@, "delist"@).with_message(
                        revocation_of(pre.contract, env.contract_address, id),
                        true,
                    ),
                ),
            )
        },
    }
}

/// Withdraws the listing of the token `id`.
///
/// Fails with `NotFound` where the table holds no listing for the token, and with
/// `Unauthorized` where `info.sender` is not its seller. Else the listing leaves the table,
/// which is put in price order, and the registry is told to withdraw the approval of the
/// exchange on the token. That instruction is best effort: the listing is gone whether or
/// not the registry complies.
pub fn delist(
    state: &mut State,
    id: String,
    info: &MessageInfo,
    env: Env,
) -> (result: Result<Response, ContractError>)
    ensures
        achieved(
            result,
            old(state)@,
            final(state)@,
            delist_outcome(old(state)@, id@, info@, env@),
        ),
        old(state)@.wf() ==> final(state)@.wf(),
{
    let index = match check_duplicate(state.listed.as_slice(), &id) {
        Some(i) => i,
        None => {
            return Err(ContractError::NotFound {  });
        },
    };
    proof {
        lemma_listing_index(state@.listed, id@);
    }
    if info.sender != state.listed[index].owner {
        return Err(ContractError::Unauthorized {  });
    }
    let ghost before = state@.listed;
    state.listed.remove(index);
    assert(tokens_view(state.listed@) =~= before.remove(index as int));
    sort_by_price(&mut state.listed);
    proof {
        lemma_remove_listing(before, index as int);
        lemma_in_price_order(before.remove(index as int));
    }
    let revoke = Messages::Execute(
        WasmExecute {
            contract_addr: state.contract.clone(),
            msg: RegistryCall::Revoke(
                Rmessage { revoke: Revoke { spender: env.contract_address, token_id: id } },
            ),
        },
    );
    Ok(Response::new().add_attribute("action", "delist").add_best_effort_message(revoke))
}

/// What the seller of a token receives from a sale at `price`: the price less the royalty
/// pool, the platform fee on price and royalty, and the flat deduction. It is negative
/// where the price does not cover the three.
pub open spec fn seller_payout_of(price: int, basis_points: int, flat_deduction: int) -> int {
    price - royalty_of(price, basis_points) - platform_fee_of(
        price + royalty_of(price, basis_points),
    ) - flat_deduction
}

/// The payments to the creators out of the pool `royalty`: to each the part of the pool
/// that its share gives, the last creator of the configuration first.
pub open spec fn creator_payments(
    creators: Seq<CreatorView>,
    royalty: int,
) -> Seq<InstructionView> {
    Seq::new(
        creators.len(),
        |i: int|
            InstructionView {
                msg: payment_to(
                    creators[creators.len() - 1 - i].address,
                    percent_of(royalty, creators[creators.len() - 1 - i].share as int),
                ),
                best_effort: false,
            },
    )
}

/// A response that holds the payments to the creators out of the pool `royalty`, and
/// nothing else.
fn pay_creators(creators: &Vec<Creator>, royalty: u128) -> (resp: Response)
    requires
        shares_total(creators_view(creators@)) <= 100,
    ensures
        resp@.attributes == Seq::<(Seq<char>, Seq<char>)>::empty(),
        resp@.messages == creator_payments(creators_view(creators@), royalty as int),
{
    let ghost shares = creators_view(creators@);
    let ghost payments = creator_payments(shares, royalty as int);
    let mut resp = Response::new();
    let mut k: usize = creators.len();
    assert(resp@.messages =~= payments.take(0));
    while k > 0
        invariant
            k <= creators@.len(),
            shares == creators_view(creators@),
            shares_total(shares) <= 100,
            payments == creator_payments(shares, royalty as int),
            resp@.attributes == Seq::<(Seq<char>, Seq<char>)>::empty(),
            resp@.messages == payments.take(shares.len() - k),
        decreases k,
    {
        k -= 1;
        let creator = &creators[k];
        proof {
            lemma_share_within_total(shares, k as int);
        }
        let part = percent_amount(royalty, creator.share);
        resp = resp.add_message(pay(creator.address.clone(), part));
        assert(resp@.messages =~= payments.take(shares.len() - k));
    }
    assert(payments.take(shares.len() as int) == payments);
    resp
}

/// The instructions that settle the sale of `token` to `buyer`: the payments to the
/// creators, the platform fee to the treasury, the proceeds to the seller, and the
/// transfer of the token to the buyer, in this order.
pub open spec fn sale_instructions(
    pre: StateView,
    token: TokenView,
    buyer: Seq<char>,
    flat_deduction: u128,
) -> Seq<InstructionView> {
    let rate = pre.royalties.seller_fee_basis_points as int;
    let royalty = royalty_of(token.price as int, rate);
    creator_payments(pre.royalties.creators, royalty).push(
        InstructionView {
            msg: payment_to(TREASURY@, platform_fee_of(token.price + royalty)),
            best_effort: false,
        },
    ).push(
        InstructionView {
            msg: payment_to(
                token.owner,
                seller_payout_of(token.price as int, rate, flat_deduction as int),
            ),
            best_effort: false,
        },
    ).push(
        InstructionView { msg: transfer_of(pre.contract, buyer, token.id), best_effort: false },
    )
}

/// What `buy` does.
pub open spec fn buy_outcome(
    pre: StateView,
    id: Seq<char>,
    info: MessageInfoView,
    env: EnvView,
    flat_deduction: u128,
) -> Outcome {
    let live = unexpired(pre.listed, env.time);
    let rate = pre.royalties.seller_fee_basis_points as int;
    match listing_index(live, id) {
        None => Err(ContractError::NotFound {  }),
        Some(i) => if !pre.royalties.valid() {
            Err(ContractError::InvalidRoyalties {  })
        } else {
            match paid(info.funds, DENOM@) {
                None => Err(ContractError::InsufficientFunds {  }),
                Some(payment) => if payment < live[i].price + royalty_of(live[i].price as int, rate)
                    || seller_payout_of(live[i].price as int, rate, flat_deduction as int) < 0 {
                    Err(ContractError::InsufficientFunds {  })
                } else {
                    Ok(
                        (
                            pre.with_listed(in_price_order(live.remove(i))),
                            ResponseView {
                                attributes: Seq::empty(),
                                messages: sale_instructions(
                                    pre,
                                    live[i],
                                    info.sender,
                                    flat_deduction,
                                ),
                            },
                        ),
                    )
                },
            }
        },
    }
}

/// Sells the token `id` to `info.sender` for the funds attached.
///
/// Listings that have lapsed at the clock reading `env.time` count as gone. The sale
/// fails with `NotFound` where no listing for the token is left; with `InvalidRoyalties`
/// where the royalty configuration of the state cannot be applied; and with
/// `InsufficientFunds` where the funds are not exactly one coin of the accepted
/// denomination, where they are less than price plus royalty, and where the price does not
/// cover royalty, platform fee and `flat_deduction`.
///
/// Else the table keeps the listings that have not lapsed, without the one sold, in price
/// order, and the response holds one payment to each creator, last creator first, the
/// payment of the platform fee to the treasury, the payment of the proceeds to the seller,
/// and the instruction to move the token to the buyer.
pub fn buy(
    state: &mut State,
    id: String,
    info: &MessageInfo,
    env: Env,
    flat_deduction: u128,
) -> (result: Result<Response, ContractError>)
    ensures
        achieved(
            result,
            old(state)@,
            final(state)@,
            buy_outcome(old(state)@, id@, info@, env@, flat_deduction),
        ),
        old(state)@.wf() ==> final(state)@.wf(),
{
    let mut live = sweep_expired(&state.listed, env.time);
    let index = match check_duplicate(live.as_slice(), &id) {
        Some(i) => i,
        None => {
            return Err(ContractError::NotFound {  });
        },
    };
    let ghost swept = tokens_view(live@);
    proof {
        lemma_listing_index(swept, id@);
    }
    let ghost target = swept[index as int];
    let rate = state.royalties.seller_fee_basis_points;
    if !check_royalties(rate, &state.royalties.creators) {
        return Err(ContractError::InvalidRoyalties {  });
    }
    let payment = match must_pay(info, DENOM) {
        Ok(amount) => amount,
        Err(_) => {
            return Err(ContractError::InsufficientFunds {  });
        },
    };
    let price = live[index].price;
    let royalty = royalty_amount(price, rate);
    if payment < price || payment - price < royalty {
        return Err(ContractError::InsufficientFunds {  });
    }
    let fee = platform_fee(price + royalty);
    let net = price - royalty;
    if net < fee || net - fee < flat_deduction {
        return Err(ContractError::InsufficientFunds {  });
    }
    let proceeds = net - fee - flat_deduction;

    let mut resp = pay_creators(&state.royalties.creators, royalty);
    let sold = live.remove(index);
    assert(sold@ == target);
    assert(tokens_view(live@) =~= swept.remove(index as int));
    resp = resp.add_message(pay(TREASURY.to_owned(), fee));
    resp = resp.add_message(pay(sold.owner, proceeds));
    resp = resp.add_message(
        Messages::Execute(
            WasmExecute {
                contract_addr: state.contract.clone(),
                msg: RegistryCall::Transfer(
                    Tmessage {
                        transfer_nft: SendTokenMsg {
                            recipient: info.sender.clone(),
                            token_id: sold.id,
                        },
                    },
                ),
            },
        ),
    );
    sort_by_price(&mut live);
    proof {
        lemma_unexpired(old(state)@.listed, env.time);
        lemma_remove_listing(swept, index as int);
        lemma_in_price_order(swept.remove(index as int));
    }
    state.listed = live;
    Ok(resp)
}

} // verus!
