//! What holds of the operations of the exchange whatever they are given.

use crate::chain::{
    paid, EnvView, InstructionView, MessageInfoView, ResponseView, DENOM, TREASURY,
};
use crate::contract::execute::{
    buy_outcome, creator_payments, delist_outcome, list_outcome, new_listing, patched,
    payment_to, sale_instructions, seller_payout_of, transfer_of, MessagesView,
};
use crate::contract::{
    execute_outcome, instantiate_outcome, GetOwnerResponseView, RegistryAnswerView,
};
use crate::error::ContractError;
use crate::fees::{lemma_mul_ratio_bounded, percent_of, platform_fee_of, royalty_of};
use crate::msg::{
    lemma_shares_total_prefix, lemma_shares_total_split, shares_total, CreatorView,
    ExecuteMsgView, InstantiateMsgView, MetadataUpdateView,
};
use crate::state::{
    has_listing, in_price_order, lemma_in_price_order, lemma_listing_index, lemma_push_listing,
    lemma_remove_listing, lemma_unexpired, listing_index, on_offer, unexpired, unique_ids,
    StateView, TokenView,
};
use vstd::prelude::*;

verus! {

/// One command as it reaches the exchange: the command itself, who sent it with which
/// funds, where and when it runs, what the token registry answered, and the flat deduction
/// in force.
pub struct Step {
    pub env: EnvView,
    pub info: MessageInfoView,
    pub msg: ExecuteMsgView,
    pub answer: RegistryAnswerView,
    pub flat_deduction: u128,
}

/// The state that the command `step` leaves when it runs in the state `pre`. A refused
/// command leaves `pre`.
pub open spec fn state_after(pre: StateView, step: Step) -> StateView {
    match execute_outcome(pre, step.env, step.info, step.msg, step.answer, step.flat_deduction) {
        Ok((post, _)) => post,
        Err(_) => pre,
    }
}

/// The state that the commands `steps` leave when they run one after the other, the first
/// of them in the state `pre`.
pub open spec fn state_after_all(pre: StateView, steps: Seq<Step>) -> StateView
    decreases steps.len(),
{
    if steps.len() == 0 {
        pre
    } else {
        state_after(state_after_all(pre, steps.drop_last()), steps.last())
    }
}

/// A command that runs in a well-formed state leaves a well-formed state: the table holds
/// active listings only and none twice for one token, it ascends in price, and the royalty
/// configuration can be applied to any sale.
pub proof fn lemma_step_keeps_wf(pre: StateView, step: Step)
    requires
        pre.wf(),
    ensures
        state_after(pre, step).wf(),
{
    match step.msg {
        ExecuteMsgView::List { id, price, expires } => {
            let entry = new_listing(id, price, expires, step.info.sender);
            if !has_listing(pre.listed, id) {
                lemma_push_listing(pre.listed, entry);
            }
            lemma_in_price_order(pre.listed.push(entry));
        },
        ExecuteMsgView::Buy { id } => {
            let live = unexpired(pre.listed, step.env.time);
            lemma_unexpired(pre.listed, step.env.time);
            lemma_listing_index(live, id);
            if let Some(i) = listing_index(live, id) {
                lemma_remove_listing(live, i);
                lemma_in_price_order(live.remove(i));
            }
        },
        ExecuteMsgView::DeList { id } => {
            lemma_listing_index(pre.listed, id);
            if let Some(i) = listing_index(pre.listed, id) {
                lemma_remove_listing(pre.listed, i);
                lemma_in_price_order(pre.listed.remove(i));
            }
        },
        ExecuteMsgView::UpdateMetadata { .. } => {},
        ExecuteMsgView::Flag { .. } => {},
    }
}

/// Whatever commands an exchange has run since it was set up, in whatever order, and
/// whether they were carried out or refused: its table holds at most one listing for any
/// token.
pub proof fn lemma_one_listing_per_token(
    msg: InstantiateMsgView,
    owner: Seq<char>,
    steps: Seq<Step>,
)
    ensures
        instantiate_outcome(msg, owner) matches Ok((first, _)) ==> state_after_all(
            first,
            steps,
        ).wf() && unique_ids(state_after_all(first, steps).listed),
    decreases steps.len(),
{
    if let Ok((first, _)) = instantiate_outcome(msg, owner) {
        if steps.len() > 0 {
            lemma_one_listing_per_token(msg, owner, steps.drop_last());
            lemma_step_keeps_wf(state_after_all(first, steps.drop_last()), steps.last());
        }
    }
}

/// A seller who has just listed a token can withdraw the listing at once, and the table is
/// then without a listing for the token.
pub proof fn lemma_list_then_delist(
    pre: StateView,
    id: Seq<char>,
    price: u128,
    expires: i128,
    seller: MessageInfoView,
    resp: GetOwnerResponseView,
    env: EnvView,
)
    requires
        pre.wf(),
        list_outcome(pre, id, price, expires, seller.sender, resp) is Ok,
    ensures
        ({
            let listed = list_outcome(pre, id, price, expires, seller.sender, resp)->Ok_0.0;
            delist_outcome(listed, id, seller, env) matches Ok((post, _)) && !has_listing(
                post.listed,
                id,
            )
        }),
{
    let entry = new_listing(id, price, expires, seller.sender);
    let entered = pre.listed.push(entry);
    let listed = in_price_order(entered);
    lemma_push_listing(pre.listed, entry);
    lemma_in_price_order(entered);
    assert(entered[entered.len() - 1].id == id);
    assert(has_listing(entered, id));
    lemma_listing_index(listed, id);
    let i = listing_index(listed, id)->Some_0;
    assert(listed.contains(listed[i]));
    assert(entered.contains(listed[i]));
    let k = choose|k: int| 0 <= k < entered.len() && entered[k] == listed[i];
    if k < pre.listed.len() {
        assert(pre.listed[k].id == id);
    }
    lemma_remove_listing(listed, i);
    lemma_in_price_order(listed.remove(i));
}

/// Nobody but the owner of a token can list it, and the owner only while an approval is
/// active on it: every other attempt is refused as unauthorized.
pub proof fn lemma_list_needs_owner_and_approval(
    pre: StateView,
    id: Seq<char>,
    price: u128,
    expires: i128,
    owner: Seq<char>,
    resp: GetOwnerResponseView,
)
    requires
        owner != resp.owner || resp.approvals.len() == 0,
    ensures
        list_outcome(pre, id, price, expires, owner, resp) == Err::<
            (StateView, ResponseView),
            ContractError,
        >(ContractError::Unauthorized {  }),
{
}

/// A buyer who attaches less than price plus royalty, or funds that pay nothing, is
/// refused for insufficient funds.
pub proof fn lemma_buy_underpaid(
    pre: StateView,
    id: Seq<char>,
    info: MessageInfoView,
    env: EnvView,
    flat_deduction: u128,
)
    requires
        pre.royalties.valid(),
        on_offer(pre.listed, id, env.time) matches Some(token) && (paid(info.funds, DENOM@)
            matches Some(payment) ==> payment < token.price + royalty_of(
            token.price as int,
            pre.royalties.seller_fee_basis_points as int,
        )),
    ensures
        buy_outcome(pre, id, info, env, flat_deduction) == Err::<
            (StateView, ResponseView),
            ContractError,
        >(ContractError::InsufficientFunds {  }),
{
}

/// A buyer who attaches at least price plus royalty gets the token, provided the price
/// covers royalty, platform fee and flat deduction.
///
/// The table then holds the listings that it held before and that have not lapsed, but
/// for the one sold, each as often as before and unchanged: where none has lapsed, all but
/// the one sold. The rest of the state is as it was. The response holds one payment for
/// each creator, then the payments to the treasury and to the seller, then the instruction
/// to move the token to the buyer, and nothing else.
pub proof fn lemma_buy_settles(
    pre: StateView,
    id: Seq<char>,
    info: MessageInfoView,
    env: EnvView,
    flat_deduction: u128,
)
    requires
        pre.wf(),
        on_offer(pre.listed, id, env.time) matches Some(token) && paid(info.funds, DENOM@)
            matches Some(payment) && payment >= token.price + royalty_of(
            token.price as int,
            pre.royalties.seller_fee_basis_points as int,
        ) && seller_payout_of(
            token.price as int,
            pre.royalties.seller_fee_basis_points as int,
            flat_deduction as int,
        ) >= 0,
    ensures
        ({
            let token = on_offer(pre.listed, id, env.time)->Some_0;
            let creators = pre.royalties.creators.len() as int;
            &&& buy_outcome(pre, id, info, env, flat_deduction) matches Ok((post, resp))
            &&& post == pre.with_listed(post.listed)
            &&& post.listed.to_multiset() == unexpired(
                pre.listed,
                env.time,
            ).to_multiset().remove(token)
            &&& (forall|i: int| 0 <= i < pre.listed.len() ==> !pre.listed[i].expired(env.time))
                ==> post.listed.to_multiset() == pre.listed.to_multiset().remove(token)
            &&& forall|t: TokenView|
                post.listed.contains(t) <==> pre.listed.contains(t) && !t.expired(env.time) && t.id
                    != id
            &&& !has_listing(post.listed, id)
            &&& resp.attributes.len() == 0
            &&& resp.messages.len() == creators + 3
            &&& forall|k: int| 0 <= k < creators + 2 ==> resp.messages[k].msg is Bank
            &&& resp.messages[creators + 2].msg == transfer_of(pre.contract, info.sender, id)
        }),
{
    let live = unexpired(pre.listed, env.time);
    lemma_unexpired(pre.listed, env.time);
    lemma_listing_index(live, id);
    let i = listing_index(live, id)->Some_0;
    let token = live[i];
    let rest = live.remove(i);
    let post_listed = in_price_order(rest);
    lemma_remove_listing(live, i);
    lemma_in_price_order(rest);
    live.to_multiset_ensures();
    assert forall|t: TokenView|
        post_listed.contains(t) <==> pre.listed.contains(t) && !t.expired(env.time) && t.id
            != id by {
        if rest.contains(t) {
            let k = choose|k: int| 0 <= k < rest.len() && rest[k] == t;
            let k0 = if k < i {
                k
            } else {
                k + 1
            };
            assert(live[k0] == t);
            assert(live.contains(t));
            assert(rest[k].id == t.id);
            assert(has_listing(rest, t.id));
        }
        if live.contains(t) && t.id != id {
            let k = choose|k: int| 0 <= k < live.len() && live[k] == t;
            let k0 = if k < i {
                k
            } else {
                k - 1
            };
            assert(rest[k0] == t);
        }
    }
    let royalty = royalty_of(token.price as int, pre.royalties.seller_fee_basis_points as int);
    let payments = creator_payments(pre.royalties.creators, royalty);
    let messages = sale_instructions(pre, token, info.sender, flat_deduction);
    assert forall|k: int| 0 <= k < payments.len() + 2 implies messages[k].msg is Bank by {
        if k < payments.len() {
            assert(messages[k] == payments[k]);
        }
    }
}

/// A token that has been sold cannot be bought again: until it is listed anew, every
/// further purchase finds no listing for it.
pub proof fn lemma_sold_token_is_gone(
    pre: StateView,
    id: Seq<char>,
    info: MessageInfoView,
    env: EnvView,
    flat_deduction: u128,
    later_info: MessageInfoView,
    later_env: EnvView,
    later_flat_deduction: u128,
)
    requires
        pre.wf(),
        buy_outcome(pre, id, info, env, flat_deduction) is Ok,
    ensures
        ({
            let sold = buy_outcome(pre, id, info, env, flat_deduction)->Ok_0.0;
            buy_outcome(sold, id, later_info, later_env, later_flat_deduction) == Err::<
                (StateView, ResponseView),
                ContractError,
            >(ContractError::NotFound {  })
        }),
{
    lemma_buy_settles(pre, id, info, env, flat_deduction);
    let sold = buy_outcome(pre, id, info, env, flat_deduction)->Ok_0.0;
    let later = unexpired(sold.listed, later_env.time);
    lemma_unexpired(sold.listed, later_env.time);
    lemma_listing_index(later, id);
    if let Some(i) = listing_index(later, id) {
        assert(later.contains(later[i]));
        let k = choose|k: int| 0 <= k < sold.listed.len() && sold.listed[k] == later[i];
        assert(sold.listed[k].id == id);
    }
}

/// The sum of the amounts that the payments among `messages` pay.
pub open spec fn paid_out(messages: Seq<InstructionView>) -> int
    decreases messages.len(),
{
    if messages.len() == 0 {
        0
    } else {
        paid_out(messages.drop_last()) + match messages.last().msg {
            MessagesView::Bank(send) => send.amount,
            MessagesView::Execute(_) => 0,
        }
    }
}

/// The creators together receive no more than the royalty pool, whatever is lost to
/// rounding.
pub proof fn lemma_creators_share_the_pool(creators: Seq<CreatorView>, royalty: int)
    requires
        0 <= royalty,
        shares_total(creators) <= 100,
    ensures
        0 <= paid_out(creator_payments(creators, royalty)) <= percent_of(
            royalty,
            shares_total(creators),
        ) <= royalty,
    decreases creators.len(),
{
    let payments = creator_payments(creators, royalty);
    lemma_shares_total_prefix(creators, 0);
    lemma_mul_ratio_bounded(royalty, shares_total(creators), 100);
    if creators.len() > 0 {
        let first = creators.first();
        let rest = creators.drop_first();
        assert(payments.drop_last() =~= creator_payments(rest, royalty));
        lemma_shares_total_split(creators);
        lemma_creators_share_the_pool(rest, royalty);
        lemma_mul_ratio_bounded(royalty, first.share as int, 100);
        assert(royalty * first.share + royalty * shares_total(rest) == royalty * shares_total(
            creators,
        )) by (nonlinear_arith)
            requires
                shares_total(creators) == first.share + shares_total(rest),
        ;
    }
}

/// A sale pays out exactly what the buyer owes, but for the flat deduction and for what
/// the split among the creators loses to rounding: never more than the price, and so never
/// more than the buyer attached.
pub proof fn lemma_sale_pays_out_no_more_than_the_price(
    pre: StateView,
    token: TokenView,
    buyer: Seq<char>,
    flat_deduction: u128,
)
    requires
        pre.royalties.valid(),
        seller_payout_of(
            token.price as int,
            pre.royalties.seller_fee_basis_points as int,
            flat_deduction as int,
        ) >= 0,
    ensures
        ({
            let rate = pre.royalties.seller_fee_basis_points as int;
            let royalty = royalty_of(token.price as int, rate);
            let creators = paid_out(creator_payments(pre.royalties.creators, royalty));
            &&& 0 <= creators <= royalty <= token.price
            &&& paid_out(sale_instructions(pre, token, buyer, flat_deduction)) == creators
                + platform_fee_of(token.price + royalty) + seller_payout_of(
                token.price as int,
                rate,
                flat_deduction as int,
            )
            &&& paid_out(sale_instructions(pre, token, buyer, flat_deduction)) <= token.price
                - flat_deduction
        }),
{
    let rate = pre.royalties.seller_fee_basis_points as int;
    let royalty = royalty_of(token.price as int, rate);
    let payments = creator_payments(pre.royalties.creators, royalty);
    lemma_mul_ratio_bounded(token.price as int, rate, 10_000);
    lemma_creators_share_the_pool(pre.royalties.creators, royalty);
    let with_fee = payments.push(
        InstructionView {
            msg: payment_to(TREASURY@, platform_fee_of(token.price + royalty)),
            best_effort: false,
        },
    );
    let with_proceeds = with_fee.push(
        InstructionView {
            msg: payment_to(
                token.owner,
                seller_payout_of(token.price as int, rate, flat_deduction as int),
            ),
            best_effort: false,
        },
    );
    let all = sale_instructions(pre, token, buyer, flat_deduction);
    assert(with_fee.drop_last() =~= payments);
    assert(with_proceeds.drop_last() =~= with_fee);
    assert(all.drop_last() =~= with_proceeds);
    assert(paid_out(with_fee) == paid_out(payments) + platform_fee_of(token.price + royalty));
    assert(paid_out(with_proceeds) == paid_out(with_fee) + seller_payout_of(
        token.price as int,
        rate,
        flat_deduction as int,
    ));
    assert(paid_out(all) == paid_out(with_proceeds));
}

/// An update that gives nothing but a description changes nothing but the description.
pub proof fn lemma_update_of_description_only(pre: StateView, description: Seq<char>)
    ensures
        patched(pre, description_only(description)) == (StateView { description, ..pre }),
{
}

/// The update that overwrites the description and nothing else.
pub open spec fn description_only(description: Seq<char>) -> MetadataUpdateView {
    MetadataUpdateView {
        creators: None,
        collection: None,
        website: None,
        contact: None,
        twitter: None,
        telegram: None,
        discord: None,
        description: Some(description),
        logo_uri: None,
        banner_uri: None,
        basis_points: None,
    }
}

} // verus!
