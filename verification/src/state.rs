//! The exchange state and its listing table.
//!
//! The table holds the active listings, at most one per token, and is put in ascending order
//! of price after every change. Listings of equal price keep the order in which they came.

use crate::msg::{Royalties, RoyaltiesView};
use vstd::prelude::*;
use vstd::seq_lib::to_multiset_insert;

verus! {

/// An offer to sell one token.
#[derive(Debug, PartialEq, Eq)]
pub struct Token {
    /// The token on offer.
    pub id: String,
    /// The seller.
    pub owner: String,
    pub is_listed: bool,
    /// The asking price, in the smallest unit of the currency.
    pub price: u128,
    /// When the offer lapses, in seconds of Unix time; 0 means never.
    pub expires: i128,
}

/// A `Token` as plain data.
pub struct TokenView {
    pub id: Seq<char>,
    pub owner: Seq<char>,
    pub is_listed: bool,
    pub price: u128,
    pub expires: i128,
}

impl TokenView {
    /// Whether the offer has lapsed at the clock reading `now`.
    pub open spec fn expired(self, now: u64) -> bool {
        self.expires != 0 && self.expires <= now
    }
}

impl View for Token {
    type V = TokenView;

    open spec fn view(&self) -> TokenView {
        TokenView {
            id: self.id@,
            owner: self.owner@,
            is_listed: self.is_listed,
            price: self.price,
            expires: self.expires,
        }
    }
}

impl Clone for Token {
    fn clone(&self) -> (copy: Self)
        ensures
            copy@ == self@,
    {
        Token {
            id: self.id.clone(),
            owner: self.owner.clone(),
            is_listed: self.is_listed,
            price: self.price,
            expires: self.expires,
        }
    }
}

impl Token {
    /// Whether the offer has lapsed at the clock reading `now`.
    pub fn is_expired(&self, now: u64) -> (lapsed: bool)
        ensures
            lapsed == self@.expired(now),
    {
        self.expires != 0 && self.expires <= now as i128
    }
}

/// The listings of a table as plain data, in the same order.
pub open spec fn tokens_view(tokens: Seq<Token>) -> Seq<TokenView> {
    tokens.map_values(|t: Token| t@)
}

/// No two listings of the table are for the same token.
pub open spec fn unique_ids(listed: Seq<TokenView>) -> bool {
    forall|i: int, j: int| 0 <= i < j < listed.len() ==> listed[i].id != listed[j].id
}

/// Every listing of the table is marked as active.
pub open spec fn all_active(listed: Seq<TokenView>) -> bool {
    forall|i: int| 0 <= i < listed.len() ==> (#[trigger] listed[i]).is_listed
}

/// Whether the table holds a listing for the token `id`.
pub open spec fn has_listing(listed: Seq<TokenView>, id: Seq<char>) -> bool {
    exists|i: int| 0 <= i < listed.len() && #[trigger] listed[i].id == id
}

/// Where in the table the listing for the token `id` stands: the last such place, should
/// there be several.
pub open spec fn listing_index(listed: Seq<TokenView>, id: Seq<char>) -> Option<int>
    decreases listed.len(),
{
    if listed.len() == 0 {
        None
    } else if listed.last().id == id {
        Some(listed.len() - 1)
    } else {
        listing_index(listed.drop_last(), id)
    }
}

/// What `listing_index` finds: a place that holds the token, with no such place behind it;
/// and it finds nothing only where no place holds the token.
pub proof fn lemma_listing_index(listed: Seq<TokenView>, id: Seq<char>)
    ensures
        match listing_index(listed, id) {
            Some(i) => 0 <= i < listed.len() && listed[i].id == id && forall|j: int|
                i < j < listed.len() ==> listed[j].id != id,
            None => forall|j: int| 0 <= j < listed.len() ==> listed[j].id != id,
        },
        listing_index(listed, id) is Some <==> has_listing(listed, id),
    decreases listed.len(),
{
    if listed.len() == 0 {
    } else if listed.last().id == id {
        assert(listed[listed.len() - 1].id == id);
    } else {
        let front = listed.drop_last();
        lemma_listing_index(front, id);
        assert forall|j: int| 0 <= j < front.len() implies front[j] == listed[j] by {}
        if has_listing(listed, id) {
            let k = choose|k: int| 0 <= k < listed.len() && #[trigger] listed[k].id == id;
            assert(front[k].id == id);
        }
        if has_listing(front, id) {
            let k = choose|k: int| 0 <= k < front.len() && #[trigger] front[k].id == id;
            assert(listed[k].id == id);
        }
    }
}

/// Whether the prices of the table ascend.
pub open spec fn sorted_by_price(listed: Seq<TokenView>) -> bool {
    forall|i: int, j: int| 0 <= i <= j < listed.len() ==> listed[i].price <= listed[j].price
}

/// Where a listing at `price` enters the table: behind the last listing that is not dearer.
pub open spec fn insertion_point(listed: Seq<TokenView>, price: u128) -> int
    decreases listed.len(),
{
    if listed.len() == 0 {
        0
    } else if listed.last().price <= price {
        listed.len() as int
    } else {
        insertion_point(listed.drop_last(), price)
    }
}

/// The table with `token` entered at its insertion point.
pub open spec fn inserted_by_price(listed: Seq<TokenView>, token: TokenView) -> Seq<TokenView> {
    listed.insert(insertion_point(listed, token.price), token)
}

/// The listings of the table in ascending order of price, those of equal price in the
/// order in which the table holds them.
pub open spec fn in_price_order(listed: Seq<TokenView>) -> Seq<TokenView>
    decreases listed.len(),
{
    if listed.len() == 0 {
        listed
    } else {
        inserted_by_price(in_price_order(listed.drop_last()), listed.last())
    }
}

/// Chooses the listings that have not lapsed at the clock reading `now`.
pub open spec fn unexpired_at(now: u64) -> spec_fn(TokenView) -> bool {
    |t: TokenView| !t.expired(now)
}

/// The listings of the table that have not lapsed at the clock reading `now`, in the order
/// of the table.
pub open spec fn unexpired(listed: Seq<TokenView>, now: u64) -> Seq<TokenView> {
    listed.filter(unexpired_at(now))
}

/// The insertion point is the one place with only dearer listings behind it and a listing
/// that is not dearer, if any, just before it.
pub proof fn lemma_insertion_point(listed: Seq<TokenView>, price: u128, i: int)
    requires
        0 <= i <= listed.len(),
        forall|k: int| i <= k < listed.len() ==> listed[k].price > price,
        i == 0 || listed[i - 1].price <= price,
    ensures
        insertion_point(listed, price) == i,
    decreases listed.len(),
{
    if listed.len() > i {
        lemma_insertion_point(listed.drop_last(), price, i);
    }
}

/// Where the insertion point lies.
pub proof fn lemma_insertion_point_bounds(listed: Seq<TokenView>, price: u128)
    ensures
        0 <= insertion_point(listed, price) <= listed.len(),
        forall|k: int|
            insertion_point(listed, price) <= k < listed.len() ==> listed[k].price > price,
        insertion_point(listed, price) == 0 || listed[insertion_point(listed, price) - 1].price
            <= price,
    decreases listed.len(),
{
    if listed.len() > 0 && listed.last().price > price {
        let front = listed.drop_last();
        lemma_insertion_point_bounds(front, price);
        assert forall|k: int| 0 <= k < front.len() implies front[k] == listed[k] by {}
    }
}

/// Entering a listing adds it to the table and takes nothing away; an ordered table stays
/// ordered, and a table without the token stays free of duplicates.
pub proof fn lemma_inserted_by_price(listed: Seq<TokenView>, token: TokenView)
    ensures
        inserted_by_price(listed, token).len() == listed.len() + 1,
        inserted_by_price(listed, token).to_multiset() == listed.to_multiset().insert(token),
        forall|t: TokenView|
            inserted_by_price(listed, token).contains(t) <==> listed.contains(t) || t == token,
        sorted_by_price(listed) ==> sorted_by_price(inserted_by_price(listed, token)),
        unique_ids(listed) && !has_listing(listed, token.id) ==> unique_ids(
            inserted_by_price(listed, token),
        ),
{
    let at = insertion_point(listed, token.price);
    let entered = inserted_by_price(listed, token);
    lemma_insertion_point_bounds(listed, token.price);
    to_multiset_insert(listed, at, token);
    listed.insert_ensures(at, token);
    assert forall|t: TokenView| entered.contains(t) <==> listed.contains(t) || t == token by {
        if entered.contains(t) {
            let k = choose|k: int| 0 <= k < entered.len() && entered[k] == t;
            if k < at {
                assert(listed[k] == t);
            } else if k > at {
                assert(listed[k - 1] == t);
            }
        }
        if listed.contains(t) {
            let k = choose|k: int| 0 <= k < listed.len() && listed[k] == t;
            if k < at {
                assert(entered[k] == t);
            } else {
                assert(entered[k + 1] == t);
            }
        }
        if t == token {
            assert(entered[at] == t);
        }
    }
    if sorted_by_price(listed) {
        assert forall|i: int, j: int| 0 <= i <= j < entered.len() implies entered[i].price
            <= entered[j].price by {
            let a = if i < at {
                listed[i]
            } else if i == at {
                token
            } else {
                listed[i - 1]
            };
            let b = if j < at {
                listed[j]
            } else if j == at {
                token
            } else {
                listed[j - 1]
            };
            assert(entered[i] == a);
            assert(entered[j] == b);
            if i < at && j >= at {
                assert(listed[i].price <= listed[at - 1].price);
            }
        }
    }
    if unique_ids(listed) && !has_listing(listed, token.id) {
        assert forall|i: int, j: int| 0 <= i < j < entered.len() implies entered[i].id
            != entered[j].id by {
            let a = if i < at {
                i
            } else {
                i - 1
            };
            let b = if j < at {
                j
            } else {
                j - 1
            };
            if i != at {
                assert(entered[i] == listed[a]);
            }
            if j != at {
                assert(entered[j] == listed[b]);
            }
        }
    }
}

/// Putting a table in price order moves its listings and changes none: the result ascends
/// in price, holds the same listings as often, and is free of duplicates if the table was.
pub proof fn lemma_in_price_order(listed: Seq<TokenView>)
    ensures
        sorted_by_price(in_price_order(listed)),
        in_price_order(listed).len() == listed.len(),
        in_price_order(listed).to_multiset() == listed.to_multiset(),
        forall|t: TokenView| in_price_order(listed).contains(t) <==> listed.contains(t),
        forall|id: Seq<char>| has_listing(in_price_order(listed), id) <==> has_listing(listed, id),
        unique_ids(listed) ==> unique_ids(in_price_order(listed)),
        all_active(listed) ==> all_active(in_price_order(listed)),
    decreases listed.len(),
{
    let ordered = in_price_order(listed);
    if listed.len() == 0 {
    } else {
        let front = listed.drop_last();
        let last = listed.last();
        lemma_in_price_order(front);
        lemma_inserted_by_price(in_price_order(front), last);
        assert(listed == front.push(last));
        front.to_multiset_ensures();
        assert forall|t: TokenView| ordered.contains(t) <==> listed.contains(t) by {
            if listed.contains(t) {
                let k = choose|k: int| 0 <= k < listed.len() && listed[k] == t;
                if k < front.len() {
                    assert(front[k] == t);
                }
            }
            if front.contains(t) {
                let k = choose|k: int| 0 <= k < front.len() && front[k] == t;
                assert(listed[k] == t);
            }
            if t == last {
                assert(listed[listed.len() - 1] == t);
            }
        }
        lemma_same_listings_same_ids(ordered, listed);
        if all_active(listed) {
            lemma_listings_among_active(ordered, listed);
        }
        if unique_ids(listed) {
            assert forall|i: int, j: int| 0 <= i < j < front.len() implies front[i].id
                != front[j].id by {
                assert(front[i] == listed[i] && front[j] == listed[j]);
            }
            if has_listing(in_price_order(front), last.id) {
                assert(has_listing(front, last.id));
                let k = choose|k: int| 0 <= k < front.len() && #[trigger] front[k].id == last.id;
                assert(listed[k].id == listed[listed.len() - 1].id);
            }
        }
    }
}

/// In a table without duplicates, the listing for a token stands where `listing_index`
/// says, and nowhere else.
pub proof fn lemma_listing_index_unique(listed: Seq<TokenView>, k: int)
    requires
        unique_ids(listed),
        0 <= k < listed.len(),
    ensures
        listing_index(listed, listed[k].id) == Some(k),
{
    lemma_listing_index(listed, listed[k].id);
}

/// Putting a table without duplicates in price order keeps two listings in their order
/// unless the first of them is dearer than the second.
pub proof fn lemma_in_price_order_is_stable(listed: Seq<TokenView>, i: int, j: int)
    requires
        unique_ids(listed),
        0 <= i < j < listed.len(),
        listed[i].price <= listed[j].price,
    ensures
        listing_index(in_price_order(listed), listed[i].id) matches Some(a) && listing_index(
            in_price_order(listed),
            listed[j].id,
        ) matches Some(b) && a < b,
    decreases listed.len(),
{
    let front = listed.drop_last();
    let last = listed.last();
    let sorted_front = in_price_order(front);
    let at = insertion_point(sorted_front, last.price);
    let ordered = in_price_order(listed);
    assert forall|a: int, b: int| 0 <= a < b < front.len() implies front[a].id
        != front[b].id by {
        assert(front[a] == listed[a] && front[b] == listed[b]);
    }
    lemma_in_price_order(front);
    lemma_in_price_order(listed);
    lemma_insertion_point_bounds(sorted_front, last.price);
    sorted_front.insert_ensures(at, last);

    // Where the first of the two listings stands among the sorted listings before the last.
    assert(front[i].id == listed[i].id);
    assert(has_listing(front, listed[i].id));
    lemma_listing_index(sorted_front, listed[i].id);
    let a = listing_index(sorted_front, listed[i].id)->Some_0;
    let a_ordered = if a < at {
        a
    } else {
        a + 1
    };
    assert(ordered[a_ordered] == sorted_front[a]);
    lemma_listing_index_unique(ordered, a_ordered);

    if j < front.len() {
        assert(front[i] == listed[i] && front[j] == listed[j]);
        lemma_in_price_order_is_stable(front, i, j);
        lemma_listing_index(sorted_front, listed[j].id);
        let b = listing_index(sorted_front, listed[j].id)->Some_0;
        let b_ordered = if b < at {
            b
        } else {
            b + 1
        };
        assert(ordered[b_ordered] == sorted_front[b]);
        lemma_listing_index_unique(ordered, b_ordered);
    } else {
        assert(ordered[at] == last);
        lemma_listing_index_unique(ordered, at);
        // The first listing itself stands at `a`: no other listing has its token.
        assert(sorted_front.contains(sorted_front[a]));
        assert(front.contains(sorted_front[a]));
        let m = choose|m: int| 0 <= m < front.len() && front[m] == sorted_front[a];
        if m < i {
            assert(front[m].id != front[i].id);
        } else if i < m {
            assert(front[i].id != front[m].id);
        }
        assert(sorted_front[a].price <= last.price);
    }
}

/// A table whose listings are all found in a table of active listings holds active
/// listings only.
pub proof fn lemma_listings_among_active(part: Seq<TokenView>, whole: Seq<TokenView>)
    requires
        forall|t: TokenView| part.contains(t) ==> whole.contains(t),
        all_active(whole),
    ensures
        all_active(part),
{
    assert forall|i: int| 0 <= i < part.len() implies (#[trigger] part[i]).is_listed by {
        assert(part.contains(part[i]));
        let k = choose|k: int| 0 <= k < whole.len() && whole[k] == part[i];
        assert(whole[k].is_listed);
    }
}

/// Tables that hold the same listings hold listings for the same tokens.
pub proof fn lemma_same_listings_same_ids(a: Seq<TokenView>, b: Seq<TokenView>)
    requires
        forall|t: TokenView| a.contains(t) <==> b.contains(t),
    ensures
        forall|id: Seq<char>| has_listing(a, id) <==> has_listing(b, id),
{
    assert forall|id: Seq<char>| has_listing(a, id) <==> has_listing(b, id) by {
        if has_listing(a, id) {
            let k = choose|k: int| 0 <= k < a.len() && #[trigger] a[k].id == id;
            assert(a.contains(a[k]));
            let m = choose|m: int| 0 <= m < b.len() && b[m] == a[k];
            assert(b[m].id == id);
        }
        if has_listing(b, id) {
            let k = choose|k: int| 0 <= k < b.len() && #[trigger] b[k].id == id;
            assert(b.contains(b[k]));
            let m = choose|m: int| 0 <= m < a.len() && a[m] == b[k];
            assert(a[m].id == id);
        }
    }
}

/// A table whose prices ascend is already in price order.
pub proof fn lemma_in_price_order_of_sorted(listed: Seq<TokenView>)
    requires
        sorted_by_price(listed),
    ensures
        in_price_order(listed) == listed,
    decreases listed.len(),
{
    if listed.len() > 0 {
        let front = listed.drop_last();
        lemma_in_price_order_of_sorted(front);
        lemma_insertion_point(front, listed.last().price, front.len() as int);
        assert(front.insert(front.len() as int, listed.last()) =~= listed);
    }
}

/// Taking a listing out of a table leaves a table without duplicates free of duplicates and
/// of the token that was taken out, and an ordered table ordered.
pub proof fn lemma_remove_listing(listed: Seq<TokenView>, i: int)
    requires
        0 <= i < listed.len(),
    ensures
        unique_ids(listed) ==> unique_ids(listed.remove(i)) && !has_listing(
            listed.remove(i),
            listed[i].id,
        ),
        sorted_by_price(listed) ==> sorted_by_price(listed.remove(i)),
        all_active(listed) ==> all_active(listed.remove(i)),
        forall|id: Seq<char>|
            id != listed[i].id ==> (has_listing(listed.remove(i), id) <==> has_listing(listed, id)),
{
    let rest = listed.remove(i);
    listed.remove_ensures(i);
    assert forall|k: int| 0 <= k < rest.len() implies rest[k] == listed[if k < i {
        k
    } else {
        k + 1
    }] by {}
    if unique_ids(listed) {
        assert forall|a: int, b: int| 0 <= a < b < rest.len() implies rest[a].id
            != rest[b].id by {
            let a0 = if a < i {
                a
            } else {
                a + 1
            };
            let b0 = if b < i {
                b
            } else {
                b + 1
            };
            assert(rest[a] == listed[a0]);
            assert(rest[b] == listed[b0]);
        }
        if has_listing(rest, listed[i].id) {
            let k = choose|k: int| 0 <= k < rest.len() && #[trigger] rest[k].id == listed[i].id;
            let k0 = if k < i {
                k
            } else {
                k + 1
            };
            assert(rest[k] == listed[k0]);
            if k0 < i {
                assert(listed[k0].id != listed[i].id);
            } else {
                assert(listed[i].id != listed[k0].id);
            }
        }
    }
    if all_active(listed) {
        assert forall|k: int| 0 <= k < rest.len() implies (#[trigger] rest[k]).is_listed by {
            let k0 = if k < i {
                k
            } else {
                k + 1
            };
            assert(rest[k] == listed[k0]);
        }
    }
    if sorted_by_price(listed) {
        assert forall|a: int, b: int| 0 <= a <= b < rest.len() implies rest[a].price
            <= rest[b].price by {
            let a0 = if a < i {
                a
            } else {
                a + 1
            };
            let b0 = if b < i {
                b
            } else {
                b + 1
            };
            assert(rest[a] == listed[a0]);
            assert(rest[b] == listed[b0]);
        }
    }
    assert forall|id: Seq<char>| id != listed[i].id implies (has_listing(rest, id)
        <==> has_listing(listed, id)) by {
        if has_listing(rest, id) {
            let k = choose|k: int| 0 <= k < rest.len() && #[trigger] rest[k].id == id;
            let k0 = if k < i {
                k
            } else {
                k + 1
            };
            assert(listed[k0].id == id);
        }
        if has_listing(listed, id) {
            let k = choose|k: int| 0 <= k < listed.len() && #[trigger] listed[k].id == id;
            let k0 = if k < i {
                k
            } else {
                k - 1
            };
            assert(rest[k0].id == id);
        }
    }
}

/// An active listing for a token that the table does not hold can be appended to a table
/// of active listings without duplicates, and the table stays one.
pub proof fn lemma_push_listing(listed: Seq<TokenView>, token: TokenView)
    requires
        !has_listing(listed, token.id),
    ensures
        unique_ids(listed) ==> unique_ids(listed.push(token)),
        all_active(listed) && token.is_listed ==> all_active(listed.push(token)),
{
    let longer = listed.push(token);
    if unique_ids(listed) {
        assert forall|i: int, j: int| 0 <= i < j < longer.len() implies longer[i].id
            != longer[j].id by {
            if j == listed.len() {
                assert(listed[i].id != token.id);
            }
        }
    }
    if all_active(listed) && token.is_listed {
        assert forall|i: int| 0 <= i < longer.len() implies (#[trigger] longer[i]).is_listed by {
            if i < listed.len() {
                assert(longer[i] == listed[i]);
            }
        }
    }
}

/// The listing for the token `id` that a buyer finds at the clock reading `now`: the one
/// that the table holds, unless it has lapsed.
pub open spec fn on_offer(listed: Seq<TokenView>, id: Seq<char>, now: u64) -> Option<TokenView> {
    match listing_index(unexpired(listed, now), id) {
        Some(i) => Some(unexpired(listed, now)[i]),
        None => None,
    }
}

/// Sweeping a table keeps exactly its listings that have not lapsed; a table without
/// duplicates stays free of duplicates, and an ordered table ordered.
pub proof fn lemma_unexpired(listed: Seq<TokenView>, now: u64)
    ensures
        unexpired(listed, now).len() <= listed.len(),
        forall|t: TokenView|
            unexpired(listed, now).contains(t) <==> listed.contains(t) && !t.expired(now),
        unique_ids(listed) ==> unique_ids(unexpired(listed, now)),
        sorted_by_price(listed) ==> sorted_by_price(unexpired(listed, now)),
        all_active(listed) ==> all_active(unexpired(listed, now)),
        (forall|i: int| 0 <= i < listed.len() ==> !listed[i].expired(now)) ==> unexpired(
            listed,
            now,
        ) == listed,
    decreases listed.len(),
{
    let keep = unexpired_at(now);
    let live = unexpired(listed, now);
    if listed.len() == 0 {
        reveal(Seq::filter);
    } else {
        let front = listed.drop_last();
        let last = listed.last();
        lemma_unexpired(front, now);
        assert(listed == front.push(last));
        front.lemma_filter_push(last, keep);
        let live_front = unexpired(front, now);
        assert forall|t: TokenView| live.contains(t) <==> listed.contains(t) && !t.expired(
            now,
        ) by {
            if live.contains(t) {
                let k = choose|k: int| 0 <= k < live.len() && live[k] == t;
                if k < live_front.len() {
                    assert(live_front[k] == t);
                    assert(live_front.contains(t));
                    let m = choose|m: int| 0 <= m < front.len() && front[m] == t;
                    assert(listed[m] == t);
                } else {
                    assert(t == last);
                    assert(listed[listed.len() - 1] == t);
                }
            }
            if listed.contains(t) && !t.expired(now) {
                let k = choose|k: int| 0 <= k < listed.len() && listed[k] == t;
                if k < front.len() {
                    assert(front[k] == t);
                    assert(front.contains(t));
                    let m = choose|m: int| 0 <= m < live_front.len() && live_front[m] == t;
                    assert(live[m] == t);
                } else {
                    assert(live[live.len() - 1] == t);
                }
            }
        }
        if all_active(listed) {
            lemma_listings_among_active(live, listed);
        }
        if unique_ids(listed) {
            assert(unique_ids(front));
            assert forall|i: int, j: int| 0 <= i < j < live.len() implies live[i].id
                != live[j].id by {
                if j == live_front.len() {
                    assert(live_front.contains(live_front[i]));
                    let m = choose|m: int| 0 <= m < front.len() && front[m] == live_front[i];
                    assert(listed[m].id != listed[listed.len() - 1].id);
                }
            }
        }
        if sorted_by_price(listed) {
            assert(sorted_by_price(front));
            assert forall|i: int, j: int| 0 <= i <= j < live.len() implies live[i].price
                <= live[j].price by {
                if j == live_front.len() && i < j {
                    assert(live_front.contains(live_front[i]));
                    let m = choose|m: int| 0 <= m < front.len() && front[m] == live_front[i];
                    assert(listed[m].price <= listed[listed.len() - 1].price);
                }
            }
        }
        if forall|i: int| 0 <= i < listed.len() ==> !listed[i].expired(now) {
            assert forall|i: int| 0 <= i < front.len() implies !front[i].expired(now) by {
                assert(front[i] == listed[i]);
            }
            assert(!listed[listed.len() - 1].expired(now));
        }
    }
}

/// The root record of the exchange.
#[derive(Debug, PartialEq, Eq)]
pub struct State {
    /// The moderation flag.
    pub flagged: bool,
    pub collection: String,
    /// Address of the token registry.
    pub contract: String,
    pub description: String,
    pub symbol: String,
    pub logo_uri: String,
    pub banner_uri: String,
    pub supply: i32,
    /// The collection authority as the registry named it when the exchange was set up.
    pub owner: String,
    pub royalties: Royalties,
    /// The listing table.
    pub listed: Vec<Token>,
    pub contact: String,
    pub discord: String,
    pub twitter: String,
    pub telegram: String,
    pub website: String,
}

/// A `State` as plain data.
pub struct StateView {
    pub flagged: bool,
    pub collection: Seq<char>,
    pub contract: Seq<char>,
    pub description: Seq<char>,
    pub symbol: Seq<char>,
    pub logo_uri: Seq<char>,
    pub banner_uri: Seq<char>,
    pub supply: i32,
    pub owner: Seq<char>,
    pub royalties: RoyaltiesView,
    pub listed: Seq<TokenView>,
    pub contact: Seq<char>,
    pub discord: Seq<char>,
    pub twitter: Seq<char>,
    pub telegram: Seq<char>,
    pub website: Seq<char>,
}

impl StateView {
    /// What holds of every state that the exchange has produced: the table holds active
    /// listings only and none twice for one token, it ascends in price, and the royalty
    /// configuration can be applied to any sale.
    pub open spec fn wf(self) -> bool {
        &&& all_active(self.listed)
        &&& unique_ids(self.listed)
        &&& sorted_by_price(self.listed)
        &&& self.royalties.valid()
    }

    /// This state with another listing table.
    pub open spec fn with_listed(self, listed: Seq<TokenView>) -> StateView {
        StateView { listed, ..self }
    }
}

impl View for State {
    type V = StateView;

    open spec fn view(&self) -> StateView {
        StateView {
            flagged: self.flagged,
            collection: self.collection@,
            contract: self.contract@,
            description: self.description@,
            symbol: self.symbol@,
            logo_uri: self.logo_uri@,
            banner_uri: self.banner_uri@,
            supply: self.supply,
            owner: self.owner@,
            royalties: self.royalties@,
            listed: tokens_view(self.listed@),
            contact: self.contact@,
            discord: self.discord@,
            twitter: self.twitter@,
            telegram: self.telegram@,
            website: self.website@,
        }
    }
}

impl Clone for State {
    fn clone(&self) -> (copy: Self)
        ensures
            copy@ == self@,
    {
        State {
            flagged: self.flagged,
            collection: self.collection.clone(),
            contract: self.contract.clone(),
            description: self.description.clone(),
            symbol: self.symbol.clone(),
            logo_uri: self.logo_uri.clone(),
            banner_uri: self.banner_uri.clone(),
            supply: self.supply,
            owner: self.owner.clone(),
            royalties: self.royalties.clone(),
            listed: clone_tokens(&self.listed),
            contact: self.contact.clone(),
            discord: self.discord.clone(),
            twitter: self.twitter.clone(),
            telegram: self.telegram.clone(),
            website: self.website.clone(),
        }
    }
}

/// Copies a listing table.
pub fn clone_tokens(table: &Vec<Token>) -> (copy: Vec<Token>)
    ensures
        tokens_view(copy@) == tokens_view(table@),
{
    let mut copy: Vec<Token> = Vec::new();
    let mut i: usize = 0;
    while i < table.len()
        invariant
            i <= table@.len(),
            copy@.len() == i,
            forall|k: int| 0 <= k < i ==> copy@[k]@ == table@[k]@,
        decreases table@.len() - i,
    {
        copy.push(table[i].clone());
        i += 1;
    }
    assert(tokens_view(copy@) =~= tokens_view(table@));
    copy
}

/// The listings of `table` that have not lapsed at the clock reading `now`, in the order
/// of the table.
pub fn sweep_expired(table: &Vec<Token>, now: u64) -> (live: Vec<Token>)
    ensures
        tokens_view(live@) == unexpired(tokens_view(table@), now),
        forall|t: TokenView|
            tokens_view(live@).contains(t) <==> tokens_view(table@).contains(t) && !t.expired(now),
{
    let ghost all = tokens_view(table@);
    let mut live: Vec<Token> = Vec::new();
    let mut i: usize = 0;
    proof {
        reveal(Seq::filter);
        assert(tokens_view(live@) =~= unexpired(all.take(0), now));
    }
    while i < table.len()
        invariant
            i <= table@.len(),
            all == tokens_view(table@),
            tokens_view(live@) == unexpired(all.take(i as int), now),
        decreases table@.len() - i,
    {
        let ghost before = tokens_view(live@);
        proof {
            assert(all.take(i + 1) == all.take(i as int).push(all[i as int]));
            all.take(i as int).lemma_filter_push(all[i as int], unexpired_at(now));
        }
        if !table[i].is_expired(now) {
            live.push(table[i].clone());
            assert(tokens_view(live@) =~= before.push(all[i as int]));
        }
        i += 1;
    }
    assert(all.take(i as int) == all);
    proof {
        lemma_unexpired(all, now);
    }
    live
}

/// Enters `token` into `table` behind the last listing that is not dearer.
pub fn insert_by_price(table: &mut Vec<Token>, token: Token)
    ensures
        tokens_view(final(table)@) == inserted_by_price(tokens_view(old(table)@), token@),
        tokens_view(final(table)@).to_multiset() == tokens_view(old(table)@).to_multiset().insert(
            token@,
        ),
        sorted_by_price(tokens_view(old(table)@)) ==> sorted_by_price(tokens_view(final(table)@)),
{
    let ghost before = tokens_view(table@);
    let mut i: usize = table.len();
    while i > 0 && table[i - 1].price > token.price
        invariant
            i <= table@.len(),
            before == tokens_view(table@),
            forall|k: int| i <= k < before.len() ==> before[k].price > token.price,
        decreases i,
    {
        i -= 1;
    }
    proof {
        lemma_insertion_point(before, token.price, i as int);
        lemma_inserted_by_price(before, token@);
    }
    table.insert(i, token);
    assert(tokens_view(table@) =~= before.insert(i as int, token@));
}

/// Puts `table` in ascending order of price; listings of equal price keep their order.
pub fn sort_by_price(table: &mut Vec<Token>)
    ensures
        tokens_view(final(table)@) == in_price_order(tokens_view(old(table)@)),
        sorted_by_price(tokens_view(final(table)@)),
        tokens_view(final(table)@).to_multiset() == tokens_view(old(table)@).to_multiset(),
{
    let ghost all = tokens_view(table@);
    let ghost mut done: int = 0;
    let mut ordered: Vec<Token> = Vec::new();
    assert(tokens_view(ordered@) =~= in_price_order(all.take(0)));
    assert(all.skip(0) == all);
    while table.len() > 0
        invariant
            0 <= done <= all.len(),
            tokens_view(table@) == all.skip(done),
            tokens_view(ordered@) == in_price_order(all.take(done)),
        decreases table@.len(),
    {
        let ghost rest = table@;
        let token = table.remove(0);
        proof {
            assert(tokens_view(rest).len() == all.len() - done);
            assert(token@ == tokens_view(rest)[0]);
            assert(tokens_view(table@) =~= tokens_view(rest).remove(0));
            assert(all.skip(done).remove(0) =~= all.skip(done + 1));
            assert(all.take(done + 1).drop_last() =~= all.take(done));
            assert(all.take(done + 1).last() == all[done]);
            done = done + 1;
        }
        insert_by_price(&mut ordered, token);
    }
    assert(all.take(done) == all);
    proof {
        lemma_in_price_order(all);
    }
    *table = ordered;
}

} // verus!
