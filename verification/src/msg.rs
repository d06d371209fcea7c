//! The commands, queries and answers of the exchange, and the messages it sends to the token
//! registry.

use vstd::prelude::*;

verus! {

/// One recipient of royalties.
#[derive(Debug, PartialEq, Eq)]
pub struct Creator {
    /// Where the recipient is paid.
    pub address: String,
    /// The recipient's part of the royalty pool, in percent.
    pub share: u8,
}

/// A `Creator` as plain data.
pub struct CreatorView {
    pub address: Seq<char>,
    pub share: u8,
}

impl View for Creator {
    type V = CreatorView;

    open spec fn view(&self) -> CreatorView {
        CreatorView { address: self.address@, share: self.share }
    }
}

impl Clone for Creator {
    fn clone(&self) -> (copy: Self)
        ensures
            copy@ == self@,
    {
        Creator { address: self.address.clone(), share: self.share }
    }
}

/// The creators of a list as plain data, in the same order.
pub open spec fn creators_view(creators: Seq<Creator>) -> Seq<CreatorView> {
    creators.map_values(|c: Creator| c@)
}

/// An optional list of creators as plain data.
pub open spec fn creators_option_view(creators: Option<Vec<Creator>>) -> Option<Seq<CreatorView>> {
    match creators {
        Some(list) => Some(creators_view(list@)),
        None => None,
    }
}

/// An optional text as plain data.
pub open spec fn text_option_view(text: Option<String>) -> Option<Seq<char>> {
    match text {
        Some(s) => Some(s@),
        None => None,
    }
}

/// The sum of the shares of all creators.
pub open spec fn shares_total(creators: Seq<CreatorView>) -> int
    decreases creators.len(),
{
    if creators.len() == 0 {
        0
    } else {
        shares_total(creators.drop_last()) + creators.last().share
    }
}

/// A royalty configuration that can be applied to any sale: the rate is at most the whole
/// price and the creators share out at most the whole pool.
pub open spec fn royalties_valid(basis_points: u16, creators: Seq<CreatorView>) -> bool {
    basis_points <= 10_000 && shares_total(creators) <= 100
}

/// The shares of the first creators of a list sum to no more than those of the whole list.
pub proof fn lemma_shares_total_prefix(creators: Seq<CreatorView>, n: int)
    requires
        0 <= n <= creators.len(),
    ensures
        0 <= shares_total(creators.take(n)) <= shares_total(creators),
    decreases creators.len(),
{
    if n == creators.len() {
        assert(creators.take(n) == creators);
        if creators.len() > 0 {
            lemma_shares_total_prefix(creators.drop_last(), n - 1);
        }
    } else {
        lemma_shares_total_prefix(creators.drop_last(), n);
        assert(creators.drop_last().take(n) == creators.take(n));
    }
}

/// No creator of a list has a share above the sum of all shares.
pub proof fn lemma_share_within_total(creators: Seq<CreatorView>, i: int)
    requires
        0 <= i < creators.len(),
    ensures
        creators[i].share <= shares_total(creators),
{
    lemma_shares_total_prefix(creators, i);
    lemma_shares_total_prefix(creators, i + 1);
    assert(creators.take(i + 1).drop_last() == creators.take(i));
}

/// The sum of all shares is the first share plus the sum of the others.
pub proof fn lemma_shares_total_split(creators: Seq<CreatorView>)
    requires
        creators.len() > 0,
    ensures
        shares_total(creators) == creators.first().share + shares_total(creators.drop_first()),
        0 <= shares_total(creators.drop_first()),
    decreases creators.len(),
{
    let rest = creators.drop_first();
    lemma_shares_total_prefix(rest, 0);
    if creators.len() > 1 {
        lemma_shares_total_split(creators.drop_last());
        assert(creators.drop_last().drop_first() == rest.drop_last());
    } else {
        assert(shares_total(creators.drop_last()) == 0);
    }
}

/// The royalty rate and who shares the pool.
#[derive(Debug, PartialEq, Eq)]
pub struct Royalties {
    /// Part of the sale price that goes to the creators, in hundredths of a percent.
    pub seller_fee_basis_points: u16,
    /// The recipients, in the order in which they were configured.
    pub creators: Vec<Creator>,
}

/// `Royalties` as plain data.
pub struct RoyaltiesView {
    pub seller_fee_basis_points: u16,
    pub creators: Seq<CreatorView>,
}

impl RoyaltiesView {
    /// See `royalties_valid`.
    pub open spec fn valid(self) -> bool {
        royalties_valid(self.seller_fee_basis_points, self.creators)
    }
}

impl View for Royalties {
    type V = RoyaltiesView;

    open spec fn view(&self) -> RoyaltiesView {
        RoyaltiesView {
            seller_fee_basis_points: self.seller_fee_basis_points,
            creators: creators_view(self.creators@),
        }
    }
}

/// Copies a list of creators.
pub fn clone_creators(creators: &Vec<Creator>) -> (copy: Vec<Creator>)
    ensures
        creators_view(copy@) == creators_view(creators@),
{
    let mut copy: Vec<Creator> = Vec::new();
    let mut i: usize = 0;
    while i < creators.len()
        invariant
            i <= creators@.len(),
            copy@.len() == i,
            forall|k: int| 0 <= k < i ==> copy@[k]@ == creators@[k]@,
        decreases creators@.len() - i,
    {
        copy.push(creators[i].clone());
        i += 1;
    }
    assert(creators_view(copy@) =~= creators_view(creators@));
    copy
}

impl Clone for Royalties {
    fn clone(&self) -> (copy: Self)
        ensures
            copy@ == self@,
    {
        Royalties {
            seller_fee_basis_points: self.seller_fee_basis_points,
            creators: clone_creators(&self.creators),
        }
    }
}

/// Whether a royalty configuration can be applied to any sale.
pub fn check_royalties(basis_points: u16, creators: &Vec<Creator>) -> (valid: bool)
    ensures
        valid == royalties_valid(basis_points, creators_view(creators@)),
{
    if basis_points > 10_000 {
        return false;
    }
    let ghost all = creators_view(creators@);
    let mut total: u16 = 0;
    let mut i: usize = 0;
    while i < creators.len()
        invariant
            i <= creators@.len(),
            all == creators_view(creators@),
            total == shares_total(all.take(i as int)),
            total <= 100,
        decreases creators@.len() - i,
    {
        proof {
            assert(all.take(i + 1).drop_last() == all.take(i as int));
            lemma_shares_total_prefix(all, i + 1);
        }
        total = total + creators[i].share as u16;
        if total > 100 {
            return false;
        }
        i += 1;
    }
    assert(all.take(i as int) == all);
    true
}

/// What the exchange is set up with.
#[derive(Debug, PartialEq, Eq)]
pub struct InstantiateMsg {
    pub collection: String,
    /// Address of the token registry.
    pub contract: String,
    pub description: String,
    pub symbol: String,
    pub logo_uri: String,
    pub banner_uri: String,
    pub supply: i32,
    pub creators: Vec<Creator>,
    /// 100 basis points are 1% of the list price.
    pub basis_points: u16,
}

/// An `InstantiateMsg` as plain data.
pub struct InstantiateMsgView {
    pub collection: Seq<char>,
    pub contract: Seq<char>,
    pub description: Seq<char>,
    pub symbol: Seq<char>,
    pub logo_uri: Seq<char>,
    pub banner_uri: Seq<char>,
    pub supply: i32,
    pub creators: Seq<CreatorView>,
    pub basis_points: u16,
}

impl View for InstantiateMsg {
    type V = InstantiateMsgView;

    open spec fn view(&self) -> InstantiateMsgView {
        InstantiateMsgView {
            collection: self.collection@,
            contract: self.contract@,
            description: self.description@,
            symbol: self.symbol@,
            logo_uri: self.logo_uri@,
            banner_uri: self.banner_uri@,
            supply: self.supply,
            creators: creators_view(self.creators@),
            basis_points: self.basis_points,
        }
    }
}

/// Asks the registry who owns a token and who is approved to move it.
#[derive(Debug, PartialEq, Eq)]
pub struct OwnerOf {
    pub token_id: String,
}

impl View for OwnerOf {
    type V = Seq<char>;

    open spec fn view(&self) -> Seq<char> {
        self.token_id@
    }
}

/// Asks the registry for the approvals on a token.
#[derive(Debug, PartialEq, Eq)]
pub struct GetApprovals {
    pub token_id: String,
}

/// Asks the registry for its minting details.
#[derive(Clone, Copy, Debug, PartialEq, Eq)]
pub struct MintingInfo {}

/// The fields of collection metadata that an update may overwrite, as plain data. A field
/// that is `None` is left as it is.
pub struct MetadataUpdateView {
    pub creators: Option<Seq<CreatorView>>,
    pub collection: Option<Seq<char>>,
    pub website: Option<Seq<char>>,
    pub contact: Option<Seq<char>>,
    pub twitter: Option<Seq<char>>,
    pub telegram: Option<Seq<char>>,
    pub discord: Option<Seq<char>>,
    pub description: Option<Seq<char>>,
    pub logo_uri: Option<Seq<char>>,
    pub banner_uri: Option<Seq<char>>,
    pub basis_points: Option<u16>,
}

/// A command to the exchange.
#[derive(Debug, PartialEq, Eq)]
pub enum ExecuteMsg {
    /// Offer a token for sale. `expires` is in seconds of Unix time; 0 means never.
    List { id: String, price: u128, expires: i128 },
    /// Buy a listed token with the attached payment.
    Buy { id: String },
    /// Withdraw a listing.
    DeList { id: String },
    /// Overwrite the given fields of the collection metadata.
    UpdateMetadata {
        creators: Option<Vec<Creator>>,
        collection: Option<String>,
        website: Option<String>,
        contact: Option<String>,
        twitter: Option<String>,
        telegram: Option<String>,
        discord: Option<String>,
        description: Option<String>,
        logo_uri: Option<String>,
        banner_uri: Option<String>,
        basis_points: Option<u16>,
    },
    /// Set or clear the moderation flag.
    Flag { enabled: bool },
}

/// An `ExecuteMsg` as plain data.
pub enum ExecuteMsgView {
    List { id: Seq<char>, price: u128, expires: i128 },
    Buy { id: Seq<char> },
    DeList { id: Seq<char> },
    UpdateMetadata { update: MetadataUpdateView },
    Flag { enabled: bool },
}

impl View for ExecuteMsg {
    type V = ExecuteMsgView;

    open spec fn view(&self) -> ExecuteMsgView {
        match *self {
            ExecuteMsg::List { id, price, expires } => ExecuteMsgView::List {
                id: id@,
                price,
                expires,
            },
            ExecuteMsg::Buy { id } => ExecuteMsgView::Buy { id: id@ },
            ExecuteMsg::DeList { id } => ExecuteMsgView::DeList { id: id@ },
            ExecuteMsg::UpdateMetadata {
                creators,
                collection,
                website,
                contact,
                twitter,
                telegram,
                discord,
                description,
                logo_uri,
                banner_uri,
                basis_points,
            } => ExecuteMsgView::UpdateMetadata {
                update: MetadataUpdateView {
                    creators: creators_option_view(creators),
                    collection: text_option_view(collection),
                    website: text_option_view(website),
                    contact: text_option_view(contact),
                    twitter: text_option_view(twitter),
                    telegram: text_option_view(telegram),
                    discord: text_option_view(discord),
                    description: text_option_view(description),
                    logo_uri: text_option_view(logo_uri),
                    banner_uri: text_option_view(banner_uri),
                    basis_points,
                },
            },
            ExecuteMsg::Flag { enabled } => ExecuteMsgView::Flag { enabled },
        }
    }
}

/// Who receives a token, and which.
#[derive(Debug, PartialEq, Eq)]
pub struct SendTokenMsg {
    pub recipient: String,
    pub token_id: String,
}

/// A `SendTokenMsg` as plain data.
pub struct SendTokenMsgView {
    pub recipient: Seq<char>,
    pub token_id: Seq<char>,
}

impl View for SendTokenMsg {
    type V = SendTokenMsgView;

    open spec fn view(&self) -> SendTokenMsgView {
        SendTokenMsgView { recipient: self.recipient@, token_id: self.token_id@ }
    }
}

/// Tells the registry to move a token to a new holder.
#[derive(Debug, PartialEq, Eq)]
pub struct Tmessage {
    pub transfer_nft: SendTokenMsg,
}

impl View for Tmessage {
    type V = SendTokenMsgView;

    open spec fn view(&self) -> SendTokenMsgView {
        self.transfer_nft@
    }
}

/// Whose approval on which token is withdrawn.
#[derive(Debug, PartialEq, Eq)]
pub struct Revoke {
    pub spender: String,
    pub token_id: String,
}

/// A `Revoke` as plain data.
pub struct RevokeView {
    pub spender: Seq<char>,
    pub token_id: Seq<char>,
}

impl View for Revoke {
    type V = RevokeView;

    open spec fn view(&self) -> RevokeView {
        RevokeView { spender: self.spender@, token_id: self.token_id@ }
    }
}

/// Tells the registry to withdraw an approval.
#[derive(Debug, PartialEq, Eq)]
pub struct Rmessage {
    pub revoke: Revoke,
}

impl View for Rmessage {
    type V = RevokeView;

    open spec fn view(&self) -> RevokeView {
        self.revoke@
    }
}

/// A question to the exchange.
#[derive(Clone, Copy, Debug, PartialEq, Eq)]
pub enum QueryMsg {
    /// Answered with a `GetMetadataResponse`.
    GetMetadata {},
    /// Answered with the listing table.
    GetListed {},
}

/// The metadata of the collection.
#[derive(Debug, PartialEq, Eq)]
pub struct GetMetadataResponse {
    pub flagged: bool,
    pub collection: String,
    pub description: String,
    pub symbol: String,
    pub logo_uri: String,
    pub banner_uri: String,
    pub supply: i32,
    pub contract: String,
    pub website: String,
    pub contact: String,
    pub twitter: String,
    pub telegram: String,
    pub discord: String,
}

/// A `GetMetadataResponse` as plain data.
pub struct GetMetadataResponseView {
    pub flagged: bool,
    pub collection: Seq<char>,
    pub description: Seq<char>,
    pub symbol: Seq<char>,
    pub logo_uri: Seq<char>,
    pub banner_uri: Seq<char>,
    pub supply: i32,
    pub contract: Seq<char>,
    pub website: Seq<char>,
    pub contact: Seq<char>,
    pub twitter: Seq<char>,
    pub telegram: Seq<char>,
    pub discord: Seq<char>,
}

impl View for GetMetadataResponse {
    type V = GetMetadataResponseView;

    open spec fn view(&self) -> GetMetadataResponseView {
        GetMetadataResponseView {
            flagged: self.flagged,
            collection: self.collection@,
            description: self.description@,
            symbol: self.symbol@,
            logo_uri: self.logo_uri@,
            banner_uri: self.banner_uri@,
            supply: self.supply,
            contract: self.contract@,
            website: self.website@,
            contact: self.contact@,
            twitter: self.twitter@,
            telegram: self.telegram@,
            discord: self.discord@,
        }
    }
}

/// A token as a front end shows it.
#[derive(Debug, PartialEq, Eq)]
pub struct NFT {
    pub id: String,
    pub uri: String,
    pub owner: String,
    pub is_listed: bool,
}

/// A page of tokens as a front end shows it.
#[derive(Debug, PartialEq, Eq)]
pub struct GetListedResponse {
    pub number: i32,
    pub listed: Vec<NFT>,
}

} // verus!
