//! Ticket series: limited-supply categories of mintable tokens.

use vstd::prelude::*;
use crate::assistance::clone_royalty;
use crate::metadata::{TokenMetadata, TokenMetadataV};

verus! {

/// One ticket category: metadata, price and royalty terms shared by every
/// token it issues, the set of issued token ids, and the mintability gate.
#[derive(Debug)]
pub struct TokenSeries {
    /// Decimal series identifier, unique and monotonically assigned.
    pub token_series_id: String,
    pub metadata: TokenMetadata,
    /// Account that created the series (the event organizer).
    pub creator_id: String,
    /// Ids of the tokens issued so far, in mint order.
    pub tokens: Vec<String>,
    /// False exactly from the moment supply is exhausted, forever.
    pub is_mintable: bool,
    /// Accounts and their basis-point royalty shares.
    pub royalty: Vec<(String, u32)>,
    /// Unit price; a series without one cannot be sold.
    pub price: Option<u128>,
}

/// The mathematical model of a series.
#[verifier::ext_equal]
pub ghost struct TokenSeriesV {
    pub token_series_id: Seq<char>,
    pub metadata: TokenMetadataV,
    pub creator_id: Seq<char>,
    pub tokens: Seq<Seq<char>>,
    pub is_mintable: bool,
    pub royalty: Seq<(Seq<char>, u32)>,
    pub price: Option<u128>,
}

impl View for TokenSeries {
    type V = TokenSeriesV;

    open spec fn view(&self) -> TokenSeriesV {
        TokenSeriesV {
            token_series_id: self.token_series_id.deep_view(),
            metadata: self.metadata.deep_view(),
            creator_id: self.creator_id.deep_view(),
            tokens: self.tokens.deep_view(),
            is_mintable: self.is_mintable,
            royalty: self.royalty.deep_view(),
            price: self.price,
        }
    }
}

impl DeepView for TokenSeries {
    type V = TokenSeriesV;

    open spec fn deep_view(&self) -> TokenSeriesV {
        self.view()
    }
}

/// The number of copies a series may issue: its stated copies, or unbounded
/// (the largest representable count) when none is stated.
pub open spec fn copies_of(s: TokenSeriesV) -> int {
    match s.metadata.copies {
        Some(c) => c as int,
        None => u64::MAX as int,
    }
}

/// The per-series supply invariant: never more issued tokens than copies,
/// and (for a series that can issue at all) the mintability flag is on
/// exactly while supply remains.
pub open spec fn series_wf(s: TokenSeriesV) -> bool {
    &&& s.tokens.len() <= copies_of(s)
    &&& copies_of(s) >= 1 ==> (s.is_mintable <==> s.tokens.len() < copies_of(s))
}

/// The denormalized summary of a series stored with its event and returned
/// by pagination.
#[derive(Debug)]
pub struct TokenSeriesJson {
    pub token_series_id: String,
    pub metadata: TokenMetadata,
    pub creator_id: String,
    pub is_mintable: bool,
    pub price: Option<u128>,
}

/// The mathematical model of a series summary.
#[verifier::ext_equal]
pub ghost struct TokenSeriesJsonV {
    pub token_series_id: Seq<char>,
    pub metadata: TokenMetadataV,
    pub creator_id: Seq<char>,
    pub is_mintable: bool,
    pub price: Option<u128>,
}

impl View for TokenSeriesJson {
    type V = TokenSeriesJsonV;

    open spec fn view(&self) -> TokenSeriesJsonV {
        TokenSeriesJsonV {
            token_series_id: self.token_series_id.deep_view(),
            metadata: self.metadata.deep_view(),
            creator_id: self.creator_id.deep_view(),
            is_mintable: self.is_mintable,
            price: self.price,
        }
    }
}

impl DeepView for TokenSeriesJson {
    type V = TokenSeriesJsonV;

    open spec fn deep_view(&self) -> TokenSeriesJsonV {
        self.view()
    }
}

/// Whether `j` is the summary of series `s` as it stands.
pub open spec fn summarizes(j: TokenSeriesJsonV, s: TokenSeriesV) -> bool {
    &&& j.token_series_id == s.token_series_id
    &&& j.metadata == s.metadata
    &&& j.creator_id == s.creator_id
    &&& j.is_mintable == s.is_mintable
    &&& j.price == s.price
}

/// The current summary of a series.
pub fn summarize(s: &TokenSeries) -> (r: TokenSeriesJson)
    ensures
        summarizes(r@, s@),
{
    TokenSeriesJson {
        token_series_id: s.token_series_id.clone(),
        metadata: s.metadata.clone(),
        creator_id: s.creator_id.clone(),
        is_mintable: s.is_mintable,
        price: s.price,
    }
}

/// A copy of a series summary with the same model.
pub fn clone_summary(j: &TokenSeriesJson) -> (r: TokenSeriesJson)
    ensures
        r@ == j@,
{
    TokenSeriesJson {
        token_series_id: j.token_series_id.clone(),
        metadata: j.metadata.clone(),
        creator_id: j.creator_id.clone(),
        is_mintable: j.is_mintable,
        price: j.price,
    }
}

/// A valid royalty table maps accounts to shares: no account name appears
/// twice, so its length is its number of distinct accounts.
pub open spec fn royalty_accounts_distinct(r: Seq<(Seq<char>, u32)>) -> bool {
    forall|p: int, q: int| 0 <= p < q < r.len() ==> (#[trigger] r[p]).0 != (#[trigger] r[q]).0
}

/// A copy of a royalty table with the same model.
pub fn royalty_snapshot(v: &Vec<(String, u32)>) -> (r: Vec<(String, u32)>)
    ensures
        r.deep_view() == v.deep_view(),
        r@ =~= v@,
{
    let r = clone_royalty(v);
    proof {
        assert(r.deep_view() =~= v.deep_view());
    }
    r
}

} // verus!
