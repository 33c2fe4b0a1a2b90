//! The contract store: all persistent state of the registry, and its
//! well-formedness invariant.

use vstd::prelude::*;
use crate::error::TicketError;
use crate::events::{clone_event, Event, EventV};
use crate::metadata::{ContractMetadata, Extra, TokenMetadata, TokenMetadataV};
use crate::series::{
    royalty_accounts_distinct, royalty_snapshot, series_wf, summarize, summarizes, TokenSeries,
    TokenSeriesJson, TokenSeriesV,
};
use crate::strings::{decimal_seq, delim_seq, title_delimiter, token_id_seq, u64_to_decimal};
use crate::{push_str_cleaner, MAX_ACCOUNTS_ROYALTY};

verus! {

/// The sum of a sequence of capacities.
pub open spec fn sum_capacity(s: Seq<u32>) -> int
    decreases s.len(),
{
    if s.len() == 0 {
        0
    } else {
        sum_capacity(s.drop_last()) + s.last()
    }
}

/// A prefix sum of capacities never exceeds the whole sum.
pub proof fn lemma_sum_take_le(s: Seq<u32>, i: int)
    requires
        0 <= i <= s.len(),
    ensures
        sum_capacity(s.take(i)) <= sum_capacity(s),
    decreases s.len() - i,
{
    if i == s.len() {
        assert(s.take(i) =~= s);
    } else {
        assert(s.take(i + 1).drop_last() =~= s.take(i));
        assert(sum_capacity(s.take(i + 1)) == sum_capacity(s.take(i)) + s[i]);
        lemma_sum_take_le(s, i + 1);
    }
}

/// One minted ticket as this core records it: owner, approvals seeded with
/// the series creator, and the royalty table snapshotted at mint time.
#[derive(Debug)]
pub struct MintedToken {
    pub token_id: String,
    pub owner_id: String,
    /// The materialized per-token metadata record.
    pub metadata: TokenMetadata,
    /// Accounts approved on this token with their approval ids; the series
    /// creator is seeded at slot 0.
    pub approved_account_ids: Vec<(String, u64)>,
    pub next_approval_id: u64,
    /// Royalty table copied from the series at mint time.
    pub royalty: Vec<(String, u32)>,
}

/// The mathematical model of a minted ticket.
#[verifier::ext_equal]
pub ghost struct MintedTokenV {
    pub token_id: Seq<char>,
    pub owner_id: Seq<char>,
    pub metadata: TokenMetadataV,
    pub approved_account_ids: Seq<(Seq<char>, u64)>,
    pub next_approval_id: u64,
    pub royalty: Seq<(Seq<char>, u32)>,
}

impl View for MintedToken {
    type V = MintedTokenV;

    open spec fn view(&self) -> MintedTokenV {
        MintedTokenV {
            token_id: self.token_id.deep_view(),
            owner_id: self.owner_id.deep_view(),
            metadata: self.metadata.deep_view(),
            approved_account_ids: self.approved_account_ids.deep_view(),
            next_approval_id: self.next_approval_id,
            royalty: self.royalty.deep_view(),
        }
    }
}

impl DeepView for MintedToken {
    type V = MintedTokenV;

    open spec fn deep_view(&self) -> MintedTokenV {
        self.view()
    }
}

/// The whole persistent state of the registry.
pub struct Contract {
    /// Account that deployed the contract.
    pub owner_id: String,
    /// Platform account receiving the fixed cut of every mint.
    pub treasury: String,
    pub metadata: ContractMetadata,
    /// Events in creation order; the event with index `i` sits at `i - 1`.
    pub events: Vec<Event>,
    /// Series in creation order; the series with id `i` sits at `i - 1`.
    pub token_series_by_id: Vec<TokenSeries>,
    /// Every ticket ever minted, in mint order.
    pub tokens_by_id: Vec<MintedToken>,
}

/// The metadata a ticket category is created with: the event's name and
/// the category label as title, the category's banner and capacity, a
/// fresh unconfirmed attribute record, and nothing else.
pub open spec fn category_metadata(
    name: Seq<char>,
    label: Seq<char>,
    banner: Seq<char>,
    cap: u32,
) -> TokenMetadataV {
    TokenMetadataV {
        title: Some(name + crate::strings::delim_seq() + label),
        description: None,
        media: Some(banner),
        media_hash: None,
        copies: Some(cap as u64),
        issued_at: None,
        expires_at: None,
        starts_at: None,
        updated_at: None,
        extra: Some(Extra { confirmed: false }),
        reference: None,
        reference_hash: None,
    }
}

/// The series a ticket category is created as: fresh, mintable, with an
/// empty issued set.
pub open spec fn category_series(
    sid: Seq<char>,
    name: Seq<char>,
    label: Seq<char>,
    banner: Seq<char>,
    cap: u32,
    creator: Seq<char>,
    royalty: Seq<(Seq<char>, u32)>,
    price: u128,
) -> TokenSeriesV {
    TokenSeriesV {
        token_series_id: sid,
        metadata: category_metadata(name, label, banner, cap),
        creator_id: creator,
        tokens: Seq::<Seq<char>>::empty(),
        is_mintable: true,
        royalty: royalty,
        price: Some(price),
    }
}

/// Every series id is the decimal rendering of its 1-based position.
pub open spec fn series_ids_canonical(sv: Seq<TokenSeriesV>) -> bool {
    forall|i: int|
        0 <= i < sv.len() ==> (#[trigger] sv[i]).token_series_id == decimal_seq((i + 1) as nat)
}

/// Every series satisfies the per-series supply invariant.
pub open spec fn series_all_wf(sv: Seq<TokenSeriesV>) -> bool {
    forall|i: int| 0 <= i < sv.len() ==> series_wf(#[trigger] sv[i])
}

/// The issued set of series `i` holds exactly the token ids of ordinals
/// `1..` in order.
pub open spec fn issued_ids_canonical(sv: Seq<TokenSeriesV>) -> bool {
    forall|i: int, k: int|
        0 <= i < sv.len() && 0 <= k < sv[i].tokens.len() ==> (#[trigger] sv[i].tokens[k])
            == token_id_seq((i + 1) as nat, (k + 1) as nat)
}

/// Whether `tok` carries the id of some issued ordinal of some series.
pub open spec fn minted_ok(tok: MintedTokenV, sv: Seq<TokenSeriesV>) -> bool {
    exists|i: int, k: int|
        0 <= i < sv.len() && 1 <= k <= sv[i].tokens.len() && tok.token_id
            == #[trigger] token_id_seq((i + 1) as nat, k as nat)
}

/// Every minted token carries the id of some issued ordinal of some series.
pub open spec fn minted_from_series(tv: Seq<MintedTokenV>, sv: Seq<TokenSeriesV>) -> bool {
    forall|t: int| 0 <= t < tv.len() ==> minted_ok(#[trigger] tv[t], sv)
}

/// A minted token keeps its origin when series only gain issued tokens:
/// growing an issued set, or appending series, preserves
/// `minted_from_series`.
pub proof fn lemma_minted_preserved(
    tv: Seq<MintedTokenV>,
    sv0: Seq<TokenSeriesV>,
    sv1: Seq<TokenSeriesV>,
)
    requires
        minted_from_series(tv, sv0),
        sv0.len() <= sv1.len(),
        forall|a: int|
            0 <= a < sv0.len() ==> sv0[a].tokens.len() <= (#[trigger] sv1[a]).tokens.len(),
    ensures
        minted_from_series(tv, sv1),
{
    assert forall|t: int| 0 <= t < tv.len() implies minted_ok(#[trigger] tv[t], sv1) by {
        assert(minted_ok(tv[t], sv0));
        let (i0, k0) = choose|i0: int, k0: int|
            0 <= i0 < sv0.len() && 1 <= k0 <= sv0[i0].tokens.len() && tv[t].token_id
                == #[trigger] token_id_seq((i0 + 1) as nat, k0 as nat);
        assert(0 <= i0 < sv1.len() && 1 <= k0 <= sv1[i0].tokens.len());
    }
}

/// No two minted tokens share an id.
pub open spec fn minted_ids_distinct(tv: Seq<MintedTokenV>) -> bool {
    forall|p: int, q: int|
        0 <= p < q < tv.len() ==> (#[trigger] tv[p]).token_id != (#[trigger] tv[q]).token_id
}

/// The position of the series with id `id`, or `-1` when none has it.
/// Well-formed stores have pairwise-distinct ids, so the position is the
/// unique one.
pub open spec fn series_index(sv: Seq<TokenSeriesV>, id: Seq<char>) -> int {
    if exists|i: int| 0 <= i < sv.len() && (#[trigger] sv[i]).token_series_id == id {
        choose|i: int| 0 <= i < sv.len() && (#[trigger] sv[i]).token_series_id == id
    } else {
        -1
    }
}

/// With canonical decimal ids, an index whose series carries `id` is the
/// one `series_index` names.
pub proof fn lemma_series_index_unique(sv: Seq<TokenSeriesV>, id: Seq<char>, j: int)
    requires
        series_ids_canonical(sv),
        0 <= j < sv.len(),
        sv[j].token_series_id == id,
    ensures
        series_index(sv, id) == j,
{
    let i = choose|i: int| 0 <= i < sv.len() && (#[trigger] sv[i]).token_series_id == id;
    assert(0 <= i < sv.len() && sv[i].token_series_id == id);
    if i != j {
        crate::strings::lemma_decimal_injective((i + 1) as nat, (j + 1) as nat);
    }
}

/// When no series carries `id`, `series_index` is `-1`.
pub proof fn lemma_series_index_none(sv: Seq<TokenSeriesV>, id: Seq<char>)
    requires
        forall|i: int| 0 <= i < sv.len() ==> (#[trigger] sv[i]).token_series_id != id,
    ensures
        series_index(sv, id) == -1,
{
}

/// Every event's index is its 1-based position.
pub open spec fn event_indices_canonical(ev: Seq<EventV>) -> bool {
    forall|i: int| 0 <= i < ev.len() ==> (#[trigger] ev[i]).index == i + 1
}

impl Contract {
    /// The well-formedness invariant of the store. Constructors establish
    /// it and every operation preserves it.
    pub open spec fn wf(&self) -> bool {
        &&& series_ids_canonical(self.token_series_by_id.deep_view())
        &&& series_all_wf(self.token_series_by_id.deep_view())
        &&& issued_ids_canonical(self.token_series_by_id.deep_view())
        &&& minted_from_series(
            self.tokens_by_id.deep_view(),
            self.token_series_by_id.deep_view(),
        )
        &&& minted_ids_distinct(self.tokens_by_id.deep_view())
        &&& event_indices_canonical(self.events.deep_view())
    }

    /// A fresh contract: given accounts and metadata, empty registries.
    pub fn new(owner_id: String, treasury: String, metadata: ContractMetadata) -> (r: Contract)
        ensures
            r.owner_id@ == owner_id@,
            r.treasury@ == treasury@,
            r.metadata == metadata,
            r.events@.len() == 0,
            r.token_series_by_id@.len() == 0,
            r.tokens_by_id@.len() == 0,
            r.wf(),
    {
        Contract {
            owner_id,
            treasury,
            metadata,
            events: Vec::new(),
            token_series_by_id: Vec::new(),
            tokens_by_id: Vec::new(),
        }
    }

    /// A fresh contract with the marketplace's default metadata.
    pub fn new_default_meta(owner_id: String, treasury: String) -> (r: Contract)
        ensures
            r.owner_id@ == owner_id@,
            r.treasury@ == treasury@,
            r.metadata.spec_version@ == "1.0.0"@,
            r.metadata.name@ == "NEAR Future Tickets Marketplace"@,
            r.metadata.symbol@ == "NEAR Future Tickets"@,
            r.metadata.icon is None,
            r.metadata.base_uri is None,
            r.metadata.reference is None,
            r.metadata.reference_hash is None,
            r.events@.len() == 0,
            r.token_series_by_id@.len() == 0,
            r.tokens_by_id@.len() == 0,
            r.wf(),
    {
        Contract::new(
            owner_id,
            treasury,
            ContractMetadata {
                spec_version: String::from_str("1.0.0"),
                name: String::from_str("NEAR Future Tickets Marketplace"),
                symbol: String::from_str("NEAR Future Tickets"),
                icon: None,
                base_uri: None,
                reference: None,
                reference_hash: None,
            },
        )
    }

    /// How many events exist.
    pub fn get_events_supply(&self) -> (r: u128)
        ensures
            r == self.events@.len(),
    {
        self.events.len() as u128
    }

    /// The position of the series with the given id, if any.
    pub fn find_series(&self, token_series_id: &String) -> (r: Option<usize>)
        ensures
            match r {
                Some(i) => i < self.token_series_by_id@.len()
                    && self.token_series_by_id@[i as int].token_series_id@ == token_series_id@,
                None => forall|i: int|
                    0 <= i < self.token_series_by_id@.len()
                        ==> (#[trigger] self.token_series_by_id@[i]).token_series_id@
                        != token_series_id@,
            },
    {
        for i in 0..self.token_series_by_id.len()
            invariant
                forall|j: int|
                    0 <= j < i ==> (#[trigger] self.token_series_by_id@[j]).token_series_id@
                        != token_series_id@,
        {
            if self.token_series_by_id[i].token_series_id == *token_series_id {
                return Some(i);
            }
        }
        None
    }

    /// The event with the given 1-based index.
    ///
    /// Succeeds exactly on indices `1..=len`, with a record equal in model
    /// to the stored one; anything else is `NotFound`.
    pub fn get_event(&self, index: i128) -> (r: Result<Event, TicketError>)
        ensures
            match r {
                Ok(e) => 1 <= index <= self.events@.len() && e@ == self.events.deep_view()[
                    index - 1
                ],
                Err(err) => err == TicketError::NotFound && !(1 <= index
                    <= self.events@.len()),
            },
    {
        if index < 1 || index > self.events.len() as i128 {
            return Err(TicketError::NotFound);
        }
        let i = (index - 1) as usize;
        Ok(clone_event(&self.events[i]))
    }

    /// Updates the four mutable fields of an event, at the organizer's hand
    /// alone.
    ///
    /// `NotFound` on an unknown index and `Unauthorized` when `caller` is
    /// not the organizer, each leaving the store untouched; on success
    /// exactly `description`, `banner`, `status` and `date` change, every
    /// other field and every other event stays, and the updated record is
    /// returned.
    pub fn update_event(
        &mut self,
        caller: &String,
        index: i128,
        description: String,
        banner: String,
        status: u8,
        date: String,
    ) -> (r: Result<Event, TicketError>)
        ensures
            match r {
                Ok(e) => {
                    &&& 1 <= index <= old(self).events@.len()
                    &&& old(self).events.deep_view()[index - 1].organizer == caller@
                    &&& final(self).events.deep_view() == old(self).events.deep_view().update(
                        index - 1,
                        e@,
                    )
                    &&& e@ == EventV {
                        description: description@,
                        banner: banner@,
                        status: status,
                        date: date@,
                        ..old(self).events.deep_view()[index - 1]
                    }
                    &&& final(self).token_series_by_id == old(self).token_series_by_id
                    &&& final(self).tokens_by_id == old(self).tokens_by_id
                    &&& final(self).owner_id == old(self).owner_id
                    &&& final(self).treasury == old(self).treasury
                    &&& final(self).metadata == old(self).metadata
                },
                Err(err) => {
                    &&& *final(self) == *old(self)
                    &&& err == TicketError::NotFound || err == TicketError::Unauthorized
                    &&& (err == TicketError::NotFound <==> !(1 <= index
                        <= old(self).events@.len()))
                    &&& (err == TicketError::Unauthorized <==> 1 <= index
                        <= old(self).events@.len() && old(self).events.deep_view()[
                        index - 1
                    ].organizer != caller@)
                },
            },
            old(self).wf() ==> final(self).wf(),
    {
        if index < 1 || index > self.events.len() as i128 {
            return Err(TicketError::NotFound);
        }
        let i = (index - 1) as usize;
        if !(self.events[i].organizer == *caller) {
            return Err(TicketError::Unauthorized);
        }
        let ghost old_events = self.events.deep_view();
        let old_e = self.events.remove(i);
        let new_e = Event {
            description,
            banner,
            status,
            date,
            name: old_e.name,
            modality: old_e.modality,
            capacity: old_e.capacity,
            time: old_e.time,
            index: old_e.index,
            organizer: old_e.organizer,
            ticket_type: old_e.ticket_type,
            tickets: old_e.tickets,
            location: old_e.location,
        };
        self.events.insert(i, new_e);
        let result = clone_event(&self.events[i]);
        proof {
            assert(self.events.deep_view() =~= old_events.update(index - 1, result@));
            if old(self).wf() {
                assert(event_indices_canonical(self.events.deep_view()));
            }
        }
        Ok(result)
    }

    /// Allocates the next sequential series id and stores a fresh series
    /// under it: the given metadata, creator, price and royalty table, an
    /// empty issued set, and the mintability flag on.
    ///
    /// Rejects, touching nothing, a royalty table with
    /// `MAX_ACCOUNTS_ROYALTY` or more distinct accounts. The table maps
    /// accounts to shares, so no account may appear in it twice.
    pub fn create_series(
        &mut self,
        metadata: TokenMetadata,
        creator_id: String,
        price: Option<u128>,
        royalty: &Vec<(String, u32)>,
    ) -> (r: Result<String, TicketError>)
        requires
            old(self).wf(),
            old(self).token_series_by_id@.len() < u64::MAX,
            royalty_accounts_distinct(royalty.deep_view()),
        ensures
            final(self).wf(),
            final(self).events == old(self).events,
            final(self).tokens_by_id == old(self).tokens_by_id,
            final(self).owner_id == old(self).owner_id,
            final(self).treasury == old(self).treasury,
            final(self).metadata == old(self).metadata,
            match r {
                Err(e) => {
                    &&& *final(self) == *old(self)
                    &&& e == TicketError::Validation
                    &&& royalty@.len() >= MAX_ACCOUNTS_ROYALTY
                },
                Ok(id) => {
                    &&& royalty@.len() < MAX_ACCOUNTS_ROYALTY
                    &&& id@ == decimal_seq((old(self).token_series_by_id@.len() + 1) as nat)
                    &&& final(self).token_series_by_id.deep_view() == old(
                        self,
                    ).token_series_by_id.deep_view().push(
                        TokenSeriesV {
                            token_series_id: id@,
                            metadata: metadata@,
                            creator_id: creator_id@,
                            tokens: Seq::<Seq<char>>::empty(),
                            is_mintable: true,
                            royalty: royalty.deep_view(),
                            price: price,
                        },
                    )
                },
            },
    {
        if royalty.len() >= MAX_ACCOUNTS_ROYALTY {
            return Err(TicketError::Validation);
        }
        let ghost sv0 = self.token_series_by_id.deep_view();
        let id = u64_to_decimal(self.token_series_by_id.len() as u64 + 1);
        let series = TokenSeries {
            token_series_id: id.clone(),
            metadata,
            creator_id,
            tokens: Vec::new(),
            is_mintable: true,
            royalty: royalty_snapshot(royalty),
            price,
        };
        let ghost new_v = series@;
        self.token_series_by_id.push(series);
        proof {
            let sv1 = self.token_series_by_id.deep_view();
            assert(sv1 =~= sv0.push(new_v));
            assert(new_v.tokens =~= Seq::<Seq<char>>::empty());
            assert(new_v =~= TokenSeriesV {
                token_series_id: id@,
                metadata: metadata@,
                creator_id: creator_id@,
                tokens: Seq::<Seq<char>>::empty(),
                is_mintable: true,
                royalty: royalty.deep_view(),
                price: price,
            });
            assert(series_wf(new_v));
            assert(series_all_wf(sv1)) by {
                assert forall|a: int| 0 <= a < sv1.len() implies series_wf(
                    #[trigger] sv1[a],
                ) by {
                    if a < sv0.len() {
                        assert(series_wf(sv0[a]));
                    } else {
                        assert(sv1[a] == new_v);
                    }
                }
            }
            assert(series_ids_canonical(sv1)) by {
                assert forall|a: int| 0 <= a < sv1.len() implies (#[trigger] sv1[a])
                    .token_series_id == decimal_seq((a + 1) as nat) by {
                    if a < sv0.len() {
                        assert(sv0[a].token_series_id == decimal_seq((a + 1) as nat));
                    } else {
                        assert(sv1[a] == new_v);
                    }
                }
            }
            assert(issued_ids_canonical(sv1)) by {
                assert forall|a: int, k: int|
                    0 <= a < sv1.len() && 0 <= k < sv1[a].tokens.len() implies (
                #[trigger] sv1[a].tokens[k]) == token_id_seq((a + 1) as nat, (k + 1) as nat) by {
                    assert(a < sv0.len());
                    assert(sv0[a].tokens[k] == token_id_seq((a + 1) as nat, (k + 1) as nat));
                }
            }
            lemma_minted_preserved(self.tokens_by_id.deep_view(), sv0, sv1);
        }
        Ok(id)
    }

    /// Creates an event and one ticket series per category, at the calling
    /// account's hand.
    ///
    /// `capacity`, `ticket_type`, `ticket_banners` and `price` are parallel
    /// sequences, one entry per category. Each category becomes a fresh
    /// series titled `name ++ " - " ++ label`, with the category's banner
    /// as media, its capacity as copies, its price, and the shared royalty
    /// table. The event gets the next sequential index, the sum of the
    /// capacities, and one series summary per category.
    ///
    /// Rejects, touching nothing, a royalty table with
    /// `MAX_ACCOUNTS_ROYALTY` or more distinct accounts. The table maps
    /// accounts to shares, so no account may appear in it twice.
    #[verifier::loop_isolation(false)]
    #[verifier::rlimit(30)]
    pub fn create_event(
        &mut self,
        caller: String,
        name: String,
        description: String,
        modality: u8,
        capacity: Vec<u32>,
        date: String,
        time: String,
        status: u8,
        banner: String,
        ticket_type: Vec<String>,
        ticket_banners: Vec<String>,
        price: Vec<u128>,
        location: String,
        perpetual_royalties: Option<Vec<(String, u32)>>,
    ) -> (r: Result<Event, TicketError>)
        requires
            old(self).wf(),
            ticket_type@.len() == capacity@.len(),
            ticket_type@.len() == ticket_banners@.len(),
            ticket_type@.len() == price@.len(),
            sum_capacity(capacity@) <= u32::MAX,
            old(self).token_series_by_id@.len() + ticket_type@.len() <= u64::MAX,
            match perpetual_royalties {
                Some(v) => royalty_accounts_distinct(v.deep_view()),
                None => true,
            },
        ensures
            final(self).wf(),
            final(self).tokens_by_id == old(self).tokens_by_id,
            final(self).owner_id == old(self).owner_id,
            final(self).treasury == old(self).treasury,
            final(self).metadata == old(self).metadata,
            ({
                let royalty_v = match perpetual_royalties {
                    Some(v) => v.deep_view(),
                    None => Seq::<(Seq<char>, u32)>::empty(),
                };
                let k = ticket_type@.len() as int;
                let base = old(self).token_series_by_id.deep_view().len() as int;
                let sv = final(self).token_series_by_id.deep_view();
                match r {
                    Err(e) => {
                        &&& *final(self) == *old(self)
                        &&& e == TicketError::Validation
                        &&& perpetual_royalties is Some
                        &&& royalty_v.len() >= MAX_ACCOUNTS_ROYALTY
                    },
                    Ok(ev) => {
                        &&& (perpetual_royalties is Some ==> royalty_v.len()
                            < MAX_ACCOUNTS_ROYALTY)
                        &&& final(self).events.deep_view() == old(self).events.deep_view().push(
                            ev@,
                        )
                        &&& ev@.index == old(self).events@.len() + 1
                        &&& ev@.name == name@
                        &&& ev@.description == description@
                        &&& ev@.modality == modality
                        &&& ev@.capacity == sum_capacity(capacity@)
                        &&& ev@.date == date@
                        &&& ev@.time == time@
                        &&& ev@.status == status
                        &&& ev@.banner == banner@
                        &&& ev@.organizer == caller@
                        &&& ev@.ticket_type == ticket_type.deep_view()
                        &&& ev@.location == location@
                        &&& sv.len() == base + k
                        &&& sv.subrange(0, base) == old(self).token_series_by_id.deep_view()
                        &&& forall|j: int|
                            0 <= j < k ==> #[trigger] sv[base + j] == category_series(
                                decimal_seq((base + j + 1) as nat),
                                name@,
                                ticket_type.deep_view()[j],
                                ticket_banners.deep_view()[j],
                                capacity@[j],
                                caller@,
                                royalty_v,
                                price@[j],
                            )
                        &&& ev@.tickets.len() == k
                        &&& forall|j: int|
                            0 <= j < k ==> summarizes(#[trigger] ev@.tickets[j], sv[base + j])
                    },
                }
            }),
    {
        let ghost sv_base = self.token_series_by_id.deep_view();
        let ghost base = sv_base.len() as int;
        let ghost royalty_v = match &perpetual_royalties {
            Some(v) => v.deep_view(),
            None => Seq::<(Seq<char>, u32)>::empty(),
        };
        let royalty_vec: Vec<(String, u32)> = match &perpetual_royalties {
            Some(v) => {
                if v.len() >= MAX_ACCOUNTS_ROYALTY {
                    return Err(TicketError::Validation);
                }
                royalty_snapshot(v)
            },
            None => Vec::new(),
        };
        proof {
            assert(royalty_vec.deep_view() =~= royalty_v);
            assert(royalty_accounts_distinct(royalty_vec.deep_view()));
        }
        let index: i128 = self.events.len() as i128 + 1;
        let k = ticket_type.len();
        let mut children: Vec<TokenSeriesJson> = Vec::new();
        let mut total_capacity: u32 = 0;
        for i in 0..k
            invariant
                self.wf(),
                self.token_series_by_id.deep_view().len() == base + i,
                self.token_series_by_id.deep_view().subrange(0, base) == sv_base,
                forall|j: int|
                    0 <= j < i ==> #[trigger] self.token_series_by_id.deep_view()[base + j]
                        == category_series(
                        decimal_seq((base + j + 1) as nat),
                        name@,
                        ticket_type.deep_view()[j],
                        ticket_banners.deep_view()[j],
                        capacity@[j],
                        caller@,
                        royalty_v,
                        price@[j],
                    ),
                children.deep_view().len() == i,
                forall|j: int|
                    0 <= j < i ==> summarizes(
                        #[trigger] children.deep_view()[j],
                        self.token_series_by_id.deep_view()[base + j],
                    ),
                total_capacity == sum_capacity(capacity@.take(i as int)),
                self.events == old(self).events,
                self.tokens_by_id == old(self).tokens_by_id,
                self.owner_id == old(self).owner_id,
                self.treasury == old(self).treasury,
                self.metadata == old(self).metadata,
        {
            let pieces: Vec<&str> = vec![title_delimiter(), ticket_type[i].as_str()];
            let ghost pv = pieces@;
            let title = push_str_cleaner(name.clone(), pieces);
            proof {
                let p0 = pv.drop_last();
                assert(p0.drop_last() =~= Seq::<&str>::empty());
                assert(crate::concat_views(p0) == crate::concat_views(p0.drop_last())
                    + p0.last()@);
                assert(crate::concat_views(pv) == crate::concat_views(p0) + pv.last()@);
                assert(title@ =~= name@ + delim_seq() + ticket_type.deep_view()[i as int]);
            }
            let md = TokenMetadata {
                title: Some(title),
                description: None,
                media: Some(ticket_banners[i].clone()),
                media_hash: None,
                copies: Some(capacity[i] as u64),
                issued_at: None,
                expires_at: None,
                starts_at: None,
                updated_at: None,
                extra: Some(Extra { confirmed: false }),
                reference: None,
                reference_hash: None,
            };
            let ghost sv_before = self.token_series_by_id.deep_view();
            let sid = match self.create_series(
                md,
                caller.clone(),
                Some(price[i]),
                &royalty_vec,
            ) {
                Ok(id) => id,
                Err(_) => {
                    proof {
                        assert(false);
                    }
                    vstd::pervasive::unreached()
                },
            };
            proof {
                let svn = self.token_series_by_id.deep_view();
                assert(svn.subrange(0, base) =~= sv_base);
                assert(svn[base + i] == category_series(
                    decimal_seq((base + i + 1) as nat),
                    name@,
                    ticket_type.deep_view()[i as int],
                    ticket_banners.deep_view()[i as int],
                    capacity@[i as int],
                    caller@,
                    royalty_v,
                    price@[i as int],
                ));
                assert(capacity@.take(i + 1).drop_last() =~= capacity@.take(i as int));
                lemma_sum_take_le(capacity@, i + 1);
            }
            total_capacity = total_capacity + capacity[i];
            proof {
                assert(self.token_series_by_id@.len()
                    == self.token_series_by_id.deep_view().len());
            }
            let last = self.token_series_by_id.len() - 1;
            let summary = summarize(&self.token_series_by_id[last]);
            let ghost children_dv = children.deep_view();
            children.push(summary);
            proof {
                assert(children.deep_view() =~= children_dv.push(summary@));
            }
        }
        proof {
            assert(capacity@.take(capacity@.len() as int) =~= capacity@);
        }
        let event = Event {
            name,
            description,
            modality,
            capacity: total_capacity,
            date,
            time,
            status,
            index,
            banner,
            organizer: caller,
            ticket_type,
            tickets: children,
            location,
        };
        let result = clone_event(&event);
        let ghost ev0 = self.events.deep_view();
        let ghost new_ev = event@;
        self.events.push(event);
        proof {
            assert(self.events.deep_view() =~= ev0.push(new_ev));
            assert(event_indices_canonical(self.events.deep_view())) by {
                assert forall|a: int| 0 <= a < self.events.deep_view().len() implies (
                #[trigger] self.events.deep_view()[a]).index == a + 1 by {
                    if a < ev0.len() {
                        assert(ev0[a].index == a + 1);
                    } else {
                        assert(self.events.deep_view()[a] == new_ev);
                    }
                }
            }
        }
        Ok(result)
    }

    /// In a well-formed store the ids of minted tokens are pairwise
    /// distinct: no two mints, in whatever order across whatever series,
    /// ever produced the same token id.
    pub proof fn lemma_token_ids_unique(&self)
        requires
            self.wf(),
        ensures
            forall|p: int, q: int|
                0 <= p < q < self.tokens_by_id.deep_view().len()
                    ==> (#[trigger] self.tokens_by_id.deep_view()[p]).token_id
                    != (#[trigger] self.tokens_by_id.deep_view()[q]).token_id,
    {
    }

    /// In a well-formed store every series respects its supply: never more
    /// issued tokens than copies, and (whenever it has any copies) the
    /// mintability flag is on exactly while supply remains.
    pub proof fn lemma_series_supply(&self, i: int)
        requires
            self.wf(),
            0 <= i < self.token_series_by_id.deep_view().len(),
        ensures
            self.token_series_by_id.deep_view()[i].tokens.len() <= crate::series::copies_of(
                self.token_series_by_id.deep_view()[i],
            ),
            crate::series::copies_of(self.token_series_by_id.deep_view()[i]) >= 1 ==> (
            self.token_series_by_id.deep_view()[i].is_mintable
                <==> self.token_series_by_id.deep_view()[i].tokens.len()
                < crate::series::copies_of(self.token_series_by_id.deep_view()[i])),
    {
        assert(series_wf(self.token_series_by_id.deep_view()[i]));
    }
}

} // verus!
