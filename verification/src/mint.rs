//! The minting engine: issuing one ticket against a series.

use vstd::prelude::*;
use crate::assistance::{clone_opt_bytes_exact, clone_opt_string};
use crate::contract::{
    lemma_minted_preserved, lemma_series_index_none, lemma_series_index_unique, minted_ok,
    series_all_wf, series_ids_canonical, series_index, Contract, MintedToken, MintedTokenV,
};
use crate::error::TicketError;
use crate::fees::{split, treasury_share};
use crate::metadata::{TokenMetadata, TokenMetadataV};
use crate::series::{copies_of, royalty_snapshot, series_wf, TokenSeries, TokenSeriesV};
use crate::strings::{
    decimal_seq, delim_seq, lemma_token_id_injective, make_token_id, title_delimiter,
    token_id_seq, u64_to_decimal,
};
use crate::{concat_views, might_string, push_str_cleaner};

verus! {

/// The structured record of one mint, for external indexing.
#[derive(Debug)]
pub struct MintRecord {
    /// Name of the token standard followed.
    pub standard: String,
    /// Version of that standard.
    pub version: String,
    /// Account the token was minted to.
    pub owner_id: String,
    /// The token ids minted (here always exactly one).
    pub token_ids: Vec<String>,
    /// An optional memo.
    pub memo: Option<String>,
}

/// Everything a successful mint asks the host to do besides keeping the
/// state: two value transfers and one record to emit.
#[derive(Debug)]
pub struct MintOutcome {
    /// Id of the minted token.
    pub token_id: String,
    /// Account owed the creator share, and that share.
    pub creator_account: String,
    pub creator_amount: u128,
    /// Account owed the treasury share, and that share.
    pub treasury_account: String,
    pub treasury_amount: u128,
    /// The mint record to emit.
    pub record: MintRecord,
}

/// An optional character sequence, or the empty one.
pub open spec fn might_view(o: Option<Seq<char>>) -> Seq<char> {
    match o {
        Some(s) => s,
        None => Seq::<char>::empty(),
    }
}

/// The title of a minted token: the series title suffixed with the series
/// id and the ordinal, each behind the delimiter.
pub open spec fn token_title(s: TokenSeriesV, ordinal: nat) -> Seq<char> {
    might_view(s.metadata.title) + delim_seq() + s.token_series_id + delim_seq() + decimal_seq(
        ordinal,
    )
}

/// The materialized metadata of the token of ordinal `ordinal` minted from
/// series `s` at time `timestamp`: title suffixed for uniqueness, issuance
/// time stamped, the display fields copied from the series.
pub open spec fn minted_metadata(s: TokenSeriesV, ordinal: nat, timestamp: u64) -> TokenMetadataV {
    TokenMetadataV {
        title: Some(token_title(s, ordinal)),
        issued_at: Some(timestamp),
        expires_at: None,
        starts_at: None,
        updated_at: None,
        ..s.metadata
    }
}

/// The series `s` after issuing the token of ordinal `ordinal` (its token
/// count so far plus one): the id is appended to the issued set and the
/// mintability flag drops exactly when the ordinal reaches the copies.
pub open spec fn series_after_mint(s: TokenSeriesV, id: Seq<char>) -> TokenSeriesV {
    TokenSeriesV {
        tokens: s.tokens.push(id),
        is_mintable: s.tokens.len() + 1 < copies_of(s),
        ..s
    }
}

impl Contract {
    /// Issues the next token of the series with the given id: appends the
    /// token id `series_id ++ " - " ++ ordinal` to the issued set, drops
    /// the mintability flag exactly when supply is reached, and returns the
    /// token id with its materialized metadata.
    ///
    /// Fails with `NotFound` on an unknown id, `NotMintable` when the flag
    /// is off, and `SupplyExhausted` when the issued set has reached the
    /// copies, in that order, leaving the store untouched.
    pub fn mint_next(&mut self, token_series_id: &String, timestamp: u64) -> (r: Result<
        (String, TokenMetadata),
        TicketError,
    >)
        requires
            old(self).wf(),
        ensures
            final(self).wf(),
            final(self).events == old(self).events,
            final(self).tokens_by_id == old(self).tokens_by_id,
            final(self).owner_id == old(self).owner_id,
            final(self).treasury == old(self).treasury,
            final(self).metadata == old(self).metadata,
            ({
                let sv = old(self).token_series_by_id.deep_view();
                let idx = series_index(sv, token_series_id@);
                match r {
                    Err(e) => {
                        &&& *final(self) == *old(self)
                        &&& if idx < 0 {
                            e == TicketError::NotFound
                        } else if !sv[idx].is_mintable {
                            e == TicketError::NotMintable
                        } else {
                            &&& sv[idx].tokens.len() >= copies_of(sv[idx])
                            &&& e == TicketError::SupplyExhausted
                        }
                    },
                    Ok((tid, md)) => {
                        &&& 0 <= idx < sv.len()
                        &&& sv[idx].is_mintable
                        &&& sv[idx].tokens.len() < copies_of(sv[idx])
                        &&& tid@ == token_id_seq((idx + 1) as nat, (sv[idx].tokens.len()
                            + 1) as nat)
                        &&& md@ == minted_metadata(
                            sv[idx],
                            (sv[idx].tokens.len() + 1) as nat,
                            timestamp,
                        )
                        &&& final(self).token_series_by_id.deep_view() == sv.update(
                            idx,
                            series_after_mint(sv[idx], tid@),
                        )
                    },
                }
            }),
    {
        let ghost sv0 = self.token_series_by_id.deep_view();
        let i = match self.find_series(token_series_id) {
            Some(i) => i,
            None => {
                proof {
                    assert forall|j: int| 0 <= j < sv0.len() implies (#[trigger] sv0[j])
                        .token_series_id != token_series_id@ by {
                        assert(sv0[j] == self.token_series_by_id@[j]@);
                    }
                    lemma_series_index_none(sv0, token_series_id@);
                }
                return Err(TicketError::NotFound);
            },
        };
        proof {
            assert(sv0[i as int] == self.token_series_by_id@[i as int]@);
            lemma_series_index_unique(sv0, token_series_id@, i as int);
        }
        if !self.token_series_by_id[i].is_mintable {
            return Err(TicketError::NotMintable);
        }
        let num_tokens = self.token_series_by_id[i].tokens.len();
        let max_copies: u64 = match self.token_series_by_id[i].metadata.copies {
            Some(c) => c,
            None => u64::MAX,
        };
        if num_tokens as u64 >= max_copies {
            return Err(TicketError::SupplyExhausted);
        }
        let ordinal: u64 = num_tokens as u64 + 1;
        let mut s = self.token_series_by_id.remove(i);
        let token_id = make_token_id(&s.token_series_id, ordinal);
        let ord_string = u64_to_decimal(ordinal);
        let base = might_string(clone_opt_string(&s.metadata.title));
        let ghost base_v = base@;
        let pieces: Vec<&str> = vec![
            title_delimiter(),
            s.token_series_id.as_str(),
            title_delimiter(),
            ord_string.as_str(),
        ];
        let ghost pv = pieces@;
        let title = push_str_cleaner(base, pieces);
        proof {
            let p2 = pv.drop_last();
            let p1 = p2.drop_last();
            let p0 = p1.drop_last();
            assert(p0.drop_last() =~= Seq::<&str>::empty());
            assert(p0.last() == pv[0] && p1.last() == pv[1] && p2.last() == pv[2]
                && pv.last() == pv[3]);
            assert(concat_views(p0.drop_last()) == Seq::<char>::empty());
            assert(concat_views(p0) == concat_views(p0.drop_last()) + p0.last()@);
            assert(concat_views(p1) == concat_views(p0) + p1.last()@);
            assert(concat_views(p2) == concat_views(p1) + p2.last()@);
            assert(concat_views(pv) == concat_views(p2) + pv.last()@);
            assert(concat_views(pv) =~= pv[0]@ + pv[1]@ + pv[2]@ + pv[3]@);
            assert(base_v == might_view(sv0[i as int].metadata.title));
            assert(title@ =~= token_title(sv0[i as int], ordinal as nat));
        }
        let md = TokenMetadata {
            title: Some(title),
            description: clone_opt_string(&s.metadata.description),
            media: clone_opt_string(&s.metadata.media),
            media_hash: clone_opt_bytes_exact(&s.metadata.media_hash),
            copies: s.metadata.copies,
            issued_at: Some(timestamp),
            expires_at: None,
            starts_at: None,
            updated_at: None,
            extra: s.metadata.extra,
            reference: clone_opt_string(&s.metadata.reference),
            reference_hash: clone_opt_bytes_exact(&s.metadata.reference_hash),
        };
        s.tokens.push(token_id.clone());
        s.is_mintable = ordinal < max_copies;
        self.token_series_by_id.insert(i, s);
        proof {
            let sv1 = self.token_series_by_id.deep_view();
            let upd = series_after_mint(sv0[i as int], token_id@);
            assert(sv1[i as int].tokens =~= upd.tokens);
            assert(sv1[i as int] =~= upd);
            assert(sv1 =~= sv0.update(i as int, upd));
            assert(token_id@ == token_id_seq((i + 1) as nat, ordinal as nat));
            assert(md@ =~= minted_metadata(sv0[i as int], ordinal as nat, timestamp));
            assert(series_ids_canonical(sv1));
            assert(series_wf(upd));
            assert(series_all_wf(sv1));
            assert forall|a: int, k: int|
                0 <= a < sv1.len() && 0 <= k < sv1[a].tokens.len() implies (
            #[trigger] sv1[a].tokens[k]) == token_id_seq((a + 1) as nat, (k + 1) as nat) by {
                if a == i && k == sv0[i as int].tokens.len() {
                } else {
                    assert(sv0[a].tokens[k] == token_id_seq((a + 1) as nat, (k + 1) as nat));
                }
            }
            assert forall|a: int|
                0 <= a < sv0.len() implies sv0[a].tokens.len() <= (
            #[trigger] sv1[a]).tokens.len() by {}
            lemma_minted_preserved(self.tokens_by_id.deep_view(), sv0, sv1);
        }
        Ok((token_id, md))
    }

    /// The single paid, state-mutating mint entry point: validates the
    /// payment, issues the next token of the series, records its ownership
    /// with the creator seeded at approval slot 0 and the royalty table
    /// snapshotted, splits the price, and returns the transfers to perform
    /// with the record to emit.
    ///
    /// Fails, touching nothing, with `NotFound` on an unknown id,
    /// `NotMintable` when the series has no price or its flag is off,
    /// `InsufficientPayment` when the attached deposit is below the price,
    /// and `SupplyExhausted` when the issued set has reached the copies.
    pub fn mint_ticket(
        &mut self,
        token_series_id: &String,
        receiver_id: String,
        attached_deposit: u128,
        timestamp: u64,
    ) -> (r: Result<MintOutcome, TicketError>)
        requires
            old(self).wf(),
        ensures
            final(self).wf(),
            final(self).events == old(self).events,
            final(self).owner_id == old(self).owner_id,
            final(self).treasury == old(self).treasury,
            final(self).metadata == old(self).metadata,
            ({
                let sv = old(self).token_series_by_id.deep_view();
                let tv = old(self).tokens_by_id.deep_view();
                let idx = series_index(sv, token_series_id@);
                match r {
                    Err(e) => {
                        &&& *final(self) == *old(self)
                        &&& if idx < 0 {
                            e == TicketError::NotFound
                        } else if sv[idx].price is None {
                            e == TicketError::NotMintable
                        } else if attached_deposit < sv[idx].price->0 {
                            e == TicketError::InsufficientPayment
                        } else if !sv[idx].is_mintable {
                            e == TicketError::NotMintable
                        } else {
                            &&& sv[idx].tokens.len() >= copies_of(sv[idx])
                            &&& e == TicketError::SupplyExhausted
                        }
                    },
                    Ok(outcome) => {
                        let price = sv[idx].price->0;
                        let ordinal = (sv[idx].tokens.len() + 1) as nat;
                        &&& 0 <= idx < sv.len()
                        &&& sv[idx].price is Some
                        &&& attached_deposit >= price
                        &&& sv[idx].is_mintable
                        &&& sv[idx].tokens.len() < copies_of(sv[idx])
                        &&& outcome.token_id@ == token_id_seq((idx + 1) as nat, ordinal)
                        &&& final(self).token_series_by_id.deep_view() == sv.update(
                            idx,
                            series_after_mint(sv[idx], outcome.token_id@),
                        )
                        &&& final(self).tokens_by_id.deep_view() == tv.push(
                            MintedTokenV {
                                token_id: outcome.token_id@,
                                owner_id: receiver_id@,
                                metadata: minted_metadata(sv[idx], ordinal, timestamp),
                                approved_account_ids: seq![(sv[idx].creator_id, 0u64)],
                                next_approval_id: 1u64,
                                royalty: sv[idx].royalty,
                            },
                        )
                        &&& outcome.creator_account@ == sv[idx].creator_id
                        &&& outcome.treasury_account@ == old(self).treasury@
                        &&& outcome.treasury_amount == treasury_share(price)
                        &&& outcome.creator_amount + outcome.treasury_amount == price
                        &&& outcome.record.standard@ == "nep171"@
                        &&& outcome.record.version@ == "1.0.0"@
                        &&& outcome.record.owner_id@ == receiver_id@
                        &&& outcome.record.token_ids.deep_view() == seq![outcome.token_id@]
                        &&& outcome.record.memo is None
                    },
                }
            }),
    {
        let ghost sv0 = self.token_series_by_id.deep_view();
        let ghost tv0 = self.tokens_by_id.deep_view();
        let i = match self.find_series(token_series_id) {
            Some(i) => i,
            None => {
                proof {
                    assert forall|j: int| 0 <= j < sv0.len() implies (#[trigger] sv0[j])
                        .token_series_id != token_series_id@ by {
                        assert(sv0[j] == self.token_series_by_id@[j]@);
                    }
                    lemma_series_index_none(sv0, token_series_id@);
                }
                return Err(TicketError::NotFound);
            },
        };
        proof {
            assert(sv0[i as int] == self.token_series_by_id@[i as int]@);
            lemma_series_index_unique(sv0, token_series_id@, i as int);
        }
        let price: u128 = match self.token_series_by_id[i].price {
            Some(p) => p,
            None => {
                return Err(TicketError::NotMintable);
            },
        };
        if attached_deposit < price {
            return Err(TicketError::InsufficientPayment);
        }
        let (token_id, md) = match self.mint_next(token_series_id, timestamp) {
            Ok(pair) => pair,
            Err(e) => {
                return Err(e);
            },
        };
        let ghost n = sv0[i as int].tokens.len() as int;
        proof {
            assert(self.token_series_by_id.deep_view().len() == sv0.len());
            assert(self.token_series_by_id@.len()
                == self.token_series_by_id.deep_view().len());
        }
        let creator = self.token_series_by_id[i].creator_id.clone();
        let royalty = royalty_snapshot(&self.token_series_by_id[i].royalty);
        let mut approvals: Vec<(String, u64)> = Vec::new();
        approvals.push((creator.clone(), 0u64));
        let token = MintedToken {
            token_id: token_id.clone(),
            owner_id: receiver_id.clone(),
            metadata: md,
            approved_account_ids: approvals,
            next_approval_id: 1u64,
            royalty,
        };
        let ghost new_tok = token@;
        self.tokens_by_id.push(token);
        let (creator_amount, treasury_amount) = split(price);
        let mut minted_ids: Vec<String> = Vec::new();
        minted_ids.push(token_id.clone());
        let record = MintRecord {
            standard: String::from_str("nep171"),
            version: String::from_str("1.0.0"),
            owner_id: receiver_id,
            token_ids: minted_ids,
            memo: None,
        };
        proof {
            let sv1 = self.token_series_by_id.deep_view();
            let tv1 = self.tokens_by_id.deep_view();
            assert(tv1 =~= tv0.push(new_tok));
            assert(new_tok.approved_account_ids =~= seq![(sv0[i as int].creator_id, 0u64)]);
            assert(new_tok =~= MintedTokenV {
                token_id: token_id@,
                owner_id: new_tok.owner_id,
                metadata: minted_metadata(sv0[i as int], (n + 1) as nat, timestamp),
                approved_account_ids: seq![(sv0[i as int].creator_id, 0u64)],
                next_approval_id: 1u64,
                royalty: sv0[i as int].royalty,
            });
            assert(token_id@ == token_id_seq((i + 1) as nat, (n + 1) as nat));
            assert forall|a: int|
                0 <= a < sv0.len() implies sv0[a].tokens.len() <= (
            #[trigger] sv1[a]).tokens.len() by {}
            lemma_minted_preserved(tv0, sv0, sv1);
            assert forall|t: int| 0 <= t < tv1.len() implies minted_ok(
                #[trigger] tv1[t],
                sv1,
            ) by {
                if t < tv0.len() {
                    assert(tv1[t] == tv0[t]);
                    assert(minted_ok(tv0[t], sv1));
                } else {
                    assert(tv1[t] == new_tok);
                    assert(0 <= i < sv1.len() && 1 <= n + 1 <= sv1[i as int].tokens.len()
                        && new_tok.token_id == token_id_seq((i + 1) as nat, (n + 1) as nat));
                    assert(minted_ok(new_tok, sv1));
                }
            }
            assert forall|p: int, q: int| 0 <= p < q < tv1.len() implies (#[trigger] tv1[p])
                .token_id != (#[trigger] tv1[q]).token_id by {
                if q < tv0.len() {
                    assert(tv0[p].token_id != tv0[q].token_id);
                } else {
                    assert(minted_ok(tv0[p], sv0));
                    let (a0, k0) = choose|a0: int, k0: int|
                        0 <= a0 < sv0.len() && 1 <= k0 <= sv0[a0].tokens.len() && tv0[p]
                            .token_id == #[trigger] token_id_seq((a0 + 1) as nat, k0 as nat);
                    if tv1[p].token_id == tv1[q].token_id {
                        lemma_token_id_injective(
                            (a0 + 1) as nat,
                            k0 as nat,
                            (i + 1) as nat,
                            (n + 1) as nat,
                        );
                        assert(false);
                    }
                }
            }
        }
        Ok(MintOutcome {
            token_id,
            creator_account: creator,
            creator_amount,
            treasury_account: self.treasury.clone(),
            treasury_amount,
            record,
        })
    }
}

} // verus!
