//! Paginated views over the registries.

use vstd::prelude::*;
use crate::contract::Contract;
use crate::error::TicketError;
use crate::events::{clone_event, Event};
use crate::series::{summarize, summarizes, TokenSeriesJson};

verus! {

/// The number of entries a page starting at `start` with limit `lim` holds
/// out of `len` entries: `min(lim, len - start)`, or nothing past the end.
pub open spec fn page_len(len: int, start: int, lim: int) -> int {
    if start >= len {
        0
    } else if lim < len - start {
        lim
    } else {
        len - start
    }
}

impl Contract {
    /// The events from `from_index` (default 0) on, at most `limit`
    /// (default 50) of them, in insertion order. Tolerant of ranges past
    /// the end: they give the empty sequence.
    pub fn get_events(&self, from_index: Option<u128>, limit: Option<u64>) -> (r: Vec<Event>)
        ensures
            ({
                let len = self.events@.len() as int;
                let start = match from_index {
                    Some(f) => f as int,
                    None => 0,
                };
                let lim = match limit {
                    Some(l) => l as int,
                    None => 50,
                };
                &&& r.deep_view().len() == page_len(len, start, lim)
                &&& start <= len ==> r.deep_view() == self.events.deep_view().subrange(
                    start,
                    start + page_len(len, start, lim),
                )
            }),
    {
        let start_u128: u128 = match from_index {
            Some(f) => f,
            None => 0,
        };
        let lim_u64: u64 = match limit {
            Some(l) => l,
            None => 50,
        };
        let len = self.events.len();
        let mut r: Vec<Event> = Vec::new();
        if start_u128 >= len as u128 {
            return r;
        }
        let start = start_u128 as usize;
        let end: usize = if (lim_u64 as u128) < (len - start) as u128 {
            start + lim_u64 as usize
        } else {
            len
        };
        let ghost dv = self.events.deep_view();
        for j in start..end
            invariant
                start <= j <= end <= self.events@.len(),
                dv == self.events.deep_view(),
                r.deep_view() =~= dv.subrange(start as int, j as int),
        {
            let e = clone_event(&self.events[j]);
            let ghost r_dv = r.deep_view();
            r.push(e);
            proof {
                assert(r.deep_view() =~= r_dv.push(e@));
                assert(dv.subrange(start as int, j + 1) =~= dv.subrange(
                    start as int,
                    j as int,
                ).push(dv[j as int]));
            }
        }
        r
    }

    /// The series summaries from `from_index` (default 0) on, at most
    /// `limit` of them (unlimited by default), in insertion order.
    ///
    /// Fails with `OutOfBounds` when `from_index` is at or past the end of
    /// the registry, and with `InvalidLimit` on a limit of zero; otherwise
    /// returns exactly `min(limit, len - from_index)` summaries of the
    /// series as they stand.
    pub fn get_event_tickets(&self, from_index: Option<u128>, limit: Option<u64>) -> (r: Result<
        Vec<TokenSeriesJson>,
        TicketError,
    >)
        ensures
            ({
                let len = self.token_series_by_id@.len() as int;
                let start = match from_index {
                    Some(f) => f as int,
                    None => 0,
                };
                let lim = match limit {
                    Some(l) => l as int,
                    None => len,
                };
                match r {
                    Err(e) => if start >= len {
                        e == TicketError::OutOfBounds
                    } else {
                        limit == Some(0u64) && e == TicketError::InvalidLimit
                    },
                    Ok(v) => {
                        &&& start < len
                        &&& limit != Some(0u64)
                        &&& v.deep_view().len() == page_len(len, start, lim)
                        &&& forall|j: int|
                            0 <= j < v.deep_view().len() ==> summarizes(
                                #[trigger] v.deep_view()[j],
                                self.token_series_by_id.deep_view()[start + j],
                            )
                    },
                }
            }),
    {
        let start_u128: u128 = match from_index {
            Some(f) => f,
            None => 0,
        };
        let len = self.token_series_by_id.len();
        if start_u128 >= len as u128 {
            return Err(TicketError::OutOfBounds);
        }
        let limited = match limit {
            Some(l) => {
                if l == 0 {
                    return Err(TicketError::InvalidLimit);
                }
                Some(l)
            },
            None => None,
        };
        let start = start_u128 as usize;
        let end: usize = match limited {
            Some(l) => {
                if (l as u128) < (len - start) as u128 {
                    start + l as usize
                } else {
                    len
                }
            },
            None => len,
        };
        let mut v: Vec<TokenSeriesJson> = Vec::new();
        let ghost sv = self.token_series_by_id.deep_view();
        for j in start..end
            invariant
                start <= j <= end <= self.token_series_by_id@.len(),
                sv == self.token_series_by_id.deep_view(),
                v.deep_view().len() == j - start,
                forall|q: int|
                    0 <= q < v.deep_view().len() ==> summarizes(
                        #[trigger] v.deep_view()[q],
                        sv[start + q],
                    ),
        {
            let s = summarize(&self.token_series_by_id[j]);
            let ghost v_dv = v.deep_view();
            v.push(s);
            proof {
                assert(v.deep_view() =~= v_dv.push(s@));
                assert(sv[j as int] == self.token_series_by_id@[j as int]@);
            }
        }
        Ok(v)
    }
}

} // verus!
