//! Core of an event-ticketing registry built on non-fungible-token series.
//!
//! The library is the deterministic state-transition engine: it creates
//! events with limited-supply ticket series, mints individual tickets while
//! enforcing payment and supply invariants, and splits minting revenue
//! between the series creator and a treasury. All state lives in an explicit
//! [`contract::Contract`] store threaded through every operation; ambient
//! concerns (the host's clock, attached deposits, the caller account, value
//! transfers, persistence) enter and leave as plain values at the boundary.

use vstd::prelude::*;

pub mod assistance;
pub mod contract;
pub mod enumeration;
pub mod error;
pub mod events;
pub mod fees;
pub mod internal;
pub mod metadata;
pub mod mint;
pub mod series;
pub mod strings;

verus! {

/// Basis points (out of 10_000) of each mint price owed to the treasury.
pub const TREASURY_FEE: u128 = 300;

/// Largest number of distinct accounts allowed in a royalty table.
pub const MAX_ACCOUNTS_ROYALTY: usize = 7;

/// The string a missing optional text field stands for.
pub fn might_string(option: Option<String>) -> (r: String)
    ensures
        r@ == match option {
            Some(text) => text@,
            None => Seq::<char>::empty(),
        },
{
    match option {
        Some(text) => text,
        None => String::new(),
    }
}

/// The concatenation of the pieces in `to_push` onto `main_string`.
pub fn push_str_cleaner(main_string: String, to_push: Vec<&str>) -> (r: String)
    ensures
        r@ == main_string@ + concat_views(to_push@),
{
    let ghost base = main_string@;
    let mut new_string = main_string;
    let ghost all = to_push@;
    for i in 0..to_push.len()
        invariant
            new_string@ == base + concat_views(all.take(i as int)),
            all == to_push@,
    {
        proof {
            assert(all.take(i + 1).drop_last() =~= all.take(i as int));
            assert(concat_views(all.take(i + 1)) =~= concat_views(all.take(i as int))
                + all[i as int]@);
        }
        new_string.append(to_push[i]);
    }
    proof {
        assert(all.take(to_push@.len() as int) =~= all);
    }
    new_string
}

/// The views of a sequence of string slices, joined in order.
pub open spec fn concat_views(parts: Seq<&str>) -> Seq<char>
    decreases parts.len(),
{
    if parts.len() == 0 {
        Seq::<char>::empty()
    } else {
        concat_views(parts.drop_last()) + parts.last()@
    }
}

} // verus!
