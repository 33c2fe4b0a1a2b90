//! The storage accountant: byte deltas and deposit settlement.
//!
//! The host measures persistent byte usage before and after a mutation and
//! hands the figures in; this module turns the delta into the deposit a
//! caller owes and the refund it is due. Charging and refunding the actual
//! value transfer is the host's job.

use vstd::prelude::*;
use crate::error::TicketError;

verus! {

/// Cost in attached-value units of one persisted byte.
pub const STORAGE_PRICE_PER_BYTE: u128 = 10_000_000_000_000_000_000;

/// The bytes a mutation added: usage after minus usage before, zero when
/// storage shrank.
pub fn storage_delta(initial_usage: u64, current_usage: u64) -> (r: u64)
    ensures
        current_usage >= initial_usage ==> r == current_usage - initial_usage,
        current_usage < initial_usage ==> r == 0,
{
    if current_usage >= initial_usage {
        current_usage - initial_usage
    } else {
        0
    }
}

/// The deposit required to keep `bytes` bytes in persistent storage.
pub fn required_cost(bytes: u64) -> (r: u128)
    ensures
        r == bytes * STORAGE_PRICE_PER_BYTE,
{
    proof {
        assert((bytes as int) * (STORAGE_PRICE_PER_BYTE as int) <= u128::MAX) by (nonlinear_arith)
            requires bytes <= u64::MAX,
        ;
    }
    (bytes as u128) * STORAGE_PRICE_PER_BYTE
}

/// The refund owed after a paid mutation: what was attached beyond the price
/// and the storage cost.
///
/// Fails when the attached deposit does not cover `price` plus the cost of
/// `storage_bytes`; otherwise the refund never exceeds
/// `attached_deposit - price`.
pub fn settle_deposit(attached_deposit: u128, price: u128, storage_bytes: u64) -> (r: Result<
    u128,
    TicketError,
>)
    ensures
        match r {
            Ok(refund) => {
                &&& attached_deposit
                    >= price + storage_bytes * STORAGE_PRICE_PER_BYTE
                &&& refund == attached_deposit - price
                    - storage_bytes * STORAGE_PRICE_PER_BYTE
                &&& refund <= attached_deposit - price
            },
            Err(e) => {
                &&& e == TicketError::InsufficientPayment
                &&& attached_deposit < price + storage_bytes * STORAGE_PRICE_PER_BYTE
            },
        },
{
    let cost = required_cost(storage_bytes);
    if attached_deposit < price {
        return Err(TicketError::InsufficientPayment);
    }
    if attached_deposit - price < cost {
        return Err(TicketError::InsufficientPayment);
    }
    Ok(attached_deposit - price - cost)
}

} // verus!
