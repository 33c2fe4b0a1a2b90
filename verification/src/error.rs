//! The failure taxonomy of the registry.
//!
//! Every error aborts the enclosing operation entirely: an operation that
//! returns one of these leaves the store exactly as it found it.

use vstd::prelude::*;

verus! {

/// Why a registry operation was refused.
#[derive(Clone, Copy, Debug, PartialEq, Eq, Structural)]
pub enum TicketError {
    /// Bad input shape or size, such as a royalty table with too many accounts.
    Validation,
    /// The named event or series does not exist.
    NotFound,
    /// The series' mintability flag is off.
    NotMintable,
    /// The series has already issued as many tokens as it has copies.
    SupplyExhausted,
    /// The attached payment does not cover the price (or the storage cost).
    InsufficientPayment,
    /// The caller is not the organizer of the event it tries to change.
    Unauthorized,
    /// A pagination start index at or past the end of the registry.
    OutOfBounds,
    /// A pagination limit of zero.
    InvalidLimit,
}

impl TicketError {
    /// A human-readable message for this error.
    pub fn message(&self) -> (r: String)
        ensures
            r@ == match self {
                TicketError::Validation => "Validation failed"@,
                TicketError::NotFound => "Not found"@,
                TicketError::NotMintable => "Token series is not mintable"@,
                TicketError::SupplyExhausted => "Series supply maxed"@,
                TicketError::InsufficientPayment => (
                "Attached deposit does not cover the price")@,
                TicketError::Unauthorized => (
                "Signer is not authorized to update this event")@,
                TicketError::OutOfBounds => (
                "Out of bounds, please use a smaller from_index")@,
                TicketError::InvalidLimit => "Cannot provide limit of 0"@,
            },
    {
        match self {
            TicketError::Validation => String::from_str("Validation failed"),
            TicketError::NotFound => String::from_str("Not found"),
            TicketError::NotMintable => String::from_str("Token series is not mintable"),
            TicketError::SupplyExhausted => String::from_str("Series supply maxed"),
            TicketError::InsufficientPayment => String::from_str(
                "Attached deposit does not cover the price",
            ),
            TicketError::Unauthorized => String::from_str(
                "Signer is not authorized to update this event",
            ),
            TicketError::OutOfBounds => String::from_str(
                "Out of bounds, please use a smaller from_index",
            ),
            TicketError::InvalidLimit => String::from_str("Cannot provide limit of 0"),
        }
    }
}

} // verus!
