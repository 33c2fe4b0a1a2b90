//! Metadata records for the contract, its series and its tokens.

use vstd::prelude::*;

verus! {

/// The free-form attribute blob a series carries, as a typed record.
#[derive(Clone, Copy, Debug, PartialEq, Eq, Structural)]
pub struct Extra {
    /// Whether the ticket has been confirmed (used off-chain; every series
    /// starts unconfirmed).
    pub confirmed: bool,
}

/// Display and category metadata of a token series or a minted token.
#[derive(Debug)]
pub struct TokenMetadata {
    pub title: Option<String>,
    pub description: Option<String>,
    pub media: Option<String>,
    pub media_hash: Option<Vec<u8>>,
    /// Total copies the series may issue.
    pub copies: Option<u64>,
    /// Issuance timestamp stamped at mint time.
    pub issued_at: Option<u64>,
    pub expires_at: Option<u64>,
    pub starts_at: Option<u64>,
    pub updated_at: Option<u64>,
    pub extra: Option<Extra>,
    pub reference: Option<String>,
    pub reference_hash: Option<Vec<u8>>,
}

/// The mathematical model of a metadata record: every text field as its
/// character sequence.
#[verifier::ext_equal]
pub ghost struct TokenMetadataV {
    pub title: Option<Seq<char>>,
    pub description: Option<Seq<char>>,
    pub media: Option<Seq<char>>,
    pub media_hash: Option<Seq<u8>>,
    pub copies: Option<u64>,
    pub issued_at: Option<u64>,
    pub expires_at: Option<u64>,
    pub starts_at: Option<u64>,
    pub updated_at: Option<u64>,
    pub extra: Option<Extra>,
    pub reference: Option<Seq<char>>,
    pub reference_hash: Option<Seq<u8>>,
}

impl View for Extra {
    type V = Extra;

    open spec fn view(&self) -> Extra {
        *self
    }
}

impl DeepView for Extra {
    type V = Extra;

    open spec fn deep_view(&self) -> Extra {
        *self
    }
}

impl View for TokenMetadata {
    type V = TokenMetadataV;

    open spec fn view(&self) -> TokenMetadataV {
        TokenMetadataV {
            title: self.title.deep_view(),
            description: self.description.deep_view(),
            media: self.media.deep_view(),
            media_hash: self.media_hash.deep_view(),
            copies: self.copies,
            issued_at: self.issued_at,
            expires_at: self.expires_at,
            starts_at: self.starts_at,
            updated_at: self.updated_at,
            extra: self.extra,
            reference: self.reference.deep_view(),
            reference_hash: self.reference_hash.deep_view(),
        }
    }
}

impl DeepView for TokenMetadata {
    type V = TokenMetadataV;

    open spec fn deep_view(&self) -> TokenMetadataV {
        self.view()
    }
}

/// Contract-level metadata describing the whole marketplace.
#[derive(Debug)]
pub struct ContractMetadata {
    /// Version of the token-metadata standard this contract follows.
    pub spec_version: String,
    pub name: String,
    pub symbol: String,
    pub icon: Option<String>,
    pub base_uri: Option<String>,
    pub reference: Option<String>,
    pub reference_hash: Option<Vec<u8>>,
}

} // verus!
