//! Duplication helpers with exact contracts.
//!
//! Registry operations hand records both to storage and to the caller, so
//! they need copies that are provably equal to the originals.

use vstd::prelude::*;
use crate::metadata::TokenMetadata;

verus! {

/// A copy of an optional string, equal to the original.
pub fn clone_opt_string(opt: &Option<String>) -> (r: Option<String>)
    ensures
        r == *opt,
{
    match opt {
        Some(s) => Some(s.clone()),
        None => None,
    }
}

/// A copy of a byte vector, equal in view to the original.
pub fn clone_bytes(v: &Vec<u8>) -> (r: Vec<u8>)
    ensures
        r@ == v@,
{
    let mut r: Vec<u8> = Vec::new();
    for i in 0..v.len()
        invariant
            r@ =~= v@.take(i as int),
    {
        r.push(v[i]);
    }
    proof {
        assert(v@.take(v@.len() as int) =~= v@);
    }
    r
}

/// A copy of a string vector, equal element for element to the original.
pub fn clone_vec_string(v: &Vec<String>) -> (r: Vec<String>)
    ensures
        r@ =~= v@,
{
    let mut r: Vec<String> = Vec::new();
    for i in 0..v.len()
        invariant
            r@ =~= v@.take(i as int),
    {
        r.push(v[i].clone());
    }
    proof {
        assert(v@.take(v@.len() as int) =~= v@);
    }
    r
}

/// A copy of a royalty table (accounts and their basis-point shares).
pub fn clone_royalty(v: &Vec<(String, u32)>) -> (r: Vec<(String, u32)>)
    ensures
        r@ =~= v@,
{
    let mut r: Vec<(String, u32)> = Vec::new();
    for i in 0..v.len()
        invariant
            r@ =~= v@.take(i as int),
    {
        let pair = (v[i].0.clone(), v[i].1);
        proof {
            assert(pair == v@[i as int]);
        }
        r.push(pair);
    }
    proof {
        assert(v@.take(v@.len() as int) =~= v@);
    }
    r
}

impl Clone for TokenMetadata {
    /// A copy whose model equals the original's.
    fn clone(&self) -> (res: Self)
        ensures
            res@ == self@,
    {
        let res = TokenMetadata {
            title: clone_opt_string(&self.title),
            description: clone_opt_string(&self.description),
            media: clone_opt_string(&self.media),
            media_hash: clone_opt_bytes_exact(&self.media_hash),
            copies: self.copies,
            issued_at: self.issued_at,
            expires_at: self.expires_at,
            starts_at: self.starts_at,
            updated_at: self.updated_at,
            extra: self.extra,
            reference: clone_opt_string(&self.reference),
            reference_hash: clone_opt_bytes_exact(&self.reference_hash),
        };
        res
    }
}

/// A copy of an optional byte vector whose deep view equals the original's.
pub fn clone_opt_bytes_exact(opt: &Option<Vec<u8>>) -> (r: Option<Vec<u8>>)
    ensures
        r.deep_view() == opt.deep_view(),
{
    match opt {
        Some(v) => {
            let c = clone_bytes(v);
            proof {
                assert(c.deep_view() =~= v.deep_view());
            }
            Some(c)
        },
        None => None,
    }
}

} // verus!
