//! The collision-resistant hash the reward distributor is built on.
//!
//! The digest itself is computed by the host's hash function; the library
//! names its result and reasons about it as an uninterpreted function of
//! the input bytes.

use vstd::prelude::*;

verus! {

/// SHA-256 digest (32 bytes) of a byte string, as computed by the host
/// hash function.  The digest depends on the input bytes alone.
pub uninterp spec fn sha256_of(data: Seq<u8>) -> Seq<u8>;

/// Relies on `solana_program::hash::hashv` (re-exported by `anchor_lang`):
/// it returns the SHA-256 digest of the concatenation of the given slices,
/// a function of those bytes alone.
#[verifier::external_body]
pub(crate) fn hashv(parts: &Vec<Vec<u8>>) -> (r: [u8; 32])
    ensures
        r@ == sha256_of(parts@.map_values(|p: Vec<u8>| p@).flatten()),
{
    let refs: Vec<&[u8]> = parts.iter().map(|p| p.as_slice()).collect();
    anchor_lang::solana_program::hash::hashv(&refs).to_bytes()
}

/// SHA-256 of a single byte buffer.
pub(crate) fn hash_bytes(data: Vec<u8>) -> (r: [u8; 32])
    ensures
        r@ == sha256_of(data@),
{
    let ghost data_view = data@;
    let mut parts: Vec<Vec<u8>> = Vec::new();
    parts.push(data);
    proof {
        let mapped = parts@.map_values(|p: Vec<u8>| p@);
        assert(mapped =~= seq![data_view]);
        mapped.lemma_flatten_one_element();
        assert(mapped.flatten() =~= data_view);
    }
    hashv(&parts)
}

} // verus!
