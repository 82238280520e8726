//! The identity codec: a deterministic, reversible mapping between a
//! wrapped-asset identity (the canonical bytes of its contract address) and
//! the compact base-58 subdenomination segment used inside a native
//! denomination.
//!
//! The base-58 conversion itself is done by the `bs58` crate; the two
//! wrappers below carry the facts the rest of the library builds on: the
//! encoding is deterministic, decoding inverts it, a string that is no
//! encoding is refused, and the encoded text never holds the denomination
//! separator.

use vstd::prelude::*;
use crate::bytes::SEP;

verus! {

/// The base-58 text (as ASCII bytes) of a byte string.
pub uninterp spec fn b58_enc(b: Seq<u8>) -> Seq<u8>;

/// The byte string a base-58 text decodes to, or `None` when the text is
/// not valid base-58.
pub uninterp spec fn b58_dec(s: Seq<u8>) -> Option<Seq<u8>>;

/// Relies on bs58::encode with the default (Bitcoin) alphabet: the result is
/// a deterministic function of the input bytes, bs58::decode inverts it, and
/// every byte of the result is an alphanumeric alphabet character, so never
/// the `/` separator.
#[verifier::external_body]
pub(crate) fn b58_encode(b: &Vec<u8>) -> (r: Vec<u8>)
    ensures
        r@ == b58_enc(b@),
        b58_dec(r@) == Some(b@),
        forall|k: int| 0 <= k < r@.len() ==> r@[k] != SEP,
{
    bs58::encode(b.as_slice()).into_vec()
}

/// Relies on bs58::decode with the default alphabet: it succeeds exactly on
/// the strings bs58::encode produces (plain base-58 is a bijection between
/// byte strings and alphabet strings), and returns the unique preimage.
#[verifier::external_body]
pub(crate) fn b58_decode(s: &Vec<u8>) -> (r: Option<Vec<u8>>)
    ensures
        match r {
            Some(v) => b58_dec(s@) == Some(v@) && s@ == b58_enc(v@),
            None => b58_dec(s@) == None::<Seq<u8>>
                && forall|b: Seq<u8>| b58_enc(b) != s@,
        },
{
    match bs58::decode(s.as_slice()).into_vec() {
        Ok(v) => Some(v),
        Err(_) => None,
    }
}

} // verus!
