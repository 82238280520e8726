//! The base64 conversion used for the bridging payload's recipient value.

use vstd::prelude::*;

verus! {

/// The byte string a standard-alphabet base64 text decodes to, or `None`
/// when the text is not valid base64 (non-ASCII bytes included).
pub uninterp spec fn base64_dec(s: Seq<u8>) -> Option<Seq<u8>>;

/// Relies on cosmwasm_std::Binary::from_base64: standard-alphabet base64,
/// accepted with or without padding; a deterministic function of the input
/// text alone. Text that is not ASCII base64 is refused.
#[verifier::external_body]
pub(crate) fn base64_decode(s: &Vec<u8>) -> (r: Option<Vec<u8>>)
    ensures
        match r {
            Some(v) => base64_dec(s@) == Some(v@),
            None => base64_dec(s@) == None::<Seq<u8>>,
        },
{
    match core::str::from_utf8(s.as_slice()) {
        Ok(t) => match cosmwasm_std::Binary::from_base64(t) {
            Ok(b) => Some(b.0),
            Err(_) => None,
        },
        Err(_) => None,
    }
}

} // verus!
