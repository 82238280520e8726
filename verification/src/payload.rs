//! The opaque payloads the engine decodes: the receiver-hook action and the
//! bridging payload carried inside an inbound transfer.
//!
//! Both are canonical JSON texts. The action is the quoted tag
//! `"convert_to_bank"`; the bridging payload is
//! `{"basic_recipient":{"recipient":"<base64>"}}` whose value is the
//! base64 text of the recipient's address bytes. The structure is parsed by
//! verified code byte by byte; only the base64 conversion of the value is
//! done by an outside call.

use vstd::prelude::*;
use crate::bytes::{bytes_eq, sub_bytes};
use crate::error::EngineError;

verus! {

/// An action requested through the wrapped-asset receiver hook.
#[derive(Debug, Clone, Copy, PartialEq, Eq, Structural)]
pub enum ReceiveAction {
    /// Convert the received wrapped tokens into the bank representation.
    ConvertToBank,
}

/// The instruction embedded in an inbound transfer's opaque payload.
#[derive(Debug, PartialEq, Eq)]
pub enum BridgingPayload {
    /// Deliver the converted native asset to this raw recipient address.
    BasicRecipient { recipient: Vec<u8> },
}

pub const QUOTE: u8 = 34; // '"'
pub const LBRACE: u8 = 123; // '{'
pub const RBRACE: u8 = 125; // '}'
pub const COLON: u8 = 58; // ':'

/// JSON whitespace.
pub open spec fn is_ws(b: u8) -> bool {
    b == 32 || b == 9 || b == 10 || b == 13
}

/// The first position at or after `i` holding a byte that is not JSON
/// whitespace (or the end of the text).
pub open spec fn ws_end(s: Seq<u8>, i: int) -> int
    decreases s.len() - i when 0 <= i <= s.len()
{
    if i < s.len() && is_ws(s[i]) {
        ws_end(s, i + 1)
    } else {
        i
    }
}

/// The first position at or after `i` holding a quote (or the end of the
/// text).
pub open spec fn quote_end(s: Seq<u8>, i: int) -> int
    decreases s.len() - i when 0 <= i <= s.len()
{
    if i < s.len() && s[i] != QUOTE {
        quote_end(s, i + 1)
    } else {
        i
    }
}

/// The bytes of `"convert_to_bank"`, quotes included.
pub open spec fn convert_to_bank_tok() -> Seq<u8> {
    seq![
        34u8, 99u8, 111u8, 110u8, 118u8, 101u8, 114u8, 116u8, 95u8, 116u8, 111u8, 95u8, 98u8,
        97u8, 110u8, 107u8, 34u8,
    ]
}

/// The bytes of `"basic_recipient"`, quotes included.
pub open spec fn basic_recipient_tok() -> Seq<u8> {
    seq![
        34u8, 98u8, 97u8, 115u8, 105u8, 99u8, 95u8, 114u8, 101u8, 99u8, 105u8, 112u8, 105u8,
        101u8, 110u8, 116u8, 34u8,
    ]
}

/// The bytes of `"recipient"`, quotes included.
pub open spec fn recipient_tok() -> Seq<u8> {
    seq![34u8, 114u8, 101u8, 99u8, 105u8, 112u8, 105u8, 101u8, 110u8, 116u8, 34u8]
}

/// Whether `s` is the canonical text of the convert-to-bank action: the
/// quoted tag alone, surrounded by whitespace only.
pub open spec fn receive_action_ok(s: Seq<u8>) -> bool {
    let a = ws_end(s, 0);
    &&& a + 17 <= s.len()
    &&& s.subrange(a, a + 17) == convert_to_bank_tok()
    &&& ws_end(s, a + 17) == s.len()
}

/// The base64 segment of a canonical bridging payload, or `None` when the
/// text does not have the payload's structure.
pub open spec fn bridging_recipient_b64(s: Seq<u8>) -> Option<Seq<u8>> {
    let p0 = ws_end(s, 0);
    if !(p0 < s.len() && s[p0] == LBRACE) {
        None
    } else {
        let p1 = ws_end(s, p0 + 1);
        if !(p1 + 17 <= s.len() && s.subrange(p1, p1 + 17) == basic_recipient_tok()) {
            None
        } else {
            let p2 = ws_end(s, p1 + 17);
            if !(p2 < s.len() && s[p2] == COLON) {
                None
            } else {
                let p3 = ws_end(s, p2 + 1);
                if !(p3 < s.len() && s[p3] == LBRACE) {
                    None
                } else {
                    let p4 = ws_end(s, p3 + 1);
                    if !(p4 + 11 <= s.len() && s.subrange(p4, p4 + 11) == recipient_tok()) {
                        None
                    } else {
                        let p5 = ws_end(s, p4 + 11);
                        if !(p5 < s.len() && s[p5] == COLON) {
                            None
                        } else {
                            let p6 = ws_end(s, p5 + 1);
                            if !(p6 < s.len() && s[p6] == QUOTE) {
                                None
                            } else {
                                let q = quote_end(s, p6 + 1);
                                if !(q < s.len()) {
                                    None
                                } else {
                                    let p7 = ws_end(s, q + 1);
                                    if !(p7 < s.len() && s[p7] == RBRACE) {
                                        None
                                    } else {
                                        let p8 = ws_end(s, p7 + 1);
                                        if !(p8 < s.len() && s[p8] == RBRACE) {
                                            None
                                        } else if ws_end(s, p8 + 1) == s.len() {
                                            Some(s.subrange(p6 + 1, q))
                                        } else {
                                            None
                                        }
                                    }
                                }
                            }
                        }
                    }
                }
            }
        }
    }
}

/// The recipient address a bridging payload carries: the base64 value of
/// its only field, decoded.
pub open spec fn bridging_payload_dec(s: Seq<u8>) -> Option<Seq<u8>> {
    match bridging_recipient_b64(s) {
        Some(seg) => crate::codec_b64::base64_dec(seg),
        None => None,
    }
}

fn is_ws_byte(b: u8) -> (r: bool)
    ensures
        r == is_ws(b),
{
    b == 32 || b == 9 || b == 10 || b == 13
}

/// Advances past JSON whitespace.
fn skip_ws(v: &Vec<u8>, i: usize) -> (r: usize)
    requires
        i <= v@.len(),
    ensures
        i <= r <= v@.len(),
        r as int == ws_end(v@, i as int),
{
    let mut k: usize = i;
    while k < v.len() && is_ws_byte(v[k])
        invariant
            i <= k <= v@.len(),
            ws_end(v@, i as int) == ws_end(v@, k as int),
        decreases v@.len() - k,
    {
        proof {
            assert(ws_end(v@, k as int) == ws_end(v@, k + 1 as int));
        }
        k = k + 1;
    }
    proof {
        assert(ws_end(v@, k as int) == k as int);
    }
    k
}

/// Advances to the next quote.
fn find_quote(v: &Vec<u8>, i: usize) -> (r: usize)
    requires
        i <= v@.len(),
    ensures
        i <= r <= v@.len(),
        r as int == quote_end(v@, i as int),
{
    let mut k: usize = i;
    while k < v.len() && v[k] != QUOTE
        invariant
            i <= k <= v@.len(),
            quote_end(v@, i as int) == quote_end(v@, k as int),
        decreases v@.len() - k,
    {
        proof {
            assert(quote_end(v@, k as int) == quote_end(v@, k + 1 as int));
        }
        k = k + 1;
    }
    proof {
        assert(quote_end(v@, k as int) == k as int);
    }
    k
}

fn convert_to_bank_tok_vec() -> (t: Vec<u8>)
    ensures
        t@ == convert_to_bank_tok(),
{
    let mut t: Vec<u8> = Vec::new();
    t.push(34u8);
    t.push(99u8);
    t.push(111u8);
    t.push(110u8);
    t.push(118u8);
    t.push(101u8);
    t.push(114u8);
    t.push(116u8);
    t.push(95u8);
    t.push(116u8);
    t.push(111u8);
    t.push(95u8);
    t.push(98u8);
    t.push(97u8);
    t.push(110u8);
    t.push(107u8);
    t.push(34u8);
    proof {
        assert(t@ =~= convert_to_bank_tok());
    }
    t
}

fn basic_recipient_tok_vec() -> (t: Vec<u8>)
    ensures
        t@ == basic_recipient_tok(),
{
    let mut t: Vec<u8> = Vec::new();
    t.push(34u8);
    t.push(98u8);
    t.push(97u8);
    t.push(115u8);
    t.push(105u8);
    t.push(99u8);
    t.push(95u8);
    t.push(114u8);
    t.push(101u8);
    t.push(99u8);
    t.push(105u8);
    t.push(112u8);
    t.push(105u8);
    t.push(101u8);
    t.push(110u8);
    t.push(116u8);
    t.push(34u8);
    proof {
        assert(t@ =~= basic_recipient_tok());
    }
    t
}

fn recipient_tok_vec() -> (t: Vec<u8>)
    ensures
        t@ == recipient_tok(),
{
    let mut t: Vec<u8> = Vec::new();
    t.push(34u8);
    t.push(114u8);
    t.push(101u8);
    t.push(99u8);
    t.push(105u8);
    t.push(112u8);
    t.push(105u8);
    t.push(101u8);
    t.push(110u8);
    t.push(116u8);
    t.push(34u8);
    proof {
        assert(t@ =~= recipient_tok());
    }
    t
}

/// Decodes the receiver-hook action.
pub fn decode_receive_action(bytes: &Vec<u8>) -> (r: Result<ReceiveAction, EngineError>)
    ensures
        match r {
            Ok(a) => receive_action_ok(bytes@) && a == ReceiveAction::ConvertToBank,
            Err(e) => !receive_action_ok(bytes@) && e == EngineError::PayloadDecodeFailure,
        },
{
    let a = skip_ws(bytes, 0);
    if bytes.len() - a < 17 {
        return Err(EngineError::PayloadDecodeFailure);
    }
    let tok = convert_to_bank_tok_vec();
    let seg = sub_bytes(bytes, a, a + 17);
    if !bytes_eq(&seg, &tok) {
        return Err(EngineError::PayloadDecodeFailure);
    }
    let e = skip_ws(bytes, a + 17);
    if e != bytes.len() {
        return Err(EngineError::PayloadDecodeFailure);
    }
    Ok(ReceiveAction::ConvertToBank)
}

/// Decodes a bridging payload, base64 value included.
pub fn decode_bridging_payload(bytes: &Vec<u8>) -> (r: Result<BridgingPayload, EngineError>)
    ensures
        match r {
            Ok(p) => (match p {
                BridgingPayload::BasicRecipient { recipient } =>
                    bridging_payload_dec(bytes@) == Some(recipient@),
            }),
            Err(e) => bridging_payload_dec(bytes@) == None::<Seq<u8>>
                && e == EngineError::PayloadDecodeFailure,
        },
{
    let p0 = skip_ws(bytes, 0);
    if !(p0 < bytes.len() && bytes[p0] == LBRACE) {
        return Err(EngineError::PayloadDecodeFailure);
    }
    let p1 = skip_ws(bytes, p0 + 1);
    let br_tok = basic_recipient_tok_vec();
    if bytes.len() - p1 < 17 {
        return Err(EngineError::PayloadDecodeFailure);
    }
    let seg1 = sub_bytes(bytes, p1, p1 + 17);
    if !bytes_eq(&seg1, &br_tok) {
        return Err(EngineError::PayloadDecodeFailure);
    }
    let p2 = skip_ws(bytes, p1 + 17);
    if !(p2 < bytes.len() && bytes[p2] == COLON) {
        return Err(EngineError::PayloadDecodeFailure);
    }
    let p3 = skip_ws(bytes, p2 + 1);
    if !(p3 < bytes.len() && bytes[p3] == LBRACE) {
        return Err(EngineError::PayloadDecodeFailure);
    }
    let p4 = skip_ws(bytes, p3 + 1);
    let r_tok = recipient_tok_vec();
    if bytes.len() - p4 < 11 {
        return Err(EngineError::PayloadDecodeFailure);
    }
    let seg2 = sub_bytes(bytes, p4, p4 + 11);
    if !bytes_eq(&seg2, &r_tok) {
        return Err(EngineError::PayloadDecodeFailure);
    }
    let p5 = skip_ws(bytes, p4 + 11);
    if !(p5 < bytes.len() && bytes[p5] == COLON) {
        return Err(EngineError::PayloadDecodeFailure);
    }
    let p6 = skip_ws(bytes, p5 + 1);
    if !(p6 < bytes.len() && bytes[p6] == QUOTE) {
        return Err(EngineError::PayloadDecodeFailure);
    }
    let q = find_quote(bytes, p6 + 1);
    if !(q < bytes.len()) {
        return Err(EngineError::PayloadDecodeFailure);
    }
    let p7 = skip_ws(bytes, q + 1);
    if !(p7 < bytes.len() && bytes[p7] == RBRACE) {
        return Err(EngineError::PayloadDecodeFailure);
    }
    let p8 = skip_ws(bytes, p7 + 1);
    if !(p8 < bytes.len() && bytes[p8] == RBRACE) {
        return Err(EngineError::PayloadDecodeFailure);
    }
    let e = skip_ws(bytes, p8 + 1);
    if e != bytes.len() {
        return Err(EngineError::PayloadDecodeFailure);
    }
    let seg = sub_bytes(bytes, p6 + 1, q);
    proof {
        assert(bridging_recipient_b64(bytes@) == Some(seg@));
    }
    let dec = crate::codec_b64::base64_decode(&seg);
    match dec {
        Some(recipient) => Ok(BridgingPayload::BasicRecipient { recipient }),
        None => Err(EngineError::PayloadDecodeFailure),
    }
}

} // verus!
