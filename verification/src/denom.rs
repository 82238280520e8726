//! Native denominations: `factory/{engine-address}/{base58(identity)}`.
//!
//! `native_denom_for` builds the denomination bound to a wrapped-asset
//! identity; `parse_denom` recovers the identity from a denomination and
//! rejects every string this engine could not have minted. Building and
//! parsing are proved inverse to each other.

use vstd::prelude::*;
use crate::bytes::{SEP, bytes_eq, sub_bytes, append_bytes};
use crate::codec::{b58_enc, b58_dec, b58_encode, b58_decode};
use crate::error::EngineError;

verus! {

/// The bytes of the fixed namespace segment, `factory`.
pub open spec fn factory_tag() -> Seq<u8> {
    seq![102u8, 97u8, 99u8, 116u8, 111u8, 114u8, 121u8]
}

/// An address is well-formed when it holds no segment separator.
pub open spec fn addr_wf(a: Seq<u8>) -> bool {
    forall|k: int| 0 <= k < a.len() ==> a[k] != SEP
}

/// The native denomination this engine mints for a wrapped-asset identity.
pub open spec fn denom_of(engine: Seq<u8>, id: Seq<u8>) -> Seq<u8> {
    factory_tag() + seq![SEP] + engine + seq![SEP] + b58_enc(id)
}

/// `i` and `j` are the positions of the only two separators of `d`.
pub open spec fn sep_positions(d: Seq<u8>, i: int, j: int) -> bool {
    &&& 0 <= i < j < d.len()
    &&& d[i] == SEP
    &&& d[j] == SEP
    &&& forall|k: int| 0 <= k < d.len() && k != i && k != j ==> d[k] != SEP
}

/// `d` has exactly three segments, the first being `factory` and the second
/// this engine's address.
pub open spec fn structure_ok(d: Seq<u8>, engine: Seq<u8>) -> bool {
    exists|i: int, j: int|
        sep_positions(d, i, j)
            && d.subrange(0, i) == factory_tag()
            && d.subrange(i + 1, j) == engine
}

/// What parsing a denomination yields: the wrapped-asset identity whose
/// subdenomination segment the third segment is, or the reason the
/// denomination is rejected.
pub open spec fn parse_denom_spec(d: Seq<u8>, engine: Seq<u8>) -> Result<Seq<u8>, EngineError> {
    if structure_ok(d, engine) {
        let (i, j) = choose|i: int, j: int|
            sep_positions(d, i, j)
                && d.subrange(0, i) == factory_tag()
                && d.subrange(i + 1, j) == engine;
        match b58_dec(d.subrange(j + 1, d.len() as int)) {
            Some(id) => Ok(id),
            None => Err(EngineError::DecodeFailure),
        }
    } else {
        Err(EngineError::NotFactoryToken)
    }
}

/// The two separator positions of a denomination are unique.
pub(crate) proof fn lemma_sep_positions_unique(d: Seq<u8>, i1: int, j1: int, i2: int, j2: int)
    requires
        sep_positions(d, i1, j1),
        sep_positions(d, i2, j2),
    ensures
        i1 == i2,
        j1 == j2,
{
    assert(i2 == i1 || i2 == j1);
    assert(j2 == i1 || j2 == j1);
}

/// The separator positions and segments of a built denomination, provided
/// neither the engine address nor the encoded identity holds a separator.
pub(crate) proof fn lemma_denom_of_structure(engine: Seq<u8>, id: Seq<u8>)
    requires
        addr_wf(engine),
        addr_wf(b58_enc(id)),
    ensures
        sep_positions(denom_of(engine, id), 7, 8 + engine.len() as int),
        denom_of(engine, id).subrange(0, 7) == factory_tag(),
        denom_of(engine, id).subrange(8, 8 + engine.len() as int) == engine,
        denom_of(engine, id).subrange(
            8 + engine.len() as int,
            denom_of(engine, id).len() as int,
        ) == seq![SEP] + b58_enc(id),
{
    let d = denom_of(engine, id);
    let i: int = 7;
    let j: int = 8 + engine.len() as int;
    assert(forall|k: int| 0 <= k < 7 ==> factory_tag()[k] != SEP);
    assert(forall|k: int| 0 <= k < 7 ==> d[k] == factory_tag()[k]);
    assert(forall|k: int| 7 < k < j ==> d[k] == engine[k - 8]);
    assert(forall|k: int| j < k < d.len() ==> d[k] == b58_enc(id)[k - j - 1]);
    assert(sep_positions(d, i, j));
    assert(d.subrange(0, i) =~= factory_tag());
    assert(d.subrange(i + 1, j) =~= engine);
    assert(d.subrange(j, d.len() as int) =~= seq![SEP] + b58_enc(id));
}

/// Builds the exact byte form of `factory_tag()`.
fn factory_tag_vec() -> (t: Vec<u8>)
    ensures
        t@ == factory_tag(),
{
    let mut t: Vec<u8> = Vec::new();
    t.push(102u8);
    t.push(97u8);
    t.push(99u8);
    t.push(116u8);
    t.push(111u8);
    t.push(114u8);
    t.push(121u8);
    proof {
        assert(t@ =~= factory_tag());
    }
    t
}

/// Builds the native denomination for `id` under this engine's address and
/// proves that parsing it recovers `id` (the identity round-trip at the
/// denomination level).
pub fn native_denom_for(engine: &Vec<u8>, id: &Vec<u8>) -> (d: Vec<u8>)
    requires
        addr_wf(engine@),
    ensures
        d@ == denom_of(engine@, id@),
        parse_denom_spec(d@, engine@) == Ok::<Seq<u8>, EngineError>(id@),
{
    let sub = b58_encode(id);
    let mut d = factory_tag_vec();
    d.push(SEP);
    append_bytes(&mut d, engine);
    d.push(SEP);
    append_bytes(&mut d, &sub);
    proof {
        assert(d@ =~= denom_of(engine@, id@));
        let i: int = 7;
        let j: int = 8 + engine@.len() as int;
        lemma_denom_of_structure(engine@, id@);
        assert(d@.subrange(0, i) =~= factory_tag());
        assert(d@.subrange(i + 1, j) =~= engine@);
        assert(structure_ok(d@, engine@));
        let (ci, cj) = choose|ci: int, cj: int|
            sep_positions(d@, ci, cj)
                && d@.subrange(0, ci) == factory_tag()
                && d@.subrange(ci + 1, cj) == engine@;
        lemma_sep_positions_unique(d@, i, j, ci, cj);
        assert(d@.subrange(j + 1, d@.len() as int) =~= sub@);
        assert(b58_dec(d@.subrange(j + 1, d@.len() as int)) == Some(id@));
    }
    d
}

/// Splits a claimed denomination into its three segments, requires the first
/// to be `factory` and the second to be this engine's address, and decodes
/// the third into the wrapped-asset identity it names.
pub fn parse_denom(denom: &Vec<u8>, engine: &Vec<u8>) -> (r: Result<Vec<u8>, EngineError>)
    ensures
        match r {
            Ok(id) => parse_denom_spec(denom@, engine@) == Ok::<Seq<u8>, EngineError>(id@),
            Err(e) => parse_denom_spec(denom@, engine@) == Err::<Seq<u8>, EngineError>(e),
        },
{
    let mut first: usize = 0;
    let mut second: usize = 0;
    let mut nfound: usize = 0;
    let mut k: usize = 0;
    while k < denom.len()
        invariant
            0 <= k <= denom.len(),
            nfound <= 2,
            nfound >= 1 ==> first < k && denom@[first as int] == SEP,
            nfound >= 2 ==> first < second < k && denom@[second as int] == SEP,
            forall|t: int| 0 <= t < k && t != first && t != second ==> denom@[t] != SEP,
            nfound == 0 ==> forall|t: int| 0 <= t < k ==> denom@[t] != SEP,
            nfound == 1 ==> forall|t: int| 0 <= t < k && t != first ==> denom@[t] != SEP,
        decreases denom.len() - k,
    {
        if denom[k] == SEP {
            if nfound == 0 {
                first = k;
                nfound = 1;
            } else if nfound == 1 {
                second = k;
                nfound = 2;
            } else {
                // a third separator: no pair of positions can be the only two
                proof {
                    assert forall|i: int, j: int| !sep_positions(denom@, i, j) by {
                        if sep_positions(denom@, i, j) {
                            assert(first as int == i || first as int == j);
                            assert(second as int == i || second as int == j);
                            assert(k as int == i || k as int == j);
                        }
                    }
                    assert(!structure_ok(denom@, engine@));
                }
                return Err(EngineError::NotFactoryToken);
            }
        }
        k = k + 1;
    }
    if nfound != 2 {
        proof {
            assert forall|i: int, j: int| !sep_positions(denom@, i, j) by {
                if sep_positions(denom@, i, j) {
                    assert(denom@[i] == SEP);
                    assert(denom@[j] == SEP);
                }
            }
            assert(!structure_ok(denom@, engine@));
        }
        return Err(EngineError::NotFactoryToken);
    }
    proof {
        assert(sep_positions(denom@, first as int, second as int));
    }
    let tag = factory_tag_vec();
    let seg0 = sub_bytes(denom, 0, first);
    let seg1 = sub_bytes(denom, first + 1, second);
    if !bytes_eq(&seg0, &tag) || !bytes_eq(&seg1, engine) {
        proof {
            assert forall|i: int, j: int|
                !(sep_positions(denom@, i, j)
                    && denom@.subrange(0, i) == factory_tag()
                    && denom@.subrange(i + 1, j) == engine@) by {
                if sep_positions(denom@, i, j) {
                    lemma_sep_positions_unique(denom@, first as int, second as int, i, j);
                }
            }
            assert(!structure_ok(denom@, engine@));
        }
        return Err(EngineError::NotFactoryToken);
    }
    proof {
        assert(structure_ok(denom@, engine@));
    }
    let seg2 = sub_bytes(denom, second + 1, denom.len());
    let dec = b58_decode(&seg2);
    proof {
        let (ci, cj) = choose|ci: int, cj: int|
            sep_positions(denom@, ci, cj)
                && denom@.subrange(0, ci) == factory_tag()
                && denom@.subrange(ci + 1, cj) == engine@;
        lemma_sep_positions_unique(denom@, first as int, second as int, ci, cj);
    }
    match dec {
        Some(id) => Ok(id),
        None => Err(EngineError::DecodeFailure),
    }
}

} // verus!
