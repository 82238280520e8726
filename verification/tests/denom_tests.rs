use token_translator::denom::{native_denom_for, parse_denom};
use token_translator::error::EngineError;

fn bv(s: &str) -> Vec<u8> {
    s.as_bytes().to_vec()
}

#[test]
fn round_trip_identity() {
    let engine = bv("sei1engineaddress");
    let id = bv("sei1wrappedtokencontract");
    let denom = native_denom_for(&engine, &id);
    assert_eq!(parse_denom(&denom, &engine), Ok(id));
}

#[test]
fn denom_text_matches_reference_encoder() {
    // The built denomination must embed the real base-58 text of the
    // identity bytes, not some private stand-in.
    let engine = bv("sei1engineaddress");
    let id = vec![0u8, 1, 2, 253, 254, 255];
    let denom = native_denom_for(&engine, &id);
    let mut expected = bv("factory/sei1engineaddress/");
    expected.extend_from_slice(bs58::encode(&id).into_string().as_bytes());
    assert_eq!(denom, expected);
}

#[test]
fn round_trip_empty_identity() {
    let engine = bv("e");
    let id: Vec<u8> = Vec::new();
    let denom = native_denom_for(&engine, &id);
    assert_eq!(denom, bv("factory/e/"));
    assert_eq!(parse_denom(&denom, &engine), Ok(id));
}

#[test]
fn parse_rejects_foreign_engine() {
    let engine = bv("sei1engineaddress");
    let other = bv("sei1otherengine");
    let id = bv("sei1wrappedtokencontract");
    let denom = native_denom_for(&other, &id);
    assert_eq!(parse_denom(&denom, &engine), Err(EngineError::NotFactoryToken));
}

#[test]
fn parse_rejects_wrong_namespace() {
    let engine = bv("sei1engineaddress");
    assert_eq!(
        parse_denom(&bv("ibc/sei1engineaddress/abc"), &engine),
        Err(EngineError::NotFactoryToken)
    );
}

#[test]
fn parse_rejects_wrong_segment_count() {
    let engine = bv("sei1engineaddress");
    assert_eq!(parse_denom(&bv("factory"), &engine), Err(EngineError::NotFactoryToken));
    assert_eq!(
        parse_denom(&bv("factory/sei1engineaddress"), &engine),
        Err(EngineError::NotFactoryToken)
    );
    assert_eq!(
        parse_denom(&bv("factory/sei1engineaddress/a/b"), &engine),
        Err(EngineError::NotFactoryToken)
    );
    assert_eq!(parse_denom(&bv(""), &engine), Err(EngineError::NotFactoryToken));
}

#[test]
fn parse_rejects_invalid_base58() {
    let engine = bv("sei1engineaddress");
    // '0', 'O', 'I' and 'l' are not in the base-58 alphabet.
    assert_eq!(
        parse_denom(&bv("factory/sei1engineaddress/0OIl"), &engine),
        Err(EngineError::DecodeFailure)
    );
}

#[test]
fn parse_accepts_any_valid_base58_segment() {
    let engine = bv("sei1engineaddress");
    // "he11owor1d" is the base-58 text of these bytes.
    let expected = vec![0x04u8, 0x30, 0x5e, 0x2b, 0x24, 0x73, 0xf0, 0x58];
    assert_eq!(
        parse_denom(&bv("factory/sei1engineaddress/he11owor1d"), &engine),
        Ok(expected)
    );
}
