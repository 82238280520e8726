use token_translator::error::EngineError;
use token_translator::payload::{
    BridgingPayload, ReceiveAction, decode_bridging_payload, decode_receive_action,
};

fn bv(s: &str) -> Vec<u8> {
    s.as_bytes().to_vec()
}

fn payload_for(recipient: &[u8]) -> Vec<u8> {
    let b64 = cosmwasm_std::Binary::from(recipient).to_base64();
    format!("{{\"basic_recipient\":{{\"recipient\":\"{}\"}}}}", b64).into_bytes()
}

#[test]
fn receive_action_canonical() {
    assert_eq!(
        decode_receive_action(&bv("\"convert_to_bank\"")),
        Ok(ReceiveAction::ConvertToBank)
    );
}

#[test]
fn receive_action_surrounding_whitespace() {
    assert_eq!(
        decode_receive_action(&bv("  \n\t\"convert_to_bank\" \r\n")),
        Ok(ReceiveAction::ConvertToBank)
    );
}

#[test]
fn receive_action_rejects_other_text() {
    assert_eq!(
        decode_receive_action(&bv("\"convert_to_gold\"")),
        Err(EngineError::PayloadDecodeFailure)
    );
    assert_eq!(
        decode_receive_action(&bv("convert_to_bank")),
        Err(EngineError::PayloadDecodeFailure)
    );
    assert_eq!(
        decode_receive_action(&bv("\"convert_to_bank\" trailing")),
        Err(EngineError::PayloadDecodeFailure)
    );
    assert_eq!(decode_receive_action(&bv("")), Err(EngineError::PayloadDecodeFailure));
}

#[test]
fn bridging_payload_canonical() {
    let recipient = bv("sei1recipientaddress");
    let payload = payload_for(&recipient);
    assert_eq!(
        decode_bridging_payload(&payload),
        Ok(BridgingPayload::BasicRecipient { recipient })
    );
}

#[test]
fn bridging_payload_with_whitespace() {
    let recipient = bv("sei1recipientaddress");
    let b64 = cosmwasm_std::Binary::from(recipient.as_slice()).to_base64();
    let text = format!(
        " {{ \"basic_recipient\" : {{ \"recipient\" : \"{}\" }} }} ",
        b64
    );
    assert_eq!(
        decode_bridging_payload(&text.into_bytes()),
        Ok(BridgingPayload::BasicRecipient { recipient })
    );
}

#[test]
fn bridging_payload_decodes_real_base64() {
    // Arbitrary bytes, not ASCII: the decoded recipient must be the exact
    // preimage of the embedded base64 text.
    let recipient = vec![0u8, 5, 250, 128, 77];
    let payload = payload_for(&recipient);
    assert_eq!(
        decode_bridging_payload(&payload),
        Ok(BridgingPayload::BasicRecipient { recipient })
    );
}

#[test]
fn bridging_payload_rejects_wrong_tag() {
    let recipient = bv("sei1recipientaddress");
    let b64 = cosmwasm_std::Binary::from(recipient.as_slice()).to_base64();
    let text = format!("{{\"fancy_recipient\":{{\"recipient\":\"{}\"}}}}", b64);
    assert_eq!(
        decode_bridging_payload(&text.into_bytes()),
        Err(EngineError::PayloadDecodeFailure)
    );
}

#[test]
fn bridging_payload_rejects_bad_base64() {
    let text = "{\"basic_recipient\":{\"recipient\":\"!!notbase64!!\"}}";
    assert_eq!(
        decode_bridging_payload(&bv(text)),
        Err(EngineError::PayloadDecodeFailure)
    );
}

#[test]
fn bridging_payload_rejects_truncated_text() {
    let recipient = bv("sei1recipientaddress");
    let mut payload = payload_for(&recipient);
    payload.pop();
    assert_eq!(
        decode_bridging_payload(&payload),
        Err(EngineError::PayloadDecodeFailure)
    );
    assert_eq!(decode_bridging_payload(&bv("")), Err(EngineError::PayloadDecodeFailure));
    assert_eq!(decode_bridging_payload(&bv("{}")), Err(EngineError::PayloadDecodeFailure));
}
