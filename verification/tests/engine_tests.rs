use token_translator::cmd::Command;
use token_translator::engine::{
    COMPLETE_TRANSFER_REPLY_ID, Engine, ExecuteMsg, InstantiateMsg, PendingTransfer, ReplyData,
    ReplyOutcome,
};
use token_translator::error::EngineError;
use token_translator::funds::Coin;

fn bv(s: &str) -> Vec<u8> {
    s.as_bytes().to_vec()
}

fn new_engine() -> Engine {
    Engine::new(InstantiateMsg {
        token_bridge_contract: bv("sei1tokenbridge"),
        wormhole_contract: bv("sei1wormhole"),
    })
}

fn payload_for(recipient: &[u8]) -> Vec<u8> {
    let b64 = cosmwasm_std::Binary::from(recipient).to_base64();
    format!("{{\"basic_recipient\":{{\"recipient\":\"{}\"}}}}", b64).into_bytes()
}

fn denom_for(engine_addr: &str, id: &[u8]) -> Vec<u8> {
    let mut d = bv("factory/");
    d.extend_from_slice(engine_addr.as_bytes());
    d.push(b'/');
    d.extend_from_slice(bs58::encode(id).into_string().as_bytes());
    d
}

fn completion(contract: &[u8], amount: u128) -> ReplyOutcome {
    ReplyOutcome {
        success: true,
        data: ReplyData::Completion { contract: Some(contract.to_vec()), amount },
    }
}

#[test]
fn first_inbound_transfer_creates_denom_and_delivers() {
    let engine_addr = bv("sei1engine");
    let mut e = new_engine();
    let w = bv("sei1wrappedtoken");
    let recipient = bv("sei1recipient");
    let vaa = vec![1u8, 2, 3, 4];

    // Submit: the transfer-info query succeeded, so the finalize sub-call
    // is issued and the pending slot is written.
    let pending = PendingTransfer {
        recipient: engine_addr.clone(),
        amount: 1000,
        payload: payload_for(&recipient),
    };
    let cmds = e
        .complete_transfer_and_convert(&vaa, &bv("sei1relayer"), Some(pending))
        .unwrap();
    assert_eq!(
        cmds,
        vec![Command::SubmitCompleteTransfer {
            bridge: bv("sei1tokenbridge"),
            vaa: vaa.clone(),
            relayer: bv("sei1relayer"),
        }]
    );

    // Resume: first-ever transfer for this identity.
    let cmds = e
        .reply(&engine_addr, COMPLETE_TRANSFER_REPLY_ID, &completion(&w, 1000))
        .unwrap();
    let subdenom = bs58::encode(&w).into_string().into_bytes();
    let denom = denom_for("sei1engine", &w);
    assert_eq!(
        cmds,
        vec![
            Command::CreateDenom { subdenom },
            Command::Mint { denom: denom.clone(), amount: 1000 },
            Command::Send { recipient, denom: denom.clone(), amount: 1000 },
        ]
    );
    assert_eq!(e.registry.lookup(&w), Some(denom));
}

#[test]
fn second_inbound_transfer_reuses_denom() {
    let engine_addr = bv("sei1engine");
    let mut e = new_engine();
    let w = bv("sei1wrappedtoken");
    let recipient = bv("sei1recipient");
    let vaa = vec![1u8, 2, 3, 4];

    let make_pending = || PendingTransfer {
        recipient: engine_addr.clone(),
        amount: 0,
        payload: payload_for(&recipient),
    };
    e.complete_transfer_and_convert(&vaa, &bv("sei1relayer"), Some(make_pending())).unwrap();
    e.reply(&engine_addr, COMPLETE_TRANSFER_REPLY_ID, &completion(&w, 1000)).unwrap();

    e.complete_transfer_and_convert(&vaa, &bv("sei1relayer"), Some(make_pending())).unwrap();
    let cmds = e
        .reply(&engine_addr, COMPLETE_TRANSFER_REPLY_ID, &completion(&w, 500))
        .unwrap();
    let denom = denom_for("sei1engine", &w);
    assert_eq!(
        cmds,
        vec![
            Command::Mint { denom: denom.clone(), amount: 500 },
            Command::Send { recipient, denom, amount: 500 },
        ]
    );
}

#[test]
fn outbound_convert_and_transfer() {
    let engine_addr = bv("sei1engine");
    let mut e = new_engine();
    let w = bv("sei1wrappedtoken");
    let recipient = bv("sei1recipient");

    // Bind W by completing one inbound transfer first.
    let pending = PendingTransfer {
        recipient: engine_addr.clone(),
        amount: 0,
        payload: payload_for(&recipient),
    };
    e.complete_transfer_and_convert(&vec![9u8], &bv("sei1relayer"), Some(pending)).unwrap();
    e.reply(&engine_addr, COMPLETE_TRANSFER_REPLY_ID, &completion(&w, 1000)).unwrap();

    let denom = denom_for("sei1engine", &w);
    let funds = vec![Coin { denom: denom.clone(), amount: 200 }];
    let r_bytes = vec![7u8; 32];
    let cmds = e
        .convert_and_transfer(&engine_addr, &funds, 5, &r_bytes, 0)
        .unwrap();
    assert_eq!(
        cmds,
        vec![
            Command::Burn { denom: denom.clone(), amount: 200 },
            Command::IncreaseAllowance {
                token: w.clone(),
                spender: bv("sei1tokenbridge"),
                amount: 200,
            },
            Command::InitiateTransfer {
                token: w,
                amount: 200,
                recipient_chain: 5,
                recipient: r_bytes,
                fee: 0,
                fee_coin: None,
            },
        ]
    );
}

#[test]
fn outbound_with_fee_coin_forwards_fee() {
    let engine_addr = bv("sei1engine");
    let mut e = new_engine();
    let w = bv("sei1wrappedtoken");
    let pending = PendingTransfer {
        recipient: engine_addr.clone(),
        amount: 0,
        payload: payload_for(&bv("sei1recipient")),
    };
    e.complete_transfer_and_convert(&vec![9u8], &bv("sei1relayer"), Some(pending)).unwrap();
    e.reply(&engine_addr, COMPLETE_TRANSFER_REPLY_ID, &completion(&w, 1000)).unwrap();

    let denom = denom_for("sei1engine", &w);
    let fee_denom = bv("usei");
    let funds = vec![
        Coin { denom: fee_denom.clone(), amount: 3 },
        Coin { denom: denom.clone(), amount: 200 },
    ];
    let r_bytes = vec![7u8; 32];
    let cmds = e
        .convert_and_transfer_with_fee(&engine_addr, &funds, &fee_denom, 5, &r_bytes, 1)
        .unwrap();
    assert_eq!(
        cmds,
        vec![
            Command::Burn { denom, amount: 200 },
            Command::IncreaseAllowance {
                token: w.clone(),
                spender: bv("sei1tokenbridge"),
                amount: 200,
            },
            Command::InitiateTransfer {
                token: w,
                amount: 200,
                recipient_chain: 5,
                recipient: r_bytes,
                fee: 1,
                fee_coin: Some(Coin { denom: bv("usei"), amount: 3 }),
            },
        ]
    );
}

#[test]
fn convert_bank_to_cw20_returns_wrapped_tokens() {
    let engine_addr = bv("sei1engine");
    let mut e = new_engine();
    let w = bv("sei1wrappedtoken");
    let pending = PendingTransfer {
        recipient: engine_addr.clone(),
        amount: 0,
        payload: payload_for(&bv("sei1recipient")),
    };
    e.complete_transfer_and_convert(&vec![9u8], &bv("sei1relayer"), Some(pending)).unwrap();
    e.reply(&engine_addr, COMPLETE_TRANSFER_REPLY_ID, &completion(&w, 1000)).unwrap();

    let denom = denom_for("sei1engine", &w);
    let funds = vec![Coin { denom: denom.clone(), amount: 40 }];
    let sender = bv("sei1caller");
    let cmds = e.convert_bank_to_cw20(&engine_addr, &funds, &sender).unwrap();
    assert_eq!(
        cmds,
        vec![
            Command::Burn { denom, amount: 40 },
            Command::Cw20Transfer { token: w, recipient: sender, amount: 40 },
        ]
    );
}

#[test]
fn receiver_hook_converts_for_sender() {
    let engine_addr = bv("sei1engine");
    let mut e = new_engine();
    let token_contract = bv("sei1wrappedtoken");
    let hook_sender = bv("sei1originalsender");
    let cmds = e
        .handle_receiver_msg(
            &engine_addr,
            &hook_sender,
            77,
            &bv("\"convert_to_bank\""),
            &token_contract,
        )
        .unwrap();
    let subdenom = bs58::encode(&token_contract).into_string().into_bytes();
    let denom = denom_for("sei1engine", &token_contract);
    assert_eq!(
        cmds,
        vec![
            Command::CreateDenom { subdenom },
            Command::Mint { denom: denom.clone(), amount: 77 },
            Command::Send { recipient: hook_sender, denom, amount: 77 },
        ]
    );
}

#[test]
fn receiver_hook_rejects_unknown_action() {
    let engine_addr = bv("sei1engine");
    let mut e = new_engine();
    let r = e.handle_receiver_msg(
        &engine_addr,
        &bv("sei1sender"),
        77,
        &bv("\"burn_everything\""),
        &bv("sei1wrappedtoken"),
    );
    assert_eq!(r, Err(EngineError::PayloadDecodeFailure));
}

#[test]
fn failed_bridge_query_aborts_submit() {
    let mut e = new_engine();
    let r = e.complete_transfer_and_convert(&vec![1u8], &bv("sei1relayer"), None);
    assert_eq!(r, Err(EngineError::BridgeQueryFailed));
}

#[test]
fn reply_with_failure_result_is_a_fault() {
    let engine_addr = bv("sei1engine");
    let mut e = new_engine();
    let outcome = ReplyOutcome { success: false, data: ReplyData::NoData };
    let r = e.reply(&engine_addr, COMPLETE_TRANSFER_REPLY_ID, &outcome);
    assert_eq!(r, Err(EngineError::ReplyFailed));
}

#[test]
fn reply_data_faults_are_distinguished() {
    let engine_addr = bv("sei1engine");
    let mut e = new_engine();
    let r = e.reply(
        &engine_addr,
        COMPLETE_TRANSFER_REPLY_ID,
        &ReplyOutcome { success: true, data: ReplyData::Unparseable },
    );
    assert_eq!(r, Err(EngineError::InvalidReplyData));
    let r = e.reply(
        &engine_addr,
        COMPLETE_TRANSFER_REPLY_ID,
        &ReplyOutcome { success: true, data: ReplyData::NoData },
    );
    assert_eq!(r, Err(EngineError::MissingReplyData));
    let r = e.reply(
        &engine_addr,
        COMPLETE_TRANSFER_REPLY_ID,
        &ReplyOutcome {
            success: true,
            data: ReplyData::Completion { contract: None, amount: 5 },
        },
    );
    assert_eq!(r, Err(EngineError::MissingContract));
}

#[test]
fn reply_without_pending_transfer_is_a_fault() {
    let engine_addr = bv("sei1engine");
    let mut e = new_engine();
    let r = e.reply(
        &engine_addr,
        COMPLETE_TRANSFER_REPLY_ID,
        &completion(&bv("sei1wrappedtoken"), 5),
    );
    assert_eq!(r, Err(EngineError::NoPendingTransfer));
}

#[test]
fn reply_with_other_tag_is_ignored() {
    let engine_addr = bv("sei1engine");
    let mut e = new_engine();
    let outcome = ReplyOutcome { success: false, data: ReplyData::Unparseable };
    let cmds = e.reply(&engine_addr, 42, &outcome).unwrap();
    assert_eq!(cmds, Vec::<Command>::new());
}

#[test]
fn forged_denomination_without_binding_is_rejected() {
    let engine_addr = bv("sei1engine");
    let e = new_engine();
    // A structurally valid denomination whose identity was never bound.
    let denom = denom_for("sei1engine", &bv("sei1neverbound"));
    let funds = vec![Coin { denom, amount: 10 }];
    let r = e.convert_and_transfer(&engine_addr, &funds, 5, &vec![7u8; 32], 0);
    assert_eq!(r, Err(EngineError::BindingMissing));
}

#[test]
fn foreign_factory_denomination_is_rejected() {
    let engine_addr = bv("sei1engine");
    let e = new_engine();
    let denom = denom_for("sei1otherengine", &bv("sei1wrappedtoken"));
    let funds = vec![Coin { denom, amount: 10 }];
    let r = e.convert_and_transfer(&engine_addr, &funds, 5, &vec![7u8; 32], 0);
    assert_eq!(r, Err(EngineError::NotFactoryToken));
}

#[test]
fn mismatched_binding_is_rejected() {
    let engine_addr = bv("sei1engine");
    let mut e = new_engine();
    let w = bv("sei1wrappedtoken");
    // A registry record that differs from the denomination this engine
    // would build: the claimed denomination must then be rejected even
    // though it parses to the bound identity.
    e.registry.bind_if_absent(&w, &bv("factory/sei1engine/stale"));
    let claimed = denom_for("sei1engine", &w);
    let coin = Coin { denom: claimed, amount: 10 };
    let r = e.parse_bank_token_factory_contract(&engine_addr, &coin);
    assert_eq!(r, Err(EngineError::BindingMismatch));
}

#[test]
fn execute_dispatches_all_commands() {
    let engine_addr = bv("sei1engine");
    let mut e = new_engine();
    let w = bv("sei1wrappedtoken");
    let no_funds: Vec<Coin> = Vec::new();

    // Receive through the dispatcher.
    let cmds = e
        .execute(
            &engine_addr,
            &w,
            &no_funds,
            ExecuteMsg::Receive {
                sender: bv("sei1originalsender"),
                amount: 9,
                msg: bv("\"convert_to_bank\""),
            },
            None,
        )
        .unwrap();
    assert_eq!(cmds.len(), 3);

    // Outbound through the dispatcher.
    let denom = denom_for("sei1engine", &w);
    let funds = vec![Coin { denom: denom.clone(), amount: 9 }];
    let cmds = e
        .execute(
            &engine_addr,
            &bv("sei1caller"),
            &funds,
            ExecuteMsg::ConvertAndTransfer {
                recipient_chain: 5,
                recipient: vec![7u8; 32],
                fee: 0,
            },
            None,
        )
        .unwrap();
    assert_eq!(cmds.len(), 3);
    assert!(matches!(cmds[0], Command::Burn { .. }));

    // Passthrough through the dispatcher.
    let cmds = e
        .execute(
            &engine_addr,
            &bv("sei1caller"),
            &funds,
            ExecuteMsg::ConvertBankToCw20,
            None,
        )
        .unwrap();
    assert_eq!(cmds.len(), 2);

    // Submission through the dispatcher.
    let pending = PendingTransfer {
        recipient: engine_addr.clone(),
        amount: 0,
        payload: payload_for(&bv("sei1recipient")),
    };
    let cmds = e
        .execute(
            &engine_addr,
            &bv("sei1relayer"),
            &no_funds,
            ExecuteMsg::CompleteTransferAndConvert { vaa: vec![1u8] },
            Some(pending),
        )
        .unwrap();
    assert!(matches!(cmds[0], Command::SubmitCompleteTransfer { .. }));
}

#[test]
fn outbound_with_zero_or_two_assets_fails() {
    let engine_addr = bv("sei1engine");
    let e = new_engine();
    let none: Vec<Coin> = Vec::new();
    assert_eq!(
        e.convert_and_transfer(&engine_addr, &none, 5, &vec![7u8; 32], 0),
        Err(EngineError::WrongFundCount)
    );
    let two = vec![
        Coin { denom: bv("a"), amount: 1 },
        Coin { denom: bv("b"), amount: 2 },
    ];
    assert_eq!(
        e.convert_and_transfer(&engine_addr, &two, 5, &vec![7u8; 32], 0),
        Err(EngineError::WrongFundCount)
    );
}
