//! The conversion and transfer-completion engine.
//!
//! The engine owns the conversion registry and the single pending-transfer
//! slot. Every operation is a function from the engine's state and the
//! call's plain inputs to a new state and an ordered command list; a failed
//! operation returns its error and leaves the state unchanged, mirroring
//! the host's all-or-nothing transaction semantics. Each operation's
//! contract ties the executable code to a specification-level transition
//! function of the same name.

use vstd::prelude::*;
use crate::bytes::copy_bytes;
use crate::cmd::{Cmd, Command, cmds_view};
use crate::codec::{b58_enc, b58_encode};
use crate::denom::{addr_wf, denom_of, parse_denom, parse_denom_spec, native_denom_for};
use crate::error::EngineError;
use crate::funds::{Coin, CoinV, coins_view, require_single_fund, single_fund_spec,
    select_bridging_and_fee, select_bridging_and_fee_spec};
use crate::payload::{BridgingPayload, ReceiveAction, bridging_payload_dec,
    decode_bridging_payload, decode_receive_action, receive_action_ok};
use crate::registry::{Registry, validate_binding_spec};

verus! {

/// The reply tag under which the bridge's finalize sub-call resumes this
/// engine.
pub const COMPLETE_TRANSFER_REPLY_ID: u64 = 1;

/// The addresses the engine is instantiated with.
pub struct InstantiateMsg {
    /// The interchain token bridge contract.
    pub token_bridge_contract: Vec<u8>,
    /// The core interchain messaging contract.
    pub wormhole_contract: Vec<u8>,
}

/// One inbound command to the engine.
pub enum ExecuteMsg {
    /// Submit an interchain envelope to complete an inbound transfer and
    /// convert the result into native tokens for the payload's recipient.
    CompleteTransferAndConvert { vaa: Vec<u8> },
    /// Burn attached native tokens and start an outbound bridge transfer
    /// of the wrapped equivalent.
    ConvertAndTransfer { recipient_chain: u16, recipient: Vec<u8>, fee: u128 },
    /// Burn attached native tokens and hand the wrapped equivalent back to
    /// the caller.
    ConvertBankToCw20,
    /// The wrapped-asset receiver hook: tokens were already transferred to
    /// the engine; the opaque message names the action to take.
    Receive { sender: Vec<u8>, amount: u128, msg: Vec<u8> },
}

/// The bridge's description of an in-flight inbound transfer, saved before
/// the finalize sub-call and cleared on resumption.
pub struct PendingTransfer {
    /// The transfer's destination identity on this chain.
    pub recipient: Vec<u8>,
    /// The transferred amount.
    pub amount: u128,
    /// The opaque bridging payload carried with the transfer.
    pub payload: Vec<u8>,
}

/// The mathematical value of a pending transfer.
pub struct PendingV {
    pub recipient: Seq<u8>,
    pub amount: u128,
    pub payload: Seq<u8>,
}

impl View for PendingTransfer {
    type V = PendingV;

    open spec fn view(&self) -> PendingV {
        PendingV { recipient: self.recipient@, amount: self.amount, payload: self.payload@ }
    }
}

/// The data the finalize sub-call's reply carried, after the host decoded
/// the raw return bytes.
pub enum ReplyData {
    /// The return data could not be decoded.
    Unparseable,
    /// The reply carried no return data.
    NoData,
    /// The decoded completion record: the wrapped-asset contract the bridge
    /// released tokens to (absent for a plainly native transfer) and the
    /// transferred amount.
    Completion { contract: Option<Vec<u8>>, amount: u128 },
}

/// The outcome of the finalize sub-call, as handed back by the host.
pub struct ReplyOutcome {
    /// Whether the sub-call succeeded; the engine is only resumed on
    /// success, so a failure here is an integration defect.
    pub success: bool,
    pub data: ReplyData,
}

/// The mathematical value of the decoded reply data.
pub enum ReplyDataV {
    Unparseable,
    NoData,
    Completion { contract: Option<Seq<u8>>, amount: u128 },
}

/// The mathematical value of a reply outcome.
pub struct ReplyOutcomeV {
    pub success: bool,
    pub data: ReplyDataV,
}

impl View for ReplyData {
    type V = ReplyDataV;

    open spec fn view(&self) -> ReplyDataV {
        match self {
            ReplyData::Unparseable => ReplyDataV::Unparseable,
            ReplyData::NoData => ReplyDataV::NoData,
            ReplyData::Completion { contract, amount } => ReplyDataV::Completion {
                contract: match contract {
                    Some(c) => Some(c@),
                    None => None,
                },
                amount: *amount,
            },
        }
    }
}

impl View for ReplyOutcome {
    type V = ReplyOutcomeV;

    open spec fn view(&self) -> ReplyOutcomeV {
        ReplyOutcomeV { success: self.success, data: self.data@ }
    }
}

/// The engine's state.
pub struct Engine {
    /// The interchain token bridge contract's address.
    pub token_bridge: Vec<u8>,
    /// The core interchain messaging contract's address.
    pub wormhole: Vec<u8>,
    /// The conversion registry.
    pub registry: Registry,
    /// The single pending-transfer slot.
    pub pending: Option<PendingTransfer>,
}

/// The mathematical value of the engine's state.
pub struct EngineV {
    pub token_bridge: Seq<u8>,
    pub wormhole: Seq<u8>,
    pub registry: Map<Seq<u8>, Seq<u8>>,
    pub pending: Option<PendingV>,
}

impl View for Engine {
    type V = EngineV;

    open spec fn view(&self) -> EngineV {
        EngineV {
            token_bridge: self.token_bridge@,
            wormhole: self.wormhole@,
            registry: self.registry@,
            pending: match self.pending {
                Some(p) => Some(p@),
                None => None,
            },
        }
    }
}

/// The value of an optional pending transfer.
pub open spec fn opt_pending_view(o: Option<PendingTransfer>) -> Option<PendingV> {
    match o {
        Some(p) => Some(p@),
        None => None,
    }
}

// ---------------------------------------------------------------------
// Specification-level transitions
// ---------------------------------------------------------------------

/// Parsing a claimed native denomination and re-validating it against the
/// registry: the recovered identity is only accepted when the registry
/// binds it to exactly this denomination.
pub open spec fn parse_and_check_spec(
    reg: Map<Seq<u8>, Seq<u8>>,
    self_addr: Seq<u8>,
    d: Seq<u8>,
) -> Result<Seq<u8>, EngineError> {
    match parse_denom_spec(d, self_addr) {
        Err(e) => Err(e),
        Ok(id) => match validate_binding_spec(reg, id, d) {
            Err(e) => Err(e),
            Ok(_) => Ok(id),
        },
    }
}

/// Converting wrapped tokens into native tokens: bind the denomination on
/// first use (creating it exactly once), then mint the full amount and send
/// it to the recipient.
pub open spec fn wrapped_to_native_spec(
    reg: Map<Seq<u8>, Seq<u8>>,
    self_addr: Seq<u8>,
    id: Seq<u8>,
    amount: u128,
    recipient: Seq<u8>,
) -> (Map<Seq<u8>, Seq<u8>>, Seq<Cmd>) {
    let denom = denom_of(self_addr, id);
    if reg.dom().contains(id) {
        (reg, seq![
            Cmd::Mint { denom, amount },
            Cmd::Send { recipient, denom, amount },
        ])
    } else {
        (reg.insert(id, denom), seq![
            Cmd::CreateDenom { subdenom: b58_enc(id) },
            Cmd::Mint { denom, amount },
            Cmd::Send { recipient, denom, amount },
        ])
    }
}

/// Submitting an inbound transfer for completion: the bridge's
/// transfer-info answer is recorded in the pending slot and the finalize
/// sub-call is issued; a failed query aborts before any command.
pub open spec fn complete_transfer_spec(
    st: EngineV,
    vaa: Seq<u8>,
    relayer: Seq<u8>,
    query: Option<PendingV>,
) -> Result<(EngineV, Seq<Cmd>), EngineError> {
    match query {
        None => Err(EngineError::BridgeQueryFailed),
        Some(ti) => Ok((
            EngineV { pending: Some(ti), ..st },
            seq![Cmd::SubmitCompleteTransfer { bridge: st.token_bridge, vaa, relayer }],
        )),
    }
}

/// Resuming after the finalize sub-call: every datum observed after the
/// continuation is re-validated; the pending slot is cleared and the
/// completed amount is converted for the payload's recipient.
pub open spec fn resume_transfer_spec(
    st: EngineV,
    self_addr: Seq<u8>,
    outcome: ReplyOutcomeV,
) -> Result<(EngineV, Seq<Cmd>), EngineError> {
    if !outcome.success {
        Err(EngineError::ReplyFailed)
    } else {
        match outcome.data {
            ReplyDataV::Unparseable => Err(EngineError::InvalidReplyData),
            ReplyDataV::NoData => Err(EngineError::MissingReplyData),
            ReplyDataV::Completion { contract: None, .. } => Err(EngineError::MissingContract),
            ReplyDataV::Completion { contract: Some(c), amount } => match st.pending {
                None => Err(EngineError::NoPendingTransfer),
                Some(pt) => match bridging_payload_dec(pt.payload) {
                    None => Err(EngineError::PayloadDecodeFailure),
                    Some(recipient) => {
                        let (reg, cmds) = wrapped_to_native_spec(
                            st.registry,
                            self_addr,
                            c,
                            amount,
                            recipient,
                        );
                        Ok((EngineV { registry: reg, pending: None, ..st }, cmds))
                    },
                },
            },
        }
    }
}

/// The reply dispatcher: only the completion tag resumes the engine; any
/// other reply is ignored.
pub open spec fn reply_spec(
    st: EngineV,
    self_addr: Seq<u8>,
    id: u64,
    outcome: ReplyOutcomeV,
) -> Result<(EngineV, Seq<Cmd>), EngineError> {
    if id == COMPLETE_TRANSFER_REPLY_ID {
        resume_transfer_spec(st, self_addr, outcome)
    } else {
        Ok((st, Seq::empty()))
    }
}

/// Converting native tokens back and bridging them out: burn the attached
/// coin, allow the bridge to spend the wrapped equivalent, and start the
/// outbound transfer, all over the exact attached amount.
pub open spec fn convert_and_transfer_spec(
    st: EngineV,
    self_addr: Seq<u8>,
    funds: Seq<CoinV>,
    recipient_chain: u16,
    recipient: Seq<u8>,
    fee: u128,
) -> Result<Seq<Cmd>, EngineError> {
    match single_fund_spec(funds) {
        Err(e) => Err(e),
        Ok(coin) => match parse_and_check_spec(st.registry, self_addr, coin.denom) {
            Err(e) => Err(e),
            Ok(id) => Ok(seq![
                Cmd::Burn { denom: coin.denom, amount: coin.amount },
                Cmd::IncreaseAllowance {
                    token: id,
                    spender: st.token_bridge,
                    amount: coin.amount,
                },
                Cmd::InitiateTransfer {
                    token: id,
                    amount: coin.amount,
                    recipient_chain,
                    recipient,
                    fee,
                    fee_coin: None,
                },
            ]),
        },
    }
}

/// The dual-asset variant: of exactly two attached coins, the one carrying
/// the bridge-fee denomination is forwarded with the initiate-transfer
/// command and the other is converted and bridged.
pub open spec fn convert_and_transfer_with_fee_spec(
    st: EngineV,
    self_addr: Seq<u8>,
    funds: Seq<CoinV>,
    fee_denom: Seq<u8>,
    recipient_chain: u16,
    recipient: Seq<u8>,
    fee: u128,
) -> Result<Seq<Cmd>, EngineError> {
    match select_bridging_and_fee_spec(funds, fee_denom) {
        Err(e) => Err(e),
        Ok((coin, fee_coin)) => match parse_and_check_spec(st.registry, self_addr, coin.denom) {
            Err(e) => Err(e),
            Ok(id) => Ok(seq![
                Cmd::Burn { denom: coin.denom, amount: coin.amount },
                Cmd::IncreaseAllowance {
                    token: id,
                    spender: st.token_bridge,
                    amount: coin.amount,
                },
                Cmd::InitiateTransfer {
                    token: id,
                    amount: coin.amount,
                    recipient_chain,
                    recipient,
                    fee,
                    fee_coin: Some(fee_coin),
                },
            ]),
        },
    }
}

/// Converting native tokens back into wrapped tokens for the caller: burn
/// the attached coin and transfer the wrapped equivalent, without crossing
/// chains.
pub open spec fn convert_bank_to_cw20_spec(
    st: EngineV,
    self_addr: Seq<u8>,
    funds: Seq<CoinV>,
    sender: Seq<u8>,
) -> Result<Seq<Cmd>, EngineError> {
    match single_fund_spec(funds) {
        Err(e) => Err(e),
        Ok(coin) => match parse_and_check_spec(st.registry, self_addr, coin.denom) {
            Err(e) => Err(e),
            Ok(id) => Ok(seq![
                Cmd::Burn { denom: coin.denom, amount: coin.amount },
                Cmd::Cw20Transfer { token: id, recipient: sender, amount: coin.amount },
            ]),
        },
    }
}

/// The receiver hook: the wrapped tokens were already moved to the engine
/// by the calling token contract, so a well-formed action converts them
/// for the original sender; a malformed action is a plain input fault.
pub open spec fn receive_spec(
    st: EngineV,
    self_addr: Seq<u8>,
    sender: Seq<u8>,
    amount: u128,
    msg: Seq<u8>,
    token_contract: Seq<u8>,
) -> Result<(EngineV, Seq<Cmd>), EngineError> {
    if !receive_action_ok(msg) {
        Err(EngineError::PayloadDecodeFailure)
    } else {
        let (reg, cmds) = wrapped_to_native_spec(st.registry, self_addr, token_contract, amount, sender);
        Ok((EngineV { registry: reg, ..st }, cmds))
    }
}

// ---------------------------------------------------------------------
// The executable engine
// ---------------------------------------------------------------------

impl Engine {
    /// The engine's internal invariant.
    pub open spec fn wf(&self) -> bool {
        self.registry.wf()
    }

    /// A fresh engine bound to the two interchain contracts, with an empty
    /// registry and no pending transfer.
    pub fn new(msg: InstantiateMsg) -> (e: Engine)
        ensures
            e.wf(),
            e@ == (EngineV {
                token_bridge: msg.token_bridge_contract@,
                wormhole: msg.wormhole_contract@,
                registry: Map::<Seq<u8>, Seq<u8>>::empty(),
                pending: None,
            }),
    {
        Engine {
            token_bridge: msg.token_bridge_contract,
            wormhole: msg.wormhole_contract,
            registry: Registry::new(),
            pending: None,
        }
    }

    /// Recovers the wrapped-asset identity from a claimed native
    /// denomination and re-validates it against the registry, so that a
    /// forged denomination is rejected even when its text decodes.
    pub fn parse_bank_token_factory_contract(
        &self,
        self_addr: &Vec<u8>,
        coin: &Coin,
    ) -> (r: Result<Vec<u8>, EngineError>)
        requires
            self.wf(),
        ensures
            match r {
                Ok(id) => parse_and_check_spec(self@.registry, self_addr@, coin@.denom)
                    == Ok::<Seq<u8>, EngineError>(id@),
                Err(e) => parse_and_check_spec(self@.registry, self_addr@, coin@.denom)
                    == Err::<Seq<u8>, EngineError>(e),
            },
    {
        let id = match parse_denom(&coin.denom, self_addr) {
            Ok(id) => id,
            Err(e) => {
                return Err(e);
            },
        };
        match self.registry.validate_binding(&id, &coin.denom) {
            Ok(_) => Ok(id),
            Err(e) => Err(e),
        }
    }

    /// Converts `amount` wrapped tokens of `contract_addr` into native
    /// tokens for `recipient`, creating the native denomination exactly
    /// once per identity. The built denomination always parses back to the
    /// identity it was built from.
    pub fn convert_cw20_to_bank(
        &mut self,
        self_addr: &Vec<u8>,
        recipient: &Vec<u8>,
        amount: u128,
        contract_addr: &Vec<u8>,
    ) -> (cmds: Vec<Command>)
        requires
            old(self).wf(),
            addr_wf(self_addr@),
        ensures
            final(self).wf(),
            final(self)@ == (EngineV {
                registry: wrapped_to_native_spec(
                    old(self)@.registry, self_addr@, contract_addr@, amount, recipient@).0,
                ..old(self)@
            }),
            cmds_view(cmds@) == wrapped_to_native_spec(
                old(self)@.registry, self_addr@, contract_addr@, amount, recipient@).1,
            parse_denom_spec(denom_of(self_addr@, contract_addr@), self_addr@)
                == Ok::<Seq<u8>, EngineError>(contract_addr@),
    {
        let denom = native_denom_for(self_addr, contract_addr);
        let fresh = self.registry.bind_if_absent(contract_addr, &denom);
        let mut cmds: Vec<Command> = Vec::new();
        if fresh {
            let subdenom = b58_encode(contract_addr);
            cmds.push(Command::CreateDenom { subdenom });
        }
        cmds.push(Command::Mint { denom: copy_bytes(&denom), amount });
        cmds.push(Command::Send { recipient: copy_bytes(recipient), denom, amount });
        proof {
            let spec_cmds = wrapped_to_native_spec(
                old(self)@.registry, self_addr@, contract_addr@, amount, recipient@).1;
            assert(cmds_view(cmds@) =~= spec_cmds);
        }
        cmds
    }

    /// Submits the finalize sub-call for an inbound transfer, given the
    /// bridge's answer to the transfer-info query (`None` when the query
    /// failed): the transfer description is recorded in the pending slot
    /// and the tagged sub-call is issued; a failed query aborts with no
    /// command and no state change.
    pub fn complete_transfer_and_convert(
        &mut self,
        vaa: &Vec<u8>,
        relayer: &Vec<u8>,
        transfer_info: Option<PendingTransfer>,
    ) -> (r: Result<Vec<Command>, EngineError>)
        requires
            old(self).wf(),
        ensures
            final(self).wf(),
            match r {
                Ok(cmds) => complete_transfer_spec(
                    old(self)@, vaa@, relayer@, opt_pending_view(transfer_info))
                    == Ok::<(EngineV, Seq<Cmd>), EngineError>((final(self)@, cmds_view(cmds@))),
                Err(e) => complete_transfer_spec(
                    old(self)@, vaa@, relayer@, opt_pending_view(transfer_info))
                    == Err::<(EngineV, Seq<Cmd>), EngineError>(e)
                    && final(self)@ == old(self)@,
            },
    {
        let ti = match transfer_info {
            None => {
                return Err(EngineError::BridgeQueryFailed);
            },
            Some(ti) => ti,
        };
        let cmd = Command::SubmitCompleteTransfer {
            bridge: copy_bytes(&self.token_bridge),
            vaa: copy_bytes(vaa),
            relayer: copy_bytes(relayer),
        };
        self.pending = Some(ti);
        let mut cmds: Vec<Command> = Vec::new();
        cmds.push(cmd);
        proof {
            assert(cmds_view(cmds@) =~= seq![
                Cmd::SubmitCompleteTransfer {
                    bridge: old(self)@.token_bridge,
                    vaa: vaa@,
                    relayer: relayer@,
                },
            ]);
        }
        Ok(cmds)
    }

    /// Resumes after the finalize sub-call: re-validates everything the
    /// continuation observed, clears the pending slot, and converts the
    /// completed amount for the payload's recipient. Any fault aborts with
    /// the state unchanged.
    pub fn handle_complete_transfer_reply(
        &mut self,
        self_addr: &Vec<u8>,
        outcome: &ReplyOutcome,
    ) -> (r: Result<Vec<Command>, EngineError>)
        requires
            old(self).wf(),
            addr_wf(self_addr@),
        ensures
            final(self).wf(),
            match r {
                Ok(cmds) => resume_transfer_spec(old(self)@, self_addr@, outcome@)
                    == Ok::<(EngineV, Seq<Cmd>), EngineError>((final(self)@, cmds_view(cmds@))),
                Err(e) => resume_transfer_spec(old(self)@, self_addr@, outcome@)
                    == Err::<(EngineV, Seq<Cmd>), EngineError>(e)
                    && final(self)@ == old(self)@,
            },
    {
        if !outcome.success {
            return Err(EngineError::ReplyFailed);
        }
        let (contract, amount) = match &outcome.data {
            ReplyData::Unparseable => {
                return Err(EngineError::InvalidReplyData);
            },
            ReplyData::NoData => {
                return Err(EngineError::MissingReplyData);
            },
            ReplyData::Completion { contract, amount } => match contract {
                None => {
                    return Err(EngineError::MissingContract);
                },
                Some(c) => (c, *amount),
            },
        };
        let payload = match &self.pending {
            None => {
                return Err(EngineError::NoPendingTransfer);
            },
            Some(pt) => copy_bytes(&pt.payload),
        };
        let recipient = match decode_bridging_payload(&payload) {
            Err(e) => {
                return Err(e);
            },
            Ok(BridgingPayload::BasicRecipient { recipient }) => recipient,
        };
        self.pending = None;
        let cmds = self.convert_cw20_to_bank(self_addr, &recipient, amount, contract);
        Ok(cmds)
    }

    /// The reply dispatcher: resumes the completion protocol for its tag
    /// and ignores every other reply.
    pub fn reply(
        &mut self,
        self_addr: &Vec<u8>,
        id: u64,
        outcome: &ReplyOutcome,
    ) -> (r: Result<Vec<Command>, EngineError>)
        requires
            old(self).wf(),
            addr_wf(self_addr@),
        ensures
            final(self).wf(),
            match r {
                Ok(cmds) => reply_spec(old(self)@, self_addr@, id, outcome@)
                    == Ok::<(EngineV, Seq<Cmd>), EngineError>((final(self)@, cmds_view(cmds@))),
                Err(e) => reply_spec(old(self)@, self_addr@, id, outcome@)
                    == Err::<(EngineV, Seq<Cmd>), EngineError>(e)
                    && final(self)@ == old(self)@,
            },
    {
        if id == COMPLETE_TRANSFER_REPLY_ID {
            self.handle_complete_transfer_reply(self_addr, outcome)
        } else {
            let cmds: Vec<Command> = Vec::new();
            proof {
                assert(cmds_view(cmds@) =~= Seq::<Cmd>::empty());
            }
            Ok(cmds)
        }
    }

    /// Burns the attached native coin and starts the outbound bridge
    /// transfer of the wrapped equivalent: exactly one attached asset,
    /// whose denomination must parse and match its registry binding.
    pub fn convert_and_transfer(
        &self,
        self_addr: &Vec<u8>,
        funds: &Vec<Coin>,
        recipient_chain: u16,
        recipient: &Vec<u8>,
        fee: u128,
    ) -> (r: Result<Vec<Command>, EngineError>)
        requires
            self.wf(),
        ensures
            match r {
                Ok(cmds) => convert_and_transfer_spec(
                    self@, self_addr@, coins_view(funds@), recipient_chain, recipient@, fee)
                    == Ok::<Seq<Cmd>, EngineError>(cmds_view(cmds@)),
                Err(e) => convert_and_transfer_spec(
                    self@, self_addr@, coins_view(funds@), recipient_chain, recipient@, fee)
                    == Err::<Seq<Cmd>, EngineError>(e),
            },
    {
        let coin = match require_single_fund(funds) {
            Err(e) => {
                return Err(e);
            },
            Ok(c) => c,
        };
        let id = match self.parse_bank_token_factory_contract(self_addr, &coin) {
            Err(e) => {
                return Err(e);
            },
            Ok(id) => id,
        };
        let mut cmds: Vec<Command> = Vec::new();
        cmds.push(Command::Burn { denom: copy_bytes(&coin.denom), amount: coin.amount });
        cmds.push(Command::IncreaseAllowance {
            token: copy_bytes(&id),
            spender: copy_bytes(&self.token_bridge),
            amount: coin.amount,
        });
        cmds.push(Command::InitiateTransfer {
            token: id,
            amount: coin.amount,
            recipient_chain,
            recipient: copy_bytes(recipient),
            fee,
            fee_coin: None,
        });
        proof {
            let spec_cmds = convert_and_transfer_spec(
                self@, self_addr@, coins_view(funds@), recipient_chain, recipient@, fee);
            assert(cmds_view(cmds@) =~= spec_cmds.unwrap());
        }
        Ok(cmds)
    }

    /// The dual-asset outbound flow: the attached bridge-fee coin is
    /// forwarded with the initiate-transfer command; the other attached
    /// coin is burned and bridged.
    pub fn convert_and_transfer_with_fee(
        &self,
        self_addr: &Vec<u8>,
        funds: &Vec<Coin>,
        fee_denom: &Vec<u8>,
        recipient_chain: u16,
        recipient: &Vec<u8>,
        fee: u128,
    ) -> (r: Result<Vec<Command>, EngineError>)
        requires
            self.wf(),
        ensures
            match r {
                Ok(cmds) => convert_and_transfer_with_fee_spec(
                    self@, self_addr@, coins_view(funds@), fee_denom@, recipient_chain,
                    recipient@, fee)
                    == Ok::<Seq<Cmd>, EngineError>(cmds_view(cmds@)),
                Err(e) => convert_and_transfer_with_fee_spec(
                    self@, self_addr@, coins_view(funds@), fee_denom@, recipient_chain,
                    recipient@, fee)
                    == Err::<Seq<Cmd>, EngineError>(e),
            },
    {
        let (coin, fee_coin) = match select_bridging_and_fee(funds, fee_denom) {
            Err(e) => {
                return Err(e);
            },
            Ok(p) => p,
        };
        let id = match self.parse_bank_token_factory_contract(self_addr, &coin) {
            Err(e) => {
                return Err(e);
            },
            Ok(id) => id,
        };
        let mut cmds: Vec<Command> = Vec::new();
        cmds.push(Command::Burn { denom: copy_bytes(&coin.denom), amount: coin.amount });
        cmds.push(Command::IncreaseAllowance {
            token: copy_bytes(&id),
            spender: copy_bytes(&self.token_bridge),
            amount: coin.amount,
        });
        cmds.push(Command::InitiateTransfer {
            token: id,
            amount: coin.amount,
            recipient_chain,
            recipient: copy_bytes(recipient),
            fee,
            fee_coin: Some(fee_coin),
        });
        proof {
            let spec_cmds = convert_and_transfer_with_fee_spec(
                self@, self_addr@, coins_view(funds@), fee_denom@, recipient_chain, recipient@,
                fee);
            assert(cmds_view(cmds@) =~= spec_cmds.unwrap());
        }
        Ok(cmds)
    }

    /// Burns the attached native coin and hands the wrapped equivalent
    /// back to the caller, without crossing chains.
    pub fn convert_bank_to_cw20(
        &self,
        self_addr: &Vec<u8>,
        funds: &Vec<Coin>,
        sender: &Vec<u8>,
    ) -> (r: Result<Vec<Command>, EngineError>)
        requires
            self.wf(),
        ensures
            match r {
                Ok(cmds) => convert_bank_to_cw20_spec(
                    self@, self_addr@, coins_view(funds@), sender@)
                    == Ok::<Seq<Cmd>, EngineError>(cmds_view(cmds@)),
                Err(e) => convert_bank_to_cw20_spec(
                    self@, self_addr@, coins_view(funds@), sender@)
                    == Err::<Seq<Cmd>, EngineError>(e),
            },
    {
        let coin = match require_single_fund(funds) {
            Err(e) => {
                return Err(e);
            },
            Ok(c) => c,
        };
        let id = match self.parse_bank_token_factory_contract(self_addr, &coin) {
            Err(e) => {
                return Err(e);
            },
            Ok(id) => id,
        };
        let mut cmds: Vec<Command> = Vec::new();
        cmds.push(Command::Burn { denom: copy_bytes(&coin.denom), amount: coin.amount });
        cmds.push(Command::Cw20Transfer {
            token: id,
            recipient: copy_bytes(sender),
            amount: coin.amount,
        });
        proof {
            let spec_cmds = convert_bank_to_cw20_spec(
                self@, self_addr@, coins_view(funds@), sender@);
            assert(cmds_view(cmds@) =~= spec_cmds.unwrap());
        }
        Ok(cmds)
    }

    /// The receiver hook: decodes the opaque action and converts the
    /// already-received wrapped tokens for their original sender.
    pub fn handle_receiver_msg(
        &mut self,
        self_addr: &Vec<u8>,
        sender: &Vec<u8>,
        amount: u128,
        msg: &Vec<u8>,
        token_contract: &Vec<u8>,
    ) -> (r: Result<Vec<Command>, EngineError>)
        requires
            old(self).wf(),
            addr_wf(self_addr@),
        ensures
            final(self).wf(),
            match r {
                Ok(cmds) => receive_spec(
                    old(self)@, self_addr@, sender@, amount, msg@, token_contract@)
                    == Ok::<(EngineV, Seq<Cmd>), EngineError>((final(self)@, cmds_view(cmds@))),
                Err(e) => receive_spec(
                    old(self)@, self_addr@, sender@, amount, msg@, token_contract@)
                    == Err::<(EngineV, Seq<Cmd>), EngineError>(e)
                    && final(self)@ == old(self)@,
            },
    {
        match decode_receive_action(msg) {
            Err(e) => Err(e),
            Ok(ReceiveAction::ConvertToBank) => {
                let cmds = self.convert_cw20_to_bank(self_addr, sender, amount, token_contract);
                Ok(cmds)
            },
        }
    }

    /// The command dispatcher. For `CompleteTransferAndConvert`,
    /// `transfer_query` carries the bridge's answer to the transfer-info
    /// query for the submitted envelope (`None` when the query failed); it
    /// is ignored by every other command. `sender` is the calling account:
    /// the relayer for a completion, the wrapped-token contract for the
    /// receiver hook.
    pub fn execute(
        &mut self,
        self_addr: &Vec<u8>,
        sender: &Vec<u8>,
        funds: &Vec<Coin>,
        msg: ExecuteMsg,
        transfer_query: Option<PendingTransfer>,
    ) -> (r: Result<Vec<Command>, EngineError>)
        requires
            old(self).wf(),
            addr_wf(self_addr@),
        ensures
            final(self).wf(),
            match msg {
                ExecuteMsg::CompleteTransferAndConvert { vaa } => match r {
                    Ok(cmds) => complete_transfer_spec(
                        old(self)@, vaa@, sender@, opt_pending_view(transfer_query))
                        == Ok::<(EngineV, Seq<Cmd>), EngineError>(
                            (final(self)@, cmds_view(cmds@))),
                    Err(e) => complete_transfer_spec(
                        old(self)@, vaa@, sender@, opt_pending_view(transfer_query))
                        == Err::<(EngineV, Seq<Cmd>), EngineError>(e)
                        && final(self)@ == old(self)@,
                },
                ExecuteMsg::ConvertAndTransfer { recipient_chain, recipient, fee } => match r {
                    Ok(cmds) => convert_and_transfer_spec(
                        old(self)@, self_addr@, coins_view(funds@), recipient_chain,
                        recipient@, fee)
                        == Ok::<Seq<Cmd>, EngineError>(cmds_view(cmds@))
                        && final(self)@ == old(self)@,
                    Err(e) => convert_and_transfer_spec(
                        old(self)@, self_addr@, coins_view(funds@), recipient_chain,
                        recipient@, fee)
                        == Err::<Seq<Cmd>, EngineError>(e)
                        && final(self)@ == old(self)@,
                },
                ExecuteMsg::ConvertBankToCw20 => match r {
                    Ok(cmds) => convert_bank_to_cw20_spec(
                        old(self)@, self_addr@, coins_view(funds@), sender@)
                        == Ok::<Seq<Cmd>, EngineError>(cmds_view(cmds@))
                        && final(self)@ == old(self)@,
                    Err(e) => convert_bank_to_cw20_spec(
                        old(self)@, self_addr@, coins_view(funds@), sender@)
                        == Err::<Seq<Cmd>, EngineError>(e)
                        && final(self)@ == old(self)@,
                },
                ExecuteMsg::Receive { sender: hook_sender, amount, msg: hook_msg } => match r {
                    Ok(cmds) => receive_spec(
                        old(self)@, self_addr@, hook_sender@, amount, hook_msg@, sender@)
                        == Ok::<(EngineV, Seq<Cmd>), EngineError>(
                            (final(self)@, cmds_view(cmds@))),
                    Err(e) => receive_spec(
                        old(self)@, self_addr@, hook_sender@, amount, hook_msg@, sender@)
                        == Err::<(EngineV, Seq<Cmd>), EngineError>(e)
                        && final(self)@ == old(self)@,
                },
            },
    {
        match msg {
            ExecuteMsg::CompleteTransferAndConvert { vaa } => {
                self.complete_transfer_and_convert(&vaa, sender, transfer_query)
            },
            ExecuteMsg::ConvertAndTransfer { recipient_chain, recipient, fee } => {
                self.convert_and_transfer(self_addr, funds, recipient_chain, &recipient, fee)
            },
            ExecuteMsg::ConvertBankToCw20 => {
                self.convert_bank_to_cw20(self_addr, funds, sender)
            },
            ExecuteMsg::Receive { sender: hook_sender, amount, msg: hook_msg } => {
                self.handle_receiver_msg(self_addr, &hook_sender, amount, &hook_msg, sender)
            },
        }
    }
}

} // verus!
