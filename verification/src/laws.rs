//! The engine's laws, proved over the specification-level transitions that
//! every executable flow is tied to by its contract.

use vstd::prelude::*;
use crate::cmd::{Cmd, burned_total, creates_total, minted_total, sent_total, wrapped_out_total};
use crate::codec::b58_enc;
use crate::denom::{addr_wf, denom_of, lemma_denom_of_structure, lemma_sep_positions_unique,
    parse_denom_spec, sep_positions, structure_ok};
use crate::engine::{EngineV, ReplyDataV, ReplyOutcomeV, resume_transfer_spec, convert_and_transfer_spec, convert_and_transfer_with_fee_spec,
    convert_bank_to_cw20_spec, parse_and_check_spec, wrapped_to_native_spec};
use crate::error::EngineError;
use crate::funds::CoinV;

verus! {

/// Evaluates the command totals of the inbound command lists.
proof fn lemma_totals_three(a: Cmd, b: Cmd, c: Cmd)
    ensures
        minted_total(seq![a, b, c]) == minted_total(seq![a, b]) + (match c {
            Cmd::Mint { amount, .. } => amount as int,
            _ => 0,
        }),
        burned_total(seq![a, b, c]) == burned_total(seq![a, b]) + (match c {
            Cmd::Burn { amount, .. } => amount as int,
            _ => 0,
        }),
        sent_total(seq![a, b, c]) == sent_total(seq![a, b]) + (match c {
            Cmd::Send { amount, .. } => amount as int,
            _ => 0,
        }),
        wrapped_out_total(seq![a, b, c]) == wrapped_out_total(seq![a, b]) + (match c {
            Cmd::InitiateTransfer { amount, .. } => amount as int,
            Cmd::Cw20Transfer { amount, .. } => amount as int,
            _ => 0,
        }),
        creates_total(seq![a, b, c]) == creates_total(seq![a, b]) + (match c {
            Cmd::CreateDenom { .. } => 1int,
            _ => 0,
        }),
{
    assert(seq![a, b, c].drop_last() =~= seq![a, b]);
}

/// Evaluates the command totals of the two-command lists.
proof fn lemma_totals_two(a: Cmd, b: Cmd)
    ensures
        minted_total(seq![a, b]) == minted_total(seq![a]) + (match b {
            Cmd::Mint { amount, .. } => amount as int,
            _ => 0,
        }),
        burned_total(seq![a, b]) == burned_total(seq![a]) + (match b {
            Cmd::Burn { amount, .. } => amount as int,
            _ => 0,
        }),
        sent_total(seq![a, b]) == sent_total(seq![a]) + (match b {
            Cmd::Send { amount, .. } => amount as int,
            _ => 0,
        }),
        wrapped_out_total(seq![a, b]) == wrapped_out_total(seq![a]) + (match b {
            Cmd::InitiateTransfer { amount, .. } => amount as int,
            Cmd::Cw20Transfer { amount, .. } => amount as int,
            _ => 0,
        }),
        creates_total(seq![a, b]) == creates_total(seq![a]) + (match b {
            Cmd::CreateDenom { .. } => 1int,
            _ => 0,
        }),
{
    assert(seq![a, b].drop_last() =~= seq![a]);
}

/// Evaluates the command totals of a one-command list.
proof fn lemma_totals_one(a: Cmd)
    ensures
        minted_total(seq![a]) == (match a {
            Cmd::Mint { amount, .. } => amount as int,
            _ => 0,
        }),
        burned_total(seq![a]) == (match a {
            Cmd::Burn { amount, .. } => amount as int,
            _ => 0,
        }),
        sent_total(seq![a]) == (match a {
            Cmd::Send { amount, .. } => amount as int,
            _ => 0,
        }),
        wrapped_out_total(seq![a]) == (match a {
            Cmd::InitiateTransfer { amount, .. } => amount as int,
            Cmd::Cw20Transfer { amount, .. } => amount as int,
            _ => 0,
        }),
        creates_total(seq![a]) == (match a {
            Cmd::CreateDenom { .. } => 1int,
            _ => 0,
        }),
{
    assert(seq![a].drop_last() =~= Seq::<Cmd>::empty());
    assert(seq![a].last() == a);
    assert(minted_total(Seq::<Cmd>::empty()) == 0);
    assert(burned_total(Seq::<Cmd>::empty()) == 0);
    assert(sent_total(Seq::<Cmd>::empty()) == 0);
    assert(wrapped_out_total(Seq::<Cmd>::empty()) == 0);
    assert(creates_total(Seq::<Cmd>::empty()) == 0);
}

/// Idempotent creation: converting wrapped tokens of one identity twice
/// creates the native denomination exactly once. The second conversion
/// issues no create command, leaves the registry as it was, and mints
/// under the same denomination string as the first.
pub proof fn lemma_idempotent_creation(
    reg: Map<Seq<u8>, Seq<u8>>,
    self_addr: Seq<u8>,
    id: Seq<u8>,
    a1: u128,
    r1: Seq<u8>,
    a2: u128,
    r2: Seq<u8>,
)
    requires
        !reg.dom().contains(id),
    ensures
        ({
            let (reg1, cmds1) = wrapped_to_native_spec(reg, self_addr, id, a1, r1);
            let (reg2, cmds2) = wrapped_to_native_spec(reg1, self_addr, id, a2, r2);
            &&& creates_total(cmds1) == 1
            &&& creates_total(cmds2) == 0
            &&& reg2 == reg1
            &&& reg1[id] == denom_of(self_addr, id)
            &&& cmds1[1] == Cmd::Mint { denom: denom_of(self_addr, id), amount: a1 }
            &&& cmds2[0] == Cmd::Mint { denom: denom_of(self_addr, id), amount: a2 }
        }),
{
    let denom = denom_of(self_addr, id);
    let (reg1, cmds1) = wrapped_to_native_spec(reg, self_addr, id, a1, r1);
    let (reg2, cmds2) = wrapped_to_native_spec(reg1, self_addr, id, a2, r2);
    assert(reg1.dom().contains(id));
    lemma_totals_one(Cmd::CreateDenom { subdenom: b58_enc(id) });
    lemma_totals_two(
        Cmd::CreateDenom { subdenom: b58_enc(id) },
        Cmd::Mint { denom, amount: a1 },
    );
    lemma_totals_three(
        Cmd::CreateDenom { subdenom: b58_enc(id) },
        Cmd::Mint { denom, amount: a1 },
        Cmd::Send { recipient: r1, denom, amount: a1 },
    );
    lemma_totals_one(Cmd::Mint { denom, amount: a2 });
    lemma_totals_two(
        Cmd::Mint { denom, amount: a2 },
        Cmd::Send { recipient: r2, denom, amount: a2 },
    );
}

/// Conservation, inbound: a wrapped-to-native conversion mints exactly the
/// converted amount, sends exactly that amount to the recipient, and burns
/// nothing and moves no wrapped tokens out.
pub proof fn lemma_inbound_conservation(
    reg: Map<Seq<u8>, Seq<u8>>,
    self_addr: Seq<u8>,
    id: Seq<u8>,
    amount: u128,
    recipient: Seq<u8>,
)
    ensures
        ({
            let cmds = wrapped_to_native_spec(reg, self_addr, id, amount, recipient).1;
            &&& minted_total(cmds) == amount as int
            &&& sent_total(cmds) == amount as int
            &&& burned_total(cmds) == 0
            &&& wrapped_out_total(cmds) == 0
        }),
{
    let denom = denom_of(self_addr, id);
    if reg.dom().contains(id) {
        lemma_totals_one(Cmd::Mint { denom, amount });
        lemma_totals_two(
            Cmd::Mint { denom, amount },
            Cmd::Send { recipient, denom, amount },
        );
    } else {
        lemma_totals_one(Cmd::CreateDenom { subdenom: b58_enc(id) });
        lemma_totals_two(
            Cmd::CreateDenom { subdenom: b58_enc(id) },
            Cmd::Mint { denom, amount },
        );
        lemma_totals_three(
            Cmd::CreateDenom { subdenom: b58_enc(id) },
            Cmd::Mint { denom, amount },
            Cmd::Send { recipient, denom, amount },
        );
    }
}

/// Conservation, outbound: a successful convert-and-transfer burns exactly
/// the attached amount, moves exactly that amount of wrapped tokens out,
/// and mints nothing.
pub proof fn lemma_outbound_conservation(
    st: EngineV,
    self_addr: Seq<u8>,
    funds: Seq<CoinV>,
    recipient_chain: u16,
    recipient: Seq<u8>,
    fee: u128,
)
    requires
        convert_and_transfer_spec(st, self_addr, funds, recipient_chain, recipient, fee) is Ok,
    ensures
        ({
            let cmds = convert_and_transfer_spec(
                st, self_addr, funds, recipient_chain, recipient, fee).unwrap();
            &&& burned_total(cmds) == funds[0].amount as int
            &&& wrapped_out_total(cmds) == funds[0].amount as int
            &&& minted_total(cmds) == 0
        }),
{
    let coin = funds[0];
    let id = parse_and_check_spec(st.registry, self_addr, coin.denom).unwrap();
    let burn = Cmd::Burn { denom: coin.denom, amount: coin.amount };
    let allow = Cmd::IncreaseAllowance {
        token: id,
        spender: st.token_bridge,
        amount: coin.amount,
    };
    let init = Cmd::InitiateTransfer {
        token: id,
        amount: coin.amount,
        recipient_chain,
        recipient,
        fee,
        fee_coin: None,
    };
    lemma_totals_one(burn);
    lemma_totals_two(burn, allow);
    lemma_totals_three(burn, allow, init);
}

/// Conservation, outbound with a separate fee coin: only the bridging coin
/// is burned and bridged; the fee coin is forwarded, not burned.
pub proof fn lemma_outbound_with_fee_conservation(
    st: EngineV,
    self_addr: Seq<u8>,
    funds: Seq<CoinV>,
    fee_denom: Seq<u8>,
    recipient_chain: u16,
    recipient: Seq<u8>,
    fee: u128,
)
    requires
        convert_and_transfer_with_fee_spec(
            st, self_addr, funds, fee_denom, recipient_chain, recipient, fee) is Ok,
    ensures
        ({
            let cmds = convert_and_transfer_with_fee_spec(
                st, self_addr, funds, fee_denom, recipient_chain, recipient, fee).unwrap();
            let bridged = if funds[0].denom == fee_denom { funds[1] } else { funds[0] };
            &&& burned_total(cmds) == bridged.amount as int
            &&& wrapped_out_total(cmds) == bridged.amount as int
            &&& minted_total(cmds) == 0
        }),
{
    let bridged = if funds[0].denom == fee_denom { funds[1] } else { funds[0] };
    let fee_coin = if funds[0].denom == fee_denom { funds[0] } else { funds[1] };
    let id = parse_and_check_spec(st.registry, self_addr, bridged.denom).unwrap();
    let burn = Cmd::Burn { denom: bridged.denom, amount: bridged.amount };
    let allow = Cmd::IncreaseAllowance {
        token: id,
        spender: st.token_bridge,
        amount: bridged.amount,
    };
    let init = Cmd::InitiateTransfer {
        token: id,
        amount: bridged.amount,
        recipient_chain,
        recipient,
        fee,
        fee_coin: Some(fee_coin),
    };
    lemma_totals_one(burn);
    lemma_totals_two(burn, allow);
    lemma_totals_three(burn, allow, init);
}

/// Conservation, native-to-wrapped passthrough: the burn and the wrapped
/// transfer carry exactly the attached amount.
pub proof fn lemma_passthrough_conservation(
    st: EngineV,
    self_addr: Seq<u8>,
    funds: Seq<CoinV>,
    sender: Seq<u8>,
)
    requires
        convert_bank_to_cw20_spec(st, self_addr, funds, sender) is Ok,
    ensures
        ({
            let cmds = convert_bank_to_cw20_spec(st, self_addr, funds, sender).unwrap();
            &&& burned_total(cmds) == funds[0].amount as int
            &&& wrapped_out_total(cmds) == funds[0].amount as int
            &&& minted_total(cmds) == 0
        }),
{
    let coin = funds[0];
    let id = parse_and_check_spec(st.registry, self_addr, coin.denom).unwrap();
    let burn = Cmd::Burn { denom: coin.denom, amount: coin.amount };
    let xfer = Cmd::Cw20Transfer { token: id, recipient: sender, amount: coin.amount };
    lemma_totals_one(burn);
    lemma_totals_two(burn, xfer);
}

/// Conservation, whole inbound resumption: a successful resumption mints
/// and delivers exactly the amount the bridge reported as completed, and
/// burns nothing.
pub proof fn lemma_resume_conservation(st: EngineV, self_addr: Seq<u8>, outcome: ReplyOutcomeV)
    requires
        resume_transfer_spec(st, self_addr, outcome) is Ok,
    ensures
        ({
            let cmds = resume_transfer_spec(st, self_addr, outcome).unwrap().1;
            match outcome.data {
                ReplyDataV::Completion { amount, .. } => {
                    &&& minted_total(cmds) == amount as int
                    &&& sent_total(cmds) == amount as int
                    &&& burned_total(cmds) == 0
                },
                _ => false,
            }
        }),
{
    match outcome.data {
        ReplyDataV::Completion { contract: Some(c), amount } => {
            let pt = st.pending.unwrap();
            let recipient = crate::payload::bridging_payload_dec(pt.payload).unwrap();
            lemma_inbound_conservation(st.registry, self_addr, c, amount, recipient);
        },
        _ => {
            assert(false);
        },
    }
}

/// Forgery rejection, missing binding: a denomination whose subdenomination
/// decodes to an identity the registry never bound is rejected.
pub proof fn lemma_unbound_identity_rejected(
    reg: Map<Seq<u8>, Seq<u8>>,
    self_addr: Seq<u8>,
    d: Seq<u8>,
    id: Seq<u8>,
)
    requires
        parse_denom_spec(d, self_addr) == Ok::<Seq<u8>, EngineError>(id),
        !reg.dom().contains(id),
    ensures
        parse_and_check_spec(reg, self_addr, d) == Err::<Seq<u8>, EngineError>(
            EngineError::BindingMissing,
        ),
{
}

/// Forgery rejection, foreign engine: a denomination built under another
/// engine's address is rejected as not from this engine's token factory.
/// The hypothesis that the encoded identity holds no separator is what the
/// codec guarantees of every encoding it hands out.
pub proof fn lemma_foreign_engine_rejected(
    self_addr: Seq<u8>,
    other: Seq<u8>,
    id: Seq<u8>,
)
    requires
        addr_wf(other),
        other != self_addr,
    ensures
        addr_wf(b58_enc(id)) ==> parse_denom_spec(denom_of(other, id), self_addr)
            == Err::<Seq<u8>, EngineError>(EngineError::NotFactoryToken),
{
    if addr_wf(b58_enc(id)) {
        let d = denom_of(other, id);
        let i: int = 7;
        let j: int = 8 + other.len() as int;
        lemma_denom_of_structure(other, id);
        assert forall|ci: int, cj: int|
            !(sep_positions(d, ci, cj)
                && d.subrange(0, ci) == crate::denom::factory_tag()
                && d.subrange(ci + 1, cj) == self_addr) by {
            if sep_positions(d, ci, cj) {
                lemma_sep_positions_unique(d, i, j, ci, cj);
                assert(d.subrange(ci + 1, cj) == other);
            }
        }
        assert(!structure_ok(d, self_addr));
    }
}

} // verus!
