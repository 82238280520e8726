//! The ordered commands an engine invocation issues.
//!
//! The engine never performs an external effect itself: each flow validates
//! its inputs and returns the exact list of commands the host must execute,
//! in order and atomically. The `Cmd` value of each command is what the
//! contracts and the conservation laws speak about.

use vstd::prelude::*;
use crate::funds::{Coin, CoinV};

verus! {

/// A command, as executable data.
#[derive(Debug, PartialEq, Eq)]
pub enum Command {
    /// Ask the bridge to finalize an inbound transfer, resuming this engine
    /// with the result under the completion reply tag.
    SubmitCompleteTransfer { bridge: Vec<u8>, vaa: Vec<u8>, relayer: Vec<u8> },
    /// Create the native denomination for a fresh subdenomination.
    CreateDenom { subdenom: Vec<u8> },
    /// Mint native tokens.
    Mint { denom: Vec<u8>, amount: u128 },
    /// Send native tokens to a recipient.
    Send { recipient: Vec<u8>, denom: Vec<u8>, amount: u128 },
    /// Burn native tokens.
    Burn { denom: Vec<u8>, amount: u128 },
    /// Grant the bridge an allowance over wrapped tokens.
    IncreaseAllowance { token: Vec<u8>, spender: Vec<u8>, amount: u128 },
    /// Start an outbound bridge transfer of wrapped tokens, optionally
    /// paying a separate bridge-fee coin alongside.
    InitiateTransfer {
        token: Vec<u8>,
        amount: u128,
        recipient_chain: u16,
        recipient: Vec<u8>,
        fee: u128,
        fee_coin: Option<Coin>,
    },
    /// Transfer wrapped tokens to a recipient.
    Cw20Transfer { token: Vec<u8>, recipient: Vec<u8>, amount: u128 },
}

/// The mathematical value of a command.
pub enum Cmd {
    SubmitCompleteTransfer { bridge: Seq<u8>, vaa: Seq<u8>, relayer: Seq<u8> },
    CreateDenom { subdenom: Seq<u8> },
    Mint { denom: Seq<u8>, amount: u128 },
    Send { recipient: Seq<u8>, denom: Seq<u8>, amount: u128 },
    Burn { denom: Seq<u8>, amount: u128 },
    IncreaseAllowance { token: Seq<u8>, spender: Seq<u8>, amount: u128 },
    InitiateTransfer {
        token: Seq<u8>,
        amount: u128,
        recipient_chain: u16,
        recipient: Seq<u8>,
        fee: u128,
        fee_coin: Option<CoinV>,
    },
    Cw20Transfer { token: Seq<u8>, recipient: Seq<u8>, amount: u128 },
}

impl View for Command {
    type V = Cmd;

    open spec fn view(&self) -> Cmd {
        match self {
            Command::SubmitCompleteTransfer { bridge, vaa, relayer } =>
                Cmd::SubmitCompleteTransfer { bridge: bridge@, vaa: vaa@, relayer: relayer@ },
            Command::CreateDenom { subdenom } => Cmd::CreateDenom { subdenom: subdenom@ },
            Command::Mint { denom, amount } => Cmd::Mint { denom: denom@, amount: *amount },
            Command::Send { recipient, denom, amount } =>
                Cmd::Send { recipient: recipient@, denom: denom@, amount: *amount },
            Command::Burn { denom, amount } => Cmd::Burn { denom: denom@, amount: *amount },
            Command::IncreaseAllowance { token, spender, amount } =>
                Cmd::IncreaseAllowance { token: token@, spender: spender@, amount: *amount },
            Command::InitiateTransfer { token, amount, recipient_chain, recipient, fee, fee_coin } =>
                Cmd::InitiateTransfer {
                    token: token@,
                    amount: *amount,
                    recipient_chain: *recipient_chain,
                    recipient: recipient@,
                    fee: *fee,
                    fee_coin: match fee_coin {
                        Some(c) => Some(c@),
                        None => None,
                    },
                },
            Command::Cw20Transfer { token, recipient, amount } =>
                Cmd::Cw20Transfer { token: token@, recipient: recipient@, amount: *amount },
        }
    }
}

/// The values of a list of commands.
pub open spec fn cmds_view(s: Seq<Command>) -> Seq<Cmd> {
    s.map_values(|c: Command| c@)
}

/// The total amount of native tokens a command list mints.
pub open spec fn minted_total(s: Seq<Cmd>) -> int
    decreases s.len(),
{
    if s.len() == 0 {
        0
    } else {
        minted_total(s.drop_last()) + (match s.last() {
            Cmd::Mint { amount, .. } => amount as int,
            _ => 0,
        })
    }
}

/// The total amount of native tokens a command list burns.
pub open spec fn burned_total(s: Seq<Cmd>) -> int
    decreases s.len(),
{
    if s.len() == 0 {
        0
    } else {
        burned_total(s.drop_last()) + (match s.last() {
            Cmd::Burn { amount, .. } => amount as int,
            _ => 0,
        })
    }
}

/// The total amount of native tokens a command list sends to recipients.
pub open spec fn sent_total(s: Seq<Cmd>) -> int
    decreases s.len(),
{
    if s.len() == 0 {
        0
    } else {
        sent_total(s.drop_last()) + (match s.last() {
            Cmd::Send { amount, .. } => amount as int,
            _ => 0,
        })
    }
}

/// The total amount of wrapped tokens a command list moves out (bridge
/// transfers initiated plus direct wrapped-token transfers).
pub open spec fn wrapped_out_total(s: Seq<Cmd>) -> int
    decreases s.len(),
{
    if s.len() == 0 {
        0
    } else {
        wrapped_out_total(s.drop_last()) + (match s.last() {
            Cmd::InitiateTransfer { amount, .. } => amount as int,
            Cmd::Cw20Transfer { amount, .. } => amount as int,
            _ => 0,
        })
    }
}

/// How many native denominations a command list creates.
pub open spec fn creates_total(s: Seq<Cmd>) -> int
    decreases s.len(),
{
    if s.len() == 0 {
        0
    } else {
        creates_total(s.drop_last()) + (match s.last() {
            Cmd::CreateDenom { .. } => 1int,
            _ => 0,
        })
    }
}

} // verus!
