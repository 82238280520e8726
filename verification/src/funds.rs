//! Funds attached to a call: the coin type and the validators that enforce
//! the exact fund-count rules of each flow.

use vstd::prelude::*;
use crate::bytes::{bytes_eq, copy_bytes};
use crate::error::EngineError;

verus! {

/// A (denomination, amount) pair. Amounts are unsigned 128-bit and are
/// never combined arithmetically by the engine, only passed through.
#[derive(Debug, PartialEq, Eq)]
pub struct Coin {
    pub denom: Vec<u8>,
    pub amount: u128,
}

/// The mathematical value of a `Coin`.
pub struct CoinV {
    pub denom: Seq<u8>,
    pub amount: u128,
}

impl View for Coin {
    type V = CoinV;

    open spec fn view(&self) -> CoinV {
        CoinV { denom: self.denom@, amount: self.amount }
    }
}

/// The values of a list of coins.
pub open spec fn coins_view(s: Seq<Coin>) -> Seq<CoinV> {
    s.map_values(|c: Coin| c@)
}

impl Coin {
    /// A copy of this coin.
    pub fn duplicate(&self) -> (r: Coin)
        ensures
            r@ == self@,
    {
        Coin { denom: copy_bytes(&self.denom), amount: self.amount }
    }
}

/// Which coin a single-asset flow works on: the only attached coin; any
/// other count of attached assets is rejected.
pub open spec fn single_fund_spec(funds: Seq<CoinV>) -> Result<CoinV, EngineError> {
    if funds.len() == 1 {
        Ok(funds[0])
    } else {
        Err(EngineError::WrongFundCount)
    }
}

/// Requires exactly one attached asset and returns it.
pub fn require_single_fund(funds: &Vec<Coin>) -> (r: Result<Coin, EngineError>)
    ensures
        match r {
            Ok(c) => single_fund_spec(coins_view(funds@)) == Ok::<CoinV, EngineError>(c@),
            Err(e) => single_fund_spec(coins_view(funds@)) == Err::<CoinV, EngineError>(e),
        },
{
    if funds.len() == 1 {
        Ok(funds[0].duplicate())
    } else {
        Err(EngineError::WrongFundCount)
    }
}

/// Which coins a dual-asset flow works on: of exactly two attached assets,
/// the one not carrying the bridge-fee denomination is bridged and the one
/// carrying it pays the fee; any other arrangement is rejected.
pub open spec fn select_bridging_and_fee_spec(
    funds: Seq<CoinV>,
    fee_denom: Seq<u8>,
) -> Result<(CoinV, CoinV), EngineError> {
    if funds.len() != 2 {
        Err(EngineError::WrongFundCount)
    } else if funds[0].denom == fee_denom && funds[1].denom == fee_denom {
        Err(EngineError::MissingBridgingCoin)
    } else if funds[0].denom != fee_denom && funds[1].denom != fee_denom {
        Err(EngineError::MissingFeeCoin)
    } else if funds[0].denom == fee_denom {
        Ok((funds[1], funds[0]))
    } else {
        Ok((funds[0], funds[1]))
    }
}

/// Requires exactly two attached assets, one carrying `fee_denom` and one
/// not, and returns them as (bridging coin, fee coin).
pub fn select_bridging_and_fee(
    funds: &Vec<Coin>,
    fee_denom: &Vec<u8>,
) -> (r: Result<(Coin, Coin), EngineError>)
    ensures
        match r {
            Ok(p) => select_bridging_and_fee_spec(coins_view(funds@), fee_denom@)
                == Ok::<(CoinV, CoinV), EngineError>((p.0@, p.1@)),
            Err(e) => select_bridging_and_fee_spec(coins_view(funds@), fee_denom@)
                == Err::<(CoinV, CoinV), EngineError>(e),
        },
{
    if funds.len() != 2 {
        return Err(EngineError::WrongFundCount);
    }
    let m0 = bytes_eq(&funds[0].denom, fee_denom);
    let m1 = bytes_eq(&funds[1].denom, fee_denom);
    if m0 && m1 {
        Err(EngineError::MissingBridgingCoin)
    } else if !m0 && !m1 {
        Err(EngineError::MissingFeeCoin)
    } else if m0 {
        Ok((funds[1].duplicate(), funds[0].duplicate()))
    } else {
        Ok((funds[0].duplicate(), funds[1].duplicate()))
    }
}

} // verus!
