use token_translator::error::EngineError;
use token_translator::funds::{Coin, require_single_fund, select_bridging_and_fee};

fn coin(denom: &str, amount: u128) -> Coin {
    Coin { denom: denom.as_bytes().to_vec(), amount }
}

#[test]
fn single_fund_accepts_one_coin() {
    let funds = vec![coin("factory/e/abc", 200)];
    assert_eq!(require_single_fund(&funds), Ok(coin("factory/e/abc", 200)));
}

#[test]
fn single_fund_rejects_zero_coins() {
    let funds: Vec<Coin> = Vec::new();
    assert_eq!(require_single_fund(&funds), Err(EngineError::WrongFundCount));
}

#[test]
fn single_fund_rejects_two_coins() {
    let funds = vec![coin("a", 1), coin("b", 2)];
    assert_eq!(require_single_fund(&funds), Err(EngineError::WrongFundCount));
}

#[test]
fn dual_fund_accepts_fee_plus_bridging() {
    let fee_denom = "usei".as_bytes().to_vec();
    let funds = vec![coin("factory/e/abc", 200), coin("usei", 5)];
    assert_eq!(
        select_bridging_and_fee(&funds, &fee_denom),
        Ok((coin("factory/e/abc", 200), coin("usei", 5)))
    );
    // The same pair in the other order.
    let funds = vec![coin("usei", 5), coin("factory/e/abc", 200)];
    assert_eq!(
        select_bridging_and_fee(&funds, &fee_denom),
        Ok((coin("factory/e/abc", 200), coin("usei", 5)))
    );
}

#[test]
fn dual_fund_rejects_zero_one_or_three_coins() {
    let fee_denom = "usei".as_bytes().to_vec();
    let none: Vec<Coin> = Vec::new();
    assert_eq!(select_bridging_and_fee(&none, &fee_denom), Err(EngineError::WrongFundCount));
    let one = vec![coin("usei", 5)];
    assert_eq!(select_bridging_and_fee(&one, &fee_denom), Err(EngineError::WrongFundCount));
    let three = vec![coin("usei", 5), coin("a", 1), coin("b", 2)];
    assert_eq!(select_bridging_and_fee(&three, &fee_denom), Err(EngineError::WrongFundCount));
}

#[test]
fn dual_fund_rejects_missing_fee_coin() {
    let fee_denom = "usei".as_bytes().to_vec();
    let funds = vec![coin("a", 1), coin("b", 2)];
    assert_eq!(select_bridging_and_fee(&funds, &fee_denom), Err(EngineError::MissingFeeCoin));
}

#[test]
fn dual_fund_rejects_two_fee_coins() {
    let fee_denom = "usei".as_bytes().to_vec();
    let funds = vec![coin("usei", 1), coin("usei", 2)];
    assert_eq!(
        select_bridging_and_fee(&funds, &fee_denom),
        Err(EngineError::MissingBridgingCoin)
    );
}
