use ysip::asset::{Asset, AssetInfo};
use ysip::decimal::Decimal;
use ysip::pair::{check_min_token_bought, check_min_token_sold, PairInfo, SwapParams};
use ysip::pool::error::ContractError;

fn params(min_output_amount: Option<&str>, max_spread: Option<&str>) -> SwapParams {
    SwapParams {
        offer_asset: Asset {
            info: AssetInfo::Token {
                contract_addr: "".to_string(),
            },
            amount: 10000,
        },
        min_output_amount: min_output_amount.map(|s| s.to_string()),
        max_spread: max_spread.map(|s| s.to_string()),
        to: Some("".to_string()),
    }
}

#[test]
fn test() {
    let sp = SwapParams {
        offer_asset: Asset {
            info: AssetInfo::Token {
                contract_addr: "".to_string(),
            },
            amount: 10000,
        },
        min_output_amount: Some("100".to_string()),
        max_spread: Some("5".to_string()),
        to: Some("".to_string()),
    };

    // success
    sp.assert_min_token_bought(105).unwrap();

    // fail
    sp.assert_min_token_bought(106).unwrap_err();

    // success
    sp.assert_min_token_sold(95).unwrap();

    // fail
    sp.assert_min_token_sold(94).unwrap_err();
}

#[test]
fn bought_amount_must_reach_the_minimum() {
    let sp = params(Some("100"), None);
    assert_eq!(sp.assert_min_token_bought(100), Ok(()));
    assert_eq!(sp.assert_min_token_bought(1_000_000), Ok(()));
    assert_eq!(
        sp.assert_min_token_bought(99),
        Err(ContractError::SlippageExceeded)
    );
    let sp = params(Some("99.000000000000000001"), None);
    assert_eq!(
        sp.assert_min_token_bought(99),
        Err(ContractError::SlippageExceeded)
    );
    assert_eq!(sp.assert_min_token_bought(100), Ok(()));
}

#[test]
fn bought_amount_within_the_spread() {
    let sp = params(Some("100"), Some("5"));
    assert_eq!(sp.assert_min_token_bought(100), Ok(()));
    assert_eq!(sp.assert_min_token_bought(105), Ok(()));
    assert_eq!(
        sp.assert_min_token_bought(106),
        Err(ContractError::SlippageExceeded)
    );
    assert_eq!(
        sp.assert_min_token_bought(99),
        Err(ContractError::SlippageExceeded)
    );
    let sp = params(Some("100"), Some("0"));
    assert_eq!(sp.assert_min_token_bought(100), Ok(()));
    assert_eq!(
        sp.assert_min_token_bought(101),
        Err(ContractError::SlippageExceeded)
    );
    let sp = params(Some("0"), Some("5"));
    assert_eq!(sp.assert_min_token_bought(0), Ok(()));
    assert_eq!(
        sp.assert_min_token_bought(1),
        Err(ContractError::SlippageExceeded)
    );
}

#[test]
fn no_minimum_no_guard() {
    let sp = params(None, None);
    assert_eq!(sp.assert_min_token_bought(0), Ok(()));
    assert_eq!(sp.assert_min_token_sold(0), Ok(()));
    let sp = params(None, Some("5"));
    assert_eq!(sp.assert_min_token_bought(u128::MAX), Ok(()));
    assert_eq!(sp.assert_min_token_sold(0), Ok(()));
}

#[test]
fn unreadable_limits() {
    assert_eq!(
        params(Some("a lot"), None).assert_min_token_bought(1),
        Err(ContractError::Generic)
    );
    assert_eq!(
        params(None, Some("5%")).assert_min_token_bought(1),
        Err(ContractError::Generic)
    );
    assert_eq!(
        params(Some("1"), Some("")).assert_min_token_sold(1),
        Err(ContractError::Generic)
    );
}

#[test]
fn guard_at_the_limits_of_the_numbers() {
    // the amount in atomic units passes 128 bits: it reaches any minimum
    let max = Decimal::new(u128::MAX);
    assert_eq!(check_min_token_bought(u128::MAX, Some(max), None), Ok(()));
    // the bound passes 128 bits: every amount is under it
    assert_eq!(
        check_min_token_bought(
            u128::MAX,
            Some(max),
            Some(Decimal::new(u128::MAX - 100_000_000_000_000_000_000))
        ),
        Ok(())
    );
    // one hundred percent and the spread together pass 128 bits
    assert_eq!(
        check_min_token_bought(u128::MAX, Some(max), Some(max)),
        Err(ContractError::ArithmeticError)
    );
    assert_eq!(
        check_min_token_bought(340282366920938463463, Some(max), Some(Decimal::zero())),
        Err(ContractError::SlippageExceeded)
    );
    assert_eq!(
        check_min_token_bought(340282366920938463464, Some(max), Some(Decimal::zero())),
        Err(ContractError::SlippageExceeded)
    );
}

#[test]
fn sold_amount_within_the_spread() {
    let hundred = Decimal::from_str("100").unwrap();
    assert_eq!(check_min_token_sold(100, Some(hundred), None), Ok(()));
    assert_eq!(
        check_min_token_sold(99, Some(hundred), None),
        Err(ContractError::SlippageExceeded)
    );
    assert_eq!(
        check_min_token_sold(0, Some(hundred), Some(Decimal::from_str("100").unwrap())),
        Ok(())
    );
    assert_eq!(
        check_min_token_sold(0, Some(hundred), Some(Decimal::from_str("250").unwrap())),
        Ok(())
    );
    assert_eq!(
        check_min_token_sold(0, Some(hundred), Some(Decimal::from_str("99").unwrap())),
        Err(ContractError::SlippageExceeded)
    );
    assert_eq!(
        check_min_token_sold(1, Some(hundred), Some(Decimal::from_str("99").unwrap())),
        Ok(())
    );
    assert_eq!(
        check_min_token_sold(u128::MAX, Some(Decimal::new(u128::MAX)), None),
        Ok(())
    );
}

#[test]
fn pair_info_starts_without_a_token() {
    let infos = [
        AssetInfo::Token {
            contract_addr: "token".to_string(),
        },
        AssetInfo::NativeToken {
            denom: "ukrw".to_string(),
        },
    ];
    let pair = PairInfo::init("pool".to_string(), infos.clone());
    assert_eq!(pair.contract_addr, "pool");
    assert_eq!(pair.liquidity_token, "");
    assert!(!pair.has_liquidity_token());
    assert_eq!(pair.asset_infos[0], infos[0]);
    assert_eq!(pair.asset_infos[1], infos[1]);
    let pools = pair.query_pools([7, 9]);
    assert_eq!(pools[0], Asset { info: infos[0].clone(), amount: 7 });
    assert_eq!(pools[1], Asset { info: infos[1].clone(), amount: 9 });
    let copy = pair.clone();
    assert_eq!(copy.contract_addr, "pool");
}
