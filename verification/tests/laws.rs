use ysip::asset::{Asset, AssetInfo, Coin};
use ysip::decimal::Decimal;
use ysip::pair::{InstantiateMsg, SwapParams};
use ysip::pool::contract::{
    execute_provide_liquidity, execute_remove_liquidity, instantiate, reply, swap,
};
use ysip::pool::error::ContractError;
use ysip::pool::math::compute_swap_amounts;
use ysip::pool::state::{Config, Liquidity};
use ysip::utils::MessageInfo;

fn asset_a() -> AssetInfo {
    AssetInfo::NativeToken {
        denom: "uusd".to_string(),
    }
}

fn asset_b() -> AssetInfo {
    AssetInfo::NativeToken {
        denom: "ukrw".to_string(),
    }
}

fn pool(protocol: &str, lp: &str, reserve_a: u128, reserve_b: u128) -> (Config, Liquidity) {
    let msg = InstantiateMsg {
        asset_infos: [asset_a(), asset_b()],
        token_code_id: 1,
        factory_addr: "factory".to_string(),
        protocol_fee_recipient: "treasury".to_string(),
        protocol_fee_percent: protocol.to_string(),
        lp_fee_percent: lp.to_string(),
    };
    let new = instantiate(
        &"pool".to_string(),
        &msg,
        [true, true],
        &[String::new(), String::new()],
    )
    .unwrap();
    let mut config = new.config;
    let mut liquidity = new.liquidity;
    reply(&mut config, Some(&"lp".to_string()), true).unwrap();
    liquidity.token_a.amount = reserve_a;
    liquidity.token_b.amount = reserve_b;
    (config, liquidity)
}

fn pay(denom: &str, amount: u128) -> MessageInfo {
    MessageInfo {
        sender: "trader".to_string(),
        funds: vec![Coin {
            denom: denom.to_string(),
            amount,
        }],
    }
}

fn offer(info: AssetInfo, amount: u128) -> SwapParams {
    SwapParams {
        offer_asset: Asset { info, amount },
        min_output_amount: None,
        max_spread: None,
        to: None,
    }
}

#[test]
fn round_trip_returns_less_where_the_fee_outweighs_the_rounding() {
    let (config, mut liquidity) = pool("1", "0.3", 50_000_000, 80_000_000);
    let there = swap(&config, &mut liquidity, &pay("uusd", 1_000_000), &offer(asset_a(), 1_000_000))
        .unwrap();
    assert_eq!(there.protocol_fee_amount, 10_000);
    assert_eq!(there.token_out_amount, 1_544_031);
    assert_eq!(liquidity.token_a.amount, 50_990_000);
    assert_eq!(liquidity.token_b.amount, 78_455_969);
    let back = swap(
        &config,
        &mut liquidity,
        &pay("ukrw", there.token_out_amount),
        &offer(asset_b(), there.token_out_amount),
    )
    .unwrap();
    assert_eq!(back.token_out_amount, 968_692);
    assert!(back.token_out_amount < 1_000_000);
    assert_eq!(liquidity.token_a.amount, 50_021_308);
    assert_eq!(liquidity.token_b.amount, 79_984_560);
}

#[test]
fn round_trip_without_fees_can_return_more() {
    let (config, mut liquidity) = pool("0", "0", 100, 100);
    let there = swap(&config, &mut liquidity, &pay("uusd", 10), &offer(asset_a(), 10)).unwrap();
    assert_eq!(there.token_out_amount, 10);
    let back = swap(&config, &mut liquidity, &pay("ukrw", 10), &offer(asset_b(), 10)).unwrap();
    // the curve rounds the payout up: one unit more than was put in
    assert_eq!(back.token_out_amount, 11);
    assert_eq!(liquidity.token_a.amount, 99);
    assert_eq!(liquidity.token_b.amount, 100);
    assert!(!fees_outweigh_rounding(10, 100, 100, Decimal::zero(), Decimal::zero()));
}

#[test]
fn round_trip_can_return_the_amount_where_the_fee_is_small() {
    // the fee takes less than the rounding gives
    let (config, mut liquidity) = pool("0", "0.3", 100, 1_000);
    let there = swap(&config, &mut liquidity, &pay("uusd", 10), &offer(asset_a(), 10)).unwrap();
    assert_eq!(there.token_out_amount, 83);
    let back = swap(&config, &mut liquidity, &pay("ukrw", 83), &offer(asset_b(), 83)).unwrap();
    assert_eq!(back.token_out_amount, 10);
    let rate = Decimal::from_str("0.003").unwrap();
    assert!(!fees_outweigh_rounding(10, 100, 1_000, Decimal::zero(), rate));
}

/// What the fees of a round trip weigh against the rounding of the curve,
/// computed from the amounts of the two swaps.
fn fees_outweigh_rounding(x: u128, ra: u128, rb: u128, p: Decimal, l: Decimal) -> bool {
    let units = (l.atomics * 10_000 / 1_000_000_000_000_000_000) as i128;
    let after_fee = |n: u128| (n as i128) * (10_000 - units) / 10_000;
    let first = compute_swap_amounts(x, ra, rb, p, l).unwrap();
    let second =
        compute_swap_amounts(first.net_output, rb - first.net_output, ra + first.net_input, p, l)
            .unwrap();
    let (ra, rb) = (ra as i128, rb as i128);
    let withheld_there = first.net_input as i128 - after_fee(first.net_input);
    let withheld_back = second.net_input as i128 - after_fee(second.net_input);
    let rounding = (ra * rb) % (ra + after_fee(first.net_input));
    let divisor = rb - first.net_output as i128 + after_fee(second.net_input);
    let fees = ra * (second.protocol_fee as i128 + withheld_back)
        + withheld_there * (rb - first.gross_output as i128)
        + (ra + first.net_input as i128) * first.output_fee as i128;
    rounding + divisor <= (first.protocol_fee + second.output_fee) as i128 * divisor + fees
}

fn deposit(
    config: &Config,
    liquidity: &mut Liquidity,
    a: u128,
    b: u128,
    supply: u128,
) -> Result<(u128, u128, u128), ContractError> {
    let info = MessageInfo {
        sender: "provider".to_string(),
        funds: vec![
            Coin { denom: "uusd".to_string(), amount: a },
            Coin { denom: "ukrw".to_string(), amount: b },
        ],
    };
    let assets = [
        Asset { info: asset_a(), amount: a },
        Asset { info: asset_b(), amount: b },
    ];
    let r = execute_provide_liquidity(config, liquidity, &info, &assets, [true, true], supply)?;
    Ok((r.token_1_amount, r.token_2_amount, r.liquidity_minted))
}

fn withdraw(
    config: &Config,
    liquidity: &mut Liquidity,
    amount: u128,
    supply: u128,
) -> Result<(u128, u128), ContractError> {
    let info = MessageInfo {
        sender: "provider".to_string(),
        funds: vec![],
    };
    let r = execute_remove_liquidity(config, liquidity, &info, amount, amount, supply)?;
    Ok((r.token1_returned, r.token2_returned))
}

#[test]
fn deposit_then_withdrawal_never_gains() {
    let cases: [(u128, u128, u128, u128, u128, u128); 6] = [
        // reserves, supply, deposit
        (0, 0, 0, 1_000, 3_000, 3_000),
        (229_955, 87_009, 200_000, 50_000, 20_000, 20_000),
        (3, 100, 3, 1, 40, 40),
        (1_000, 1_999, 1_000, 500, 999, 999),
        (7, 5, 1_000_000, 3, 3, 3),
        (1_000_000, 999_999, 7, 999_999, 999_999, 999_999),
    ];
    for (reserve_a, reserve_b, supply, a, b, _) in cases {
        let (config, mut liquidity) = pool("0.15", "0.15", reserve_a, reserve_b);
        let (taken_a, taken_b, minted) = deposit(&config, &mut liquidity, a, b, supply).unwrap();
        assert_eq!(taken_a, a);
        assert!(taken_b <= b);
        let (back_a, back_b) = withdraw(&config, &mut liquidity, minted, supply + minted).unwrap();
        assert!(back_a <= taken_a);
        assert!(back_b <= taken_b);
        assert_eq!(liquidity.token_a.amount, reserve_a + taken_a - back_a);
        assert_eq!(liquidity.token_b.amount, reserve_b + taken_b - back_b);
    }
}

#[test]
fn deposit_then_withdrawal_exact_values() {
    let (config, mut liquidity) = pool("0.15", "0.15", 229_955, 87_009);
    assert_eq!(
        deposit(&config, &mut liquidity, 50_000, 20_000, 200_000),
        Ok((50_000, 18_918, 43_486))
    );
    assert_eq!(
        withdraw(&config, &mut liquidity, 43_486, 243_486),
        Ok((49_999, 18_918))
    );
    // into an empty pool the round trip is exact
    let (config, mut liquidity) = pool("0.15", "0.15", 0, 0);
    assert_eq!(deposit(&config, &mut liquidity, 1_000, 3_000, 0), Ok((1_000, 3_000, 1_000)));
    assert_eq!(withdraw(&config, &mut liquidity, 1_000, 1_000), Ok((1_000, 3_000)));
}

#[test]
fn deposit_then_withdrawal_can_lose_more_than_one_unit() {
    // a liquidity token worth more than one unit of an asset
    let (config, mut liquidity) = pool("0.15", "0.15", 3, 100);
    assert_eq!(deposit(&config, &mut liquidity, 1, 33, 2), Ok((1, 33, 0)));
    assert_eq!(withdraw(&config, &mut liquidity, 0, 2), Ok((0, 0)));
}

#[test]
fn deposit_then_withdrawal_losses_in_one_pool() {
    // one liquidity token is worth a hundred units of either asset
    let (config, mut liquidity) = pool("0.15", "0.15", 1_000, 1_000);
    assert_eq!(deposit(&config, &mut liquidity, 100, 100, 10), Ok((100, 100, 1)));
    assert_eq!(withdraw(&config, &mut liquidity, 1, 11), Ok((100, 100)));
    let (config, mut liquidity) = pool("0.15", "0.15", 1_000, 1_000);
    assert_eq!(deposit(&config, &mut liquidity, 150, 150, 10), Ok((150, 150, 1)));
    assert_eq!(withdraw(&config, &mut liquidity, 1, 11), Ok((104, 104)));
}

#[test]
fn deposit_into_reserves_without_supply_can_gain() {
    // reserves without a liquidity token in supply: the first depositor
    // owns them all
    let (config, mut liquidity) = pool("0.15", "0.15", 5, 5);
    assert_eq!(deposit(&config, &mut liquidity, 1, 1, 0), Ok((1, 1, 1)));
    assert_eq!(withdraw(&config, &mut liquidity, 1, 1), Ok((6, 6)));
}

#[test]
fn reserves_never_pass_below_zero() {
    let (config, mut liquidity) = pool("0.15", "0.15", 10, 10);
    // a withdrawal of more than the supply stands for more than the reserves
    assert_eq!(
        withdraw(&config, &mut liquidity, 11, 10),
        Err(ContractError::ArithmeticError)
    );
    assert_eq!((liquidity.token_a.amount, liquidity.token_b.amount), (10, 10));
    assert_eq!(withdraw(&config, &mut liquidity, 10, 10), Ok((10, 10)));
    assert_eq!((liquidity.token_a.amount, liquidity.token_b.amount), (0, 0));
    // a swap pays out less than the ask reserve however large the offer
    let (config, mut liquidity) = pool("0", "0", 1, 1);
    let paid = swap(
        &config,
        &mut liquidity,
        &pay("uusd", 1_000_000_000_000),
        &offer(asset_a(), 1_000_000_000_000),
    )
    .unwrap();
    assert_eq!(paid.token_out_amount, 1);
    assert_eq!(liquidity.token_b.amount, 0);
    assert_eq!(liquidity.token_a.amount, 1_000_000_000_001);
    // a deposit that would pass 128 bits is refused
    let (config, mut liquidity) = pool("0", "0", u128::MAX, 1);
    assert_eq!(
        deposit(&config, &mut liquidity, 1, 1, 0),
        Err(ContractError::ArithmeticError)
    );
    assert_eq!(liquidity.token_a.amount, u128::MAX);
}

#[test]
fn round_trip_loses_exactly_where_the_fees_outweigh_the_rounding() {
    let reserves: [u128; 5] = [1, 7, 100, 12_345, 1_000_000];
    let offers: [u128; 6] = [0, 1, 3, 50, 999, 250_000];
    let fees = ["0", "0.0001", "0.003", "0.025", "0.49"];
    let mut lost = 0;
    let mut kept = 0;
    for protocol in fees {
        for lp in fees {
            let p = Decimal::from_str(protocol).unwrap();
            let l = Decimal::from_str(lp).unwrap();
            for ra in reserves {
                for rb in reserves {
                    for x in offers {
                        let first = compute_swap_amounts(x, ra, rb, p, l).unwrap();
                        assert!(first.net_output <= rb);
                        assert_eq!(first.net_input, x - first.protocol_fee);
                        let back_offer_reserve = rb - first.net_output;
                        let back_ask_reserve = ra + first.net_input;
                        match compute_swap_amounts(
                            first.net_output,
                            back_offer_reserve,
                            back_ask_reserve,
                            p,
                            l,
                        ) {
                            Ok(second) => {
                                assert_eq!(
                                    second.net_output < x,
                                    fees_outweigh_rounding(x, ra, rb, p, l)
                                );
                                if second.net_output < x {
                                    lost += 1;
                                } else {
                                    kept += 1;
                                }
                            }
                            Err(e) => {
                                assert_eq!(e, ContractError::NoLiquidity);
                                assert_eq!(back_offer_reserve, 0);
                            }
                        }
                    }
                }
            }
        }
    }
    assert!(lost > 0 && kept > 0);
}

#[test]
fn deposit_then_withdrawal_never_gains_over_a_grid() {
    let reserves: [u128; 5] = [1, 7, 100, 12_345, 1_000_000];
    let supplies: [u128; 5] = [1, 3, 100, 54_321, 2_000_000];
    let deposits: [u128; 5] = [0, 1, 9, 1_000, 777_777];
    for ra in reserves {
        for rb in reserves {
            for supply in supplies {
                for a in deposits {
                    let (config, mut liquidity) = pool("0.15", "0.15", ra, rb);
                    let b = u128::MAX / 4;
                    let (taken_a, taken_b, minted) =
                        deposit(&config, &mut liquidity, a, b, supply).unwrap();
                    assert_eq!(taken_a, a);
                    assert_eq!(minted, a * supply / ra);
                    assert_eq!(taken_b, std::cmp::max(1, a * rb / ra));
                    let new_supply = supply + minted;
                    let (back_a, back_b) =
                        withdraw(&config, &mut liquidity, minted, new_supply).unwrap();
                    assert!(back_a <= taken_a);
                    assert!(back_b <= taken_b);
                    if ra <= new_supply && rb <= new_supply {
                        assert!(back_a + 1 >= taken_a);
                        assert!(back_b + 1 >= taken_b);
                    }
                    // the loss is at most what one liquidity token is
                    // worth after the deposit, rounded up
                    let worth_a = (ra + taken_a + new_supply - 1) / new_supply;
                    let worth_b = (rb + taken_b + new_supply - 1) / new_supply;
                    assert!(back_a + worth_a >= taken_a);
                    assert!(back_b + worth_b >= taken_b);
                    // and nothing where nothing was rounded
                    if (a * supply) % ra == 0 {
                        assert_eq!(back_a, taken_a);
                        if (a * rb) % ra == 0 && a * rb >= ra {
                            assert_eq!(back_b, taken_b);
                        }
                    }
                    assert_eq!(liquidity.token_a.amount, ra + taken_a - back_a);
                    assert_eq!(liquidity.token_b.amount, rb + taken_b - back_b);
                }
            }
        }
    }
}
