use ysip::decimal::Decimal;
use ysip::pool::error::ContractError;
use ysip::pool::math::{
    compute_swap_amounts, fee_decimal_to_uint128, get_lp_fee_amount, get_protocol_fee_amount,
    get_swap_output_amount, SwapAmounts,
};

const EXP: u128 = 1000000;

#[test]
fn test_swap_1() {
    let pool_x_reserve = 100 * EXP;
    let pool_y_reserve = 3000 * EXP;
    let input_x = 10 * EXP;
    let res = get_swap_output_amount(
        input_x,
        pool_x_reserve,
        pool_y_reserve,
        Decimal::from_str("0.3").unwrap(),
    )
    .unwrap();
    assert_eq!(res, 196261683);
}

#[test]
fn test_swap_2() {
    let pool_x_reserve = 100 * EXP;
    let pool_y_reserve = 4000 * EXP;
    let input_x = 20 * EXP;
    let res = get_swap_output_amount(
        input_x,
        pool_x_reserve,
        pool_y_reserve,
        Decimal::from_str("0.3").unwrap(),
    )
    .unwrap();
    assert_eq!(res, 491228071);
}

#[test]
fn test_swap_3() {
    let pool_x_reserve = 100 * EXP;
    let pool_y_reserve = 5000 * EXP;
    let input_x = 40 * EXP;
    let res = get_swap_output_amount(
        input_x,
        pool_x_reserve,
        pool_y_reserve,
        Decimal::from_str("0.3").unwrap(),
    )
    .unwrap();
    assert_eq!(res, 1093750000);
}

#[test]
fn decimal_parser_reads_atomic_units() {
    assert_eq!(
        Decimal::from_str("1.5").unwrap().atomics(),
        1_500_000_000_000_000_000
    );
    assert_eq!(Decimal::from_str("0.3").unwrap().atomics(), 300_000_000_000_000_000);
    assert_eq!(Decimal::from_str("000012").unwrap().atomics(), 12_000_000_000_000_000_000);
    assert_eq!(Decimal::from_str("0").unwrap(), Decimal::zero());
    assert!(Decimal::from_str("0").unwrap().is_zero());
    assert_eq!(Decimal::new(7).atomics(), 7);
}

#[test]
fn decimal_parser_is_kept_from_overlong_texts() {
    // the parser alone would read these zeros as zero
    assert_eq!(Decimal::from_str(&"0".repeat(1 << 20)), Some(Decimal::zero()));
    assert_eq!(Decimal::from_str(&"0".repeat((1 << 30) - 1)), Some(Decimal::zero()));
    assert_eq!(Decimal::from_str(&"0".repeat(1 << 30)), None);
}

#[test]
fn decimal_parser_rejects_what_is_no_decimal() {
    assert_eq!(Decimal::from_str(""), None);
    assert_eq!(Decimal::from_str(".23"), None);
    assert_eq!(Decimal::from_str("1.2.3"), None);
    assert_eq!(Decimal::from_str("abc"), None);
    assert_eq!(Decimal::from_str("0.1234567890123456789"), None);
    assert_eq!(Decimal::from_str("340282366920938463464"), None);
}

#[test]
fn swap_output_at_thirty_ten_thousandths() {
    let fee = Decimal::from_str("0.003").unwrap();
    assert_eq!(
        get_swap_output_amount(10 * EXP, 100 * EXP, 3000 * EXP, fee),
        Ok(271983269)
    );
    assert_eq!(
        get_swap_output_amount(20 * EXP, 100 * EXP, 4000 * EXP, fee),
        Ok(664999167)
    );
    assert_eq!(
        get_swap_output_amount(40 * EXP, 100 * EXP, 5000 * EXP, fee),
        Ok(1425507578)
    );
    // without any fee the curve pays more than that
    assert_eq!(
        get_swap_output_amount(10 * EXP, 100 * EXP, 3000 * EXP, Decimal::zero()),
        Ok(272727273)
    );
}

#[test]
fn fee_rate_in_ten_thousandths() {
    assert_eq!(fee_decimal_to_uint128(Decimal::from_str("1").unwrap()), Ok(10_000));
    assert_eq!(fee_decimal_to_uint128(Decimal::from_str("0.5").unwrap()), Ok(5_000));
    assert_eq!(fee_decimal_to_uint128(Decimal::from_str("0.3").unwrap()), Ok(3_000));
    assert_eq!(fee_decimal_to_uint128(Decimal::from_str("0.003").unwrap()), Ok(30));
    assert_eq!(fee_decimal_to_uint128(Decimal::from_str("0.0015").unwrap()), Ok(15));
    // digits below one ten-thousandth are cut off
    assert_eq!(fee_decimal_to_uint128(Decimal::from_str("0.00019").unwrap()), Ok(1));
    assert_eq!(fee_decimal_to_uint128(Decimal::from_str("0.00009").unwrap()), Ok(0));
    assert_eq!(fee_decimal_to_uint128(Decimal::zero()), Ok(0));
}

#[test]
fn fee_rate_too_large_to_scale() {
    assert_eq!(
        fee_decimal_to_uint128(Decimal::new(u128::MAX)),
        Err(ContractError::ArithmeticError)
    );
    assert_eq!(
        fee_decimal_to_uint128(Decimal::new(u128::MAX / 10_000)),
        Ok(340282366920938463463)
    );
    assert_eq!(
        fee_decimal_to_uint128(Decimal::new(u128::MAX / 10_000 + 1)),
        Err(ContractError::ArithmeticError)
    );
}

#[test]
fn protocol_fee_is_floored() {
    let rate = Decimal::from_str("0.0015").unwrap();
    assert_eq!(get_protocol_fee_amount(30_000, rate), Ok(45));
    assert_eq!(get_protocol_fee_amount(666, rate), Ok(0));
    assert_eq!(get_protocol_fee_amount(667, rate), Ok(1));
    assert_eq!(get_protocol_fee_amount(30_000, Decimal::zero()), Ok(0));
    assert_eq!(get_protocol_fee_amount(0, rate), Ok(0));
    assert_eq!(
        get_protocol_fee_amount(10_000, Decimal::from_str("0.5").unwrap()),
        Ok(5_000)
    );
}

#[test]
fn protocol_fee_multiplies_in_full_width() {
    // the product does not fit 128 bits, the quotient does
    assert_eq!(
        get_protocol_fee_amount(u128::MAX, Decimal::from_str("0.5").unwrap()),
        Ok(170141183460469231731687303715884105727)
    );
    assert_eq!(
        get_protocol_fee_amount(u128::MAX, Decimal::from_str("0.01").unwrap()),
        Ok(3402823669209384634633746074317682114)
    );
    assert_eq!(
        get_protocol_fee_amount(u128::MAX, Decimal::from_str("1").unwrap()),
        Ok(u128::MAX)
    );
    assert_eq!(
        get_protocol_fee_amount(u128::MAX, Decimal::from_str("1.0001").unwrap()),
        Err(ContractError::ArithmeticError)
    );
}

#[test]
fn lp_fee_on_both_sides() {
    let rate = Decimal::from_str("0.0015").unwrap();
    assert_eq!(get_lp_fee_amount(29_955, 13_010, rate), Ok((44, 19)));
    assert_eq!(get_lp_fee_amount(29_955, 13_010, Decimal::zero()), Ok((0, 0)));
    assert_eq!(
        get_lp_fee_amount(10_000, 333, Decimal::from_str("0.5").unwrap()),
        Ok((5_000, 166))
    );
    assert_eq!(
        get_lp_fee_amount(u128::MAX, 1, Decimal::from_str("2").unwrap()),
        Err(ContractError::ArithmeticError)
    );
    assert_eq!(
        get_lp_fee_amount(1, u128::MAX, Decimal::from_str("2").unwrap()),
        Err(ContractError::ArithmeticError)
    );
    assert_eq!(
        get_lp_fee_amount(1, 1, Decimal::new(u128::MAX)),
        Err(ContractError::ArithmeticError)
    );
}

#[test]
fn swap_output_without_liquidity() {
    let fee = Decimal::from_str("0.003").unwrap();
    assert_eq!(
        get_swap_output_amount(10, 0, 100, fee),
        Err(ContractError::NoLiquidity)
    );
    assert_eq!(
        get_swap_output_amount(10, 100, 0, fee),
        Err(ContractError::NoLiquidity)
    );
}

#[test]
fn swap_output_arithmetic_faults() {
    let fee = Decimal::from_str("0.003").unwrap();
    // the product of the reserves does not fit
    assert_eq!(
        get_swap_output_amount(10, u128::MAX, 2, fee),
        Err(ContractError::ArithmeticError)
    );
    // a fee rate above one
    assert_eq!(
        get_swap_output_amount(10, 100, 100, Decimal::from_str("1.0001").unwrap()),
        Err(ContractError::ArithmeticError)
    );
    // the input reserve would pass 128 bits
    assert_eq!(
        get_swap_output_amount(u128::MAX, u128::MAX, 1, Decimal::zero()),
        Err(ContractError::ArithmeticError)
    );
    // the fee rate cannot be scaled
    assert_eq!(
        get_swap_output_amount(10, 100, 100, Decimal::new(u128::MAX)),
        Err(ContractError::ArithmeticError)
    );
}

#[test]
fn swap_output_edge_amounts() {
    let fee = Decimal::from_str("0.003").unwrap();
    assert_eq!(get_swap_output_amount(0, 100, 100, fee), Ok(0));
    // a fee of the whole input prices nothing
    assert_eq!(
        get_swap_output_amount(1_000, 100, 100, Decimal::from_str("1").unwrap()),
        Ok(0)
    );
    // a fee of one half keeps half of the input back
    assert_eq!(
        get_swap_output_amount(1_000, 1_000, 1_000, Decimal::from_str("0.5").unwrap()),
        Ok(334)
    );
    // floor(k / new reserve) rounds the payout up
    assert_eq!(get_swap_output_amount(10, 100, 100, Decimal::zero()), Ok(10));
    assert_eq!(get_swap_output_amount(10, 90, 110, Decimal::zero()), Ok(11));
}

#[test]
fn swap_amounts_of_one_swap() {
    let rate = Decimal::from_str("0.0015").unwrap();
    assert_eq!(
        compute_swap_amounts(30_000, 200_000, 100_000, rate, rate),
        Ok(SwapAmounts {
            protocol_fee: 45,
            net_input: 29_955,
            input_fee: 44,
            pool_credited_input: 29_911,
            gross_output: 13_010,
            output_fee: 19,
            net_output: 12_991,
        })
    );
}

#[test]
fn swap_amounts_faults() {
    let rate = Decimal::from_str("0.0015").unwrap();
    assert_eq!(
        compute_swap_amounts(30_000, 0, 100_000, rate, rate),
        Err(ContractError::NoLiquidity)
    );
    assert_eq!(
        compute_swap_amounts(30_000, 100_000, 0, rate, rate),
        Err(ContractError::NoLiquidity)
    );
    // a protocol fee above the offer
    assert_eq!(
        compute_swap_amounts(30_000, 100_000, 100_000, Decimal::from_str("1.5").unwrap(), rate),
        Err(ContractError::ArithmeticError)
    );
    assert_eq!(
        compute_swap_amounts(30_000, 100_000, 100_000, rate, Decimal::from_str("1.5").unwrap()),
        Err(ContractError::ArithmeticError)
    );
}
