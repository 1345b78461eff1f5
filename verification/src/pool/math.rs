use crate::decimal::Decimal;
use crate::pool::error::ContractError;
use vstd::prelude::*;

verus! {

/// Fee rates are counted in units of one ten-thousandth.
pub const FEE_SCALE_FACTOR: u128 = 10_000;

/// Atomic units of a fee rate of one: 10^18.
pub const FEE_DECIMAL_PRECISION: u128 = 1_000_000_000_000_000_000;

/// Atomic units of a fee rate of one ten-thousandth: 10^14.
pub const FEE_UNIT: u128 = 100_000_000_000_000;

/// `floor(value * numerator / denominator)` where that is defined and fits.
pub open spec fn mul_ratio(value: u128, numerator: u128, denominator: u128) -> Option<u128> {
    if denominator == 0 || value * numerator / (denominator as int) > u128::MAX {
        None
    } else {
        Some((value * numerator / (denominator as int)) as u128)
    }
}

/// Calls `cosmwasm_std::Uint128::checked_multiply_ratio`, which multiplies in
/// 256 bits and floors the quotient. It fails on a zero denominator and on a
/// quotient that does not fit 128 bits; both come back as `None`.
#[verifier::external_body]
pub(crate) fn checked_multiply_ratio(value: u128, numerator: u128, denominator: u128) -> (r:
    Option<u128>)
    ensures
        r == mul_ratio(value, numerator, denominator),
{
    match cosmwasm_std::Uint128::new(value).checked_multiply_ratio(numerator, denominator) {
        Ok(ratio) => Some(ratio.u128()),
        Err(_) => None,
    }
}

/// A fee rate in units of one ten-thousandth, rounded down: a rate of one
/// is 10000 units, 0.003 is 30, 0.0015 is 15. The fee is a rate, a decimal
/// fraction of the amount it is taken from, whatever its name.
pub open spec fn fee_units(fee_percent: Decimal) -> int {
    fee_percent.atomics * FEE_SCALE_FACTOR / (FEE_DECIMAL_PRECISION as int)
}

/// Turns a fee rate into units of one ten-thousandth, rounding down. A
/// rate too large to be scaled is an arithmetic error.
pub fn fee_decimal_to_uint128(fee_percent: Decimal) -> (r: Result<u128, ContractError>)
    ensures
        fee_percent.atomics * FEE_SCALE_FACTOR <= u128::MAX ==> r == Ok::<u128, ContractError>(
            fee_units(fee_percent) as u128,
        ),
        fee_percent.atomics * FEE_SCALE_FACTOR > u128::MAX ==> r == Err::<u128, ContractError>(
            ContractError::ArithmeticError,
        ),
{
    match fee_percent.atomics.checked_mul(FEE_SCALE_FACTOR) {
        Some(scaled) => Ok(scaled / FEE_DECIMAL_PRECISION),
        None => Err(ContractError::ArithmeticError),
    }
}

/// The part of `input_amount` forwarded to the fee recipient.
pub open spec fn protocol_fee_of(input_amount: u128, fee_percent: Decimal) -> Result<
    u128,
    ContractError,
> {
    if fee_percent.atomics * FEE_SCALE_FACTOR > u128::MAX {
        Err(ContractError::ArithmeticError)
    } else {
        match mul_ratio(input_amount, fee_units(fee_percent) as u128, FEE_SCALE_FACTOR) {
            Some(fee) => Ok(fee),
            None => Err(ContractError::ArithmeticError),
        }
    }
}

/// `floor(input_amount * rate)`, the rate being the fee rounded down to
/// whole ten-thousandths.
pub fn get_protocol_fee_amount(input_amount: u128, fee_percent: Decimal) -> (r: Result<
    u128,
    ContractError,
>)
    ensures
        r == protocol_fee_of(input_amount, fee_percent),
{
    if fee_percent.is_zero() {
        return Ok(0);
    }
    let fee = fee_decimal_to_uint128(fee_percent)?;
    match checked_multiply_ratio(input_amount, fee, FEE_SCALE_FACTOR) {
        Some(amount) => Ok(amount),
        None => Err(ContractError::ArithmeticError),
    }
}

/// The liquidity providers' fee on the input side and on the output side.
pub open spec fn lp_fee_of(
    input_token_amount: u128,
    output_token_amount: u128,
    lp_fee_percent: Decimal,
) -> Result<(u128, u128), ContractError> {
    if lp_fee_percent.atomics * FEE_SCALE_FACTOR > u128::MAX {
        Err(ContractError::ArithmeticError)
    } else {
        let units = fee_units(lp_fee_percent) as u128;
        match (
            mul_ratio(input_token_amount, units, FEE_SCALE_FACTOR),
            mul_ratio(output_token_amount, units, FEE_SCALE_FACTOR),
        ) {
            (Some(input_fee), Some(output_fee)) => Ok((input_fee, output_fee)),
            _ => Err(ContractError::ArithmeticError),
        }
    }
}

/// Both components of the liquidity providers' fee, each
/// `floor(amount * rate)`.
pub fn get_lp_fee_amount(
    input_token_amount: u128,
    output_token_amount: u128,
    lp_fee_percent: Decimal,
) -> (r: Result<(u128, u128), ContractError>)
    ensures
        r == lp_fee_of(input_token_amount, output_token_amount, lp_fee_percent),
{
    if lp_fee_percent.is_zero() {
        return Ok((0, 0));
    }
    let fee = fee_decimal_to_uint128(lp_fee_percent)?;
    let input_fee = match checked_multiply_ratio(input_token_amount, fee, FEE_SCALE_FACTOR) {
        Some(amount) => amount,
        None => { return Err(ContractError::ArithmeticError); },
    };
    match checked_multiply_ratio(output_token_amount, fee, FEE_SCALE_FACTOR) {
        Some(output_fee) => Ok((input_fee, output_fee)),
        None => Err(ContractError::ArithmeticError),
    }
}

/// What is left of `input_amount` after a fee of `units` ten-thousandths.
pub open spec fn after_fee(input_amount: u128, units: int) -> int {
    input_amount * (FEE_SCALE_FACTOR - units) / (FEE_SCALE_FACTOR as int)
}

/// What the constant-product curve pays for `curve_input`: the output
/// reserve less `floor(k / new input reserve)`, with `k` the product of the
/// two reserves.
pub open spec fn curve_output(curve_input: int, input_reserve: u128, output_reserve: u128) -> int {
    output_reserve - (input_reserve * output_reserve) / (input_reserve + curve_input)
}

/// The amount bought with `input_amount`, before the output-side fee.
pub open spec fn swap_output_of(
    input_amount: u128,
    input_reserve: u128,
    output_reserve: u128,
    fee_percent: Decimal,
) -> Result<u128, ContractError> {
    if input_reserve == 0 || output_reserve == 0 {
        Err(ContractError::NoLiquidity)
    } else if input_reserve * output_reserve > u128::MAX
        || fee_percent.atomics * FEE_SCALE_FACTOR > u128::MAX
        || fee_units(fee_percent) > FEE_SCALE_FACTOR
        || input_reserve + after_fee(input_amount, fee_units(fee_percent)) > u128::MAX {
        Err(ContractError::ArithmeticError)
    } else {
        Ok(
            curve_output(
                after_fee(input_amount, fee_units(fee_percent)),
                input_reserve,
                output_reserve,
            ) as u128,
        )
    }
}

/// Prices `input_amount` on the constant-product curve after taking the
/// liquidity providers' fee off the input.
pub fn get_swap_output_amount(
    input_amount: u128,
    input_reserve: u128,
    output_reserve: u128,
    fee_percent: Decimal,
) -> (r: Result<u128, ContractError>)
    ensures
        r == swap_output_of(input_amount, input_reserve, output_reserve, fee_percent),
{
    if input_reserve == 0 || output_reserve == 0 {
        return Err(ContractError::NoLiquidity);
    }
    let k = match input_reserve.checked_mul(output_reserve) {
        Some(k) => k,
        None => { return Err(ContractError::ArithmeticError); },
    };
    let fee = fee_decimal_to_uint128(fee_percent)?;
    if fee > FEE_SCALE_FACTOR {
        return Err(ContractError::ArithmeticError);
    }
    let net_input_percent = FEE_SCALE_FACTOR - fee;
    let net_input_amount = match checked_multiply_ratio(
        input_amount,
        net_input_percent,
        FEE_SCALE_FACTOR,
    ) {
        Some(amount) => amount,
        None => {
            proof {
                lemma_after_fee_bounded(input_amount, fee as int);
            }
            return Err(ContractError::ArithmeticError);
        },
    };
    let input_reserve_after_swap = match input_reserve.checked_add(net_input_amount) {
        Some(reserve) => reserve,
        None => { return Err(ContractError::ArithmeticError); },
    };
    let output_reserve_after_swap = k / input_reserve_after_swap;
    proof {
        lemma_curve_output_bounded(net_input_amount as int, input_reserve, output_reserve);
    }
    Ok(output_reserve - output_reserve_after_swap)
}

/// The amounts of one swap.
#[derive(Clone, Copy, Debug, PartialEq, Eq, Structural)]
pub struct SwapAmounts {
    /// Forwarded to the fee recipient, in the offered asset.
    pub protocol_fee: u128,
    /// The offer less the protocol fee: what the offer reserve grows by.
    pub net_input: u128,
    /// The liquidity providers' fee on the input side; it stays in the
    /// offer reserve.
    pub input_fee: u128,
    /// The net input less the input-side fee.
    pub pool_credited_input: u128,
    /// What the curve pays for the net input.
    pub gross_output: u128,
    /// The liquidity providers' fee on the output side; it stays in the ask
    /// reserve.
    pub output_fee: u128,
    /// Paid to the trader: what the ask reserve shrinks by.
    pub net_output: u128,
}

/// The amounts of a swap of `offer_amount` against the two reserves.
pub open spec fn swap_amounts_of(
    offer_amount: u128,
    offer_reserve: u128,
    ask_reserve: u128,
    protocol_fee_percent: Decimal,
    lp_fee_percent: Decimal,
) -> Result<SwapAmounts, ContractError> {
    if offer_reserve == 0 || ask_reserve == 0 {
        Err(ContractError::NoLiquidity)
    } else {
        match protocol_fee_of(offer_amount, protocol_fee_percent) {
            Err(e) => Err(e),
            Ok(protocol_fee) => if protocol_fee > offer_amount {
                Err(ContractError::ArithmeticError)
            } else {
                let net_input = (offer_amount - protocol_fee) as u128;
                match swap_output_of(net_input, offer_reserve, ask_reserve, lp_fee_percent) {
                    Err(e) => Err(e),
                    Ok(gross_output) => {
                        let units = fee_units(lp_fee_percent);
                        let input_fee = (net_input * units / (FEE_SCALE_FACTOR as int)) as u128;
                        let output_fee = (gross_output * units / (FEE_SCALE_FACTOR as int)) as u128;
                        Ok(
                            SwapAmounts {
                                protocol_fee,
                                net_input,
                                input_fee,
                                pool_credited_input: (net_input - input_fee) as u128,
                                gross_output,
                                output_fee,
                                net_output: (gross_output - output_fee) as u128,
                            },
                        )
                    },
                }
            },
        }
    }
}

/// Computes the amounts of a swap: the protocol fee comes off the offer,
/// the curve prices what is left, and the liquidity providers' fee is taken
/// on both sides.
pub fn compute_swap_amounts(
    offer_amount: u128,
    offer_reserve: u128,
    ask_reserve: u128,
    protocol_fee_percent: Decimal,
    lp_fee_percent: Decimal,
) -> (r: Result<SwapAmounts, ContractError>)
    ensures
        r == swap_amounts_of(
            offer_amount,
            offer_reserve,
            ask_reserve,
            protocol_fee_percent,
            lp_fee_percent,
        ),
        r matches Ok(amounts) ==> amounts.net_output <= ask_reserve && amounts.net_input
            <= offer_amount,
{
    if offer_reserve == 0 || ask_reserve == 0 {
        return Err(ContractError::NoLiquidity);
    }
    let protocol_fee = get_protocol_fee_amount(offer_amount, protocol_fee_percent)?;
    if protocol_fee > offer_amount {
        return Err(ContractError::ArithmeticError);
    }
    let net_input = offer_amount - protocol_fee;
    let gross_output = get_swap_output_amount(
        net_input,
        offer_reserve,
        ask_reserve,
        lp_fee_percent,
    )?;
    proof {
        let units = fee_units(lp_fee_percent);
        lemma_fee_bounded(net_input, units);
        lemma_fee_bounded(gross_output, units);
        lemma_after_fee_bounded(net_input, units);
        lemma_curve_output_bounded(after_fee(net_input, units), offer_reserve, ask_reserve);
    }
    let (input_fee, output_fee) = get_lp_fee_amount(net_input, gross_output, lp_fee_percent)?;
    Ok(
        SwapAmounts {
            protocol_fee,
            net_input,
            input_fee,
            pool_credited_input: net_input - input_fee,
            gross_output,
            output_fee,
            net_output: gross_output - output_fee,
        },
    )
}

/// In a swap the protocol fee is at most the offer and the payout at most
/// the ask reserve.
pub proof fn lemma_swap_amounts_bounded(
    offer_amount: u128,
    offer_reserve: u128,
    ask_reserve: u128,
    protocol_fee_percent: Decimal,
    lp_fee_percent: Decimal,
)
    ensures
        swap_amounts_of(
            offer_amount,
            offer_reserve,
            ask_reserve,
            protocol_fee_percent,
            lp_fee_percent,
        ) matches Ok(amounts) ==> {
            &&& amounts.net_input == offer_amount - amounts.protocol_fee
            &&& amounts.pool_credited_input == amounts.net_input - amounts.input_fee
            &&& amounts.net_output == amounts.gross_output - amounts.output_fee
            &&& amounts.protocol_fee <= offer_amount
            &&& amounts.input_fee <= amounts.net_input
            &&& amounts.output_fee <= amounts.gross_output
            &&& amounts.gross_output <= ask_reserve
        },
{
    if let Ok(amounts) = swap_amounts_of(
        offer_amount,
        offer_reserve,
        ask_reserve,
        protocol_fee_percent,
        lp_fee_percent,
    ) {
        let units = fee_units(lp_fee_percent);
        lemma_fee_bounded(amounts.net_input, units);
        lemma_fee_bounded(amounts.gross_output, units);
        lemma_after_fee_bounded(amounts.net_input, units);
        lemma_curve_output_bounded(after_fee(amounts.net_input, units), offer_reserve, ask_reserve);
    }
}

/// A fee of at most the whole takes at most the amount.
pub proof fn lemma_fee_bounded(amount: u128, units: int)
    requires
        0 <= units <= FEE_SCALE_FACTOR,
    ensures
        0 <= amount * units / (FEE_SCALE_FACTOR as int) <= amount,
{
    assert(0 <= amount * units <= amount * 10_000) by (nonlinear_arith)
        requires
            0 <= units <= 10_000,
            0 <= amount,
    ;
}

/// Taking a fee off an amount leaves at most the amount.
pub proof fn lemma_after_fee_bounded(input_amount: u128, units: int)
    requires
        0 <= units <= FEE_SCALE_FACTOR,
    ensures
        0 <= after_fee(input_amount, units) <= input_amount,
{
    let kept = FEE_SCALE_FACTOR - units;
    assert(0 <= input_amount * kept <= input_amount * 10_000) by (nonlinear_arith)
        requires
            0 <= kept <= 10_000,
            0 <= input_amount,
    ;
}

/// The curve never pays more than the output reserve, nor a negative amount.
pub proof fn lemma_curve_output_bounded(curve_input: int, input_reserve: u128, output_reserve: u128)
    requires
        curve_input >= 0,
        input_reserve > 0,
    ensures
        0 <= curve_output(curve_input, input_reserve, output_reserve) <= output_reserve,
{
    let a = input_reserve as int;
    let b = output_reserve as int;
    assert(0 <= (a * b) / (a + curve_input) <= b) by (nonlinear_arith)
        requires
            a > 0,
            b >= 0,
            curve_input >= 0,
    ;
}

/// An integer is at most a floored quotient exactly when its product with
/// the divisor is at most the dividend.
pub proof fn lemma_quotient_bounds(a: int, x: int, d: int)
    requires
        d > 0,
    ensures
        a <= x / d <==> a * d <= x,
{
    assert(a <= x / d <==> a * d <= x) by (nonlinear_arith)
        requires
            d > 0,
    ;
}

/// A floored quotient times its divisor misses the dividend by less than
/// the divisor.
pub proof fn lemma_floor_product(x: int, d: int)
    requires
        x >= 0,
        d > 0,
    ensures
        (x / d) * d <= x < (x / d) * d + d,
        x / d >= 0,
{
    assert((x / d) * d <= x < (x / d) * d + d && x / d >= 0) by (nonlinear_arith)
        requires
            x >= 0,
            d > 0,
    ;
}

} // verus!
