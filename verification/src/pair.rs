use crate::asset::{Asset, AssetInfo, AssetInfoView, AssetView};
use crate::decimal::{Decimal, DECIMAL_FRACTIONAL};
use crate::pool::error::ContractError;
use crate::pool::math::{checked_multiply_ratio, lemma_quotient_bounds};
use vstd::prelude::*;

verus! {

/// One hundred percent, in the atomic units of a percentage.
pub const HUNDRED_PERCENT: u128 = 100_000_000_000_000_000_000;

/// Atomic units of an amount times atomic units of one hundred percent:
/// 10^38, the scale on which an amount meets a limit times a percentage.
pub const BAND_SCALE: u128 = 100_000_000_000_000_000_000_000_000_000_000_000_000;

/// What a pool is created with.
#[derive(Debug)]
pub struct InstantiateMsg {
    /// The two assets of the pool.
    pub asset_infos: [AssetInfo; 2],
    /// The code from which the liquidity token is instantiated.
    pub token_code_id: u64,
    /// The factory's address.
    pub factory_addr: String,
    /// Who receives the protocol fee.
    pub protocol_fee_recipient: String,
    /// The protocol fee, a decimal number of percent: `"0.3"` is a rate of
    /// 0.003.
    pub protocol_fee_percent: String,
    /// The liquidity providers' fee, a decimal number of percent.
    pub lp_fee_percent: String,
}

/// A pair's identity: its two assets, the pool's own address and the
/// address of its liquidity token.
///
/// The liquidity token is provisioned once. A pool is created without it
/// and asks the host to instantiate it; while that is pending the address
/// is empty and the pool refuses every operation. The host's report sets
/// the address, and from then on it stays.
#[derive(Debug)]
pub struct PairInfo {
    pub asset_infos: [AssetInfo; 2],
    pub contract_addr: String,
    pub liquidity_token: String,
}

/// The mathematical value of a [`PairInfo`].
pub struct PairInfoView {
    pub asset_infos: Seq<AssetInfoView>,
    pub contract_addr: Seq<char>,
    pub liquidity_token: Seq<char>,
}

impl View for PairInfo {
    type V = PairInfoView;

    open spec fn view(&self) -> PairInfoView {
        PairInfoView {
            asset_infos: seq![self.asset_infos[0]@, self.asset_infos[1]@],
            contract_addr: self.contract_addr@,
            liquidity_token: self.liquidity_token@,
        }
    }
}

impl Clone for PairInfo {
    fn clone(&self) -> (r: Self)
        ensures
            r@ == self@,
    {
        PairInfo {
            asset_infos: [self.asset_infos[0].clone(), self.asset_infos[1].clone()],
            contract_addr: self.contract_addr.clone(),
            liquidity_token: self.liquidity_token.clone(),
        }
    }
}

impl PairInfo {
    /// The identity of a new pair, whose liquidity token does not exist yet.
    pub fn init(contract_addr: String, asset_infos: [AssetInfo; 2]) -> (r: PairInfo)
        ensures
            r@.asset_infos == seq![asset_infos[0]@, asset_infos[1]@],
            r@.contract_addr == contract_addr@,
            r@.liquidity_token == Seq::<char>::empty(),
    {
        PairInfo { asset_infos, contract_addr, liquidity_token: String::new() }
    }

    /// The invariant of a pair: its two assets differ.
    pub open spec fn wf(&self) -> bool {
        self.asset_infos[0]@ != self.asset_infos[1]@
    }

    /// Whether the liquidity token has been provisioned.
    pub open spec fn token_is_set(&self) -> bool {
        self.liquidity_token@.len() > 0
    }

    /// Tells whether the liquidity token has been provisioned.
    pub fn has_liquidity_token(&self) -> (r: bool)
        ensures
            r == self.token_is_set(),
    {
        !self.liquidity_token.as_str().is_empty()
    }

    /// The pair's two assets with the balances that the host reported for
    /// the pool, in the pair's order.
    pub fn query_pools(&self, balances: [u128; 2]) -> (r: [Asset; 2])
        ensures
            r[0]@ == (AssetView { info: self.asset_infos[0]@, amount: balances[0] }),
            r[1]@ == (AssetView { info: self.asset_infos[1]@, amount: balances[1] }),
    {
        [
            Asset { amount: balances[0], info: self.asset_infos[0].clone() },
            Asset { amount: balances[1], info: self.asset_infos[1].clone() },
        ]
    }
}

/// What a pool can be asked to do.
#[derive(Debug)]
pub enum ExecuteMsg {
    /// Deposit the two assets and receive liquidity tokens.
    ProvideLiquidity { assets: [Asset; 2] },
    /// Exchange `offer_asset` for the pool's other asset.
    Swap {
        offer_asset: Asset,
        min_output_amount: Option<String>,
        max_spread: Option<String>,
        to: Option<String>,
    },
    /// Hand back `amount` liquidity tokens for a share of both reserves.
    RemoveLiquidity { amount: u128 },
}

/// What a pool can be asked about.
#[derive(Clone, Copy, Debug, PartialEq, Eq, Structural)]
pub enum QueryMsg {
    /// The pair's identity.
    PairInfo {  },
    /// The pool's tracked reserves.
    Liquidity {  },
}

/// The answer to [`QueryMsg::PairInfo`].
#[derive(Debug)]
pub struct PairInfoResponse {
    pub assets: [AssetInfo; 2],
    pub contract_addr: String,
    pub liquidity_token: String,
}

/// The mathematical value of a [`PairInfoResponse`].
pub struct PairInfoResponseView {
    pub assets: Seq<AssetInfoView>,
    pub contract_addr: Seq<char>,
    pub liquidity_token: Seq<char>,
}

impl View for PairInfoResponse {
    type V = PairInfoResponseView;

    open spec fn view(&self) -> PairInfoResponseView {
        PairInfoResponseView {
            assets: seq![self.assets[0]@, self.assets[1]@],
            contract_addr: self.contract_addr@,
            liquidity_token: self.liquidity_token@,
        }
    }
}

/// The answer to [`QueryMsg::Liquidity`].
#[derive(Debug)]
pub struct LiquidityResponse {
    pub liquidity: [Asset; 2],
}

/// The mathematical value of a [`LiquidityResponse`].
pub struct LiquidityResponseView {
    pub liquidity: Seq<AssetView>,
}

impl View for LiquidityResponse {
    type V = LiquidityResponseView;

    open spec fn view(&self) -> LiquidityResponseView {
        LiquidityResponseView { liquidity: seq![self.liquidity[0]@, self.liquidity[1]@] }
    }
}

/// A swap as its caller asked for it. The two limits are decimal numbers
/// in text form: the least output the caller accepts, and by how many
/// percent the output may exceed it.
#[derive(Debug)]
pub struct SwapParams {
    pub offer_asset: Asset,
    pub min_output_amount: Option<String>,
    pub max_spread: Option<String>,
    pub to: Option<String>,
}

/// A limit as the decimal parser read it: absent, a number, or unreadable.
pub open spec fn limit_of(text: Option<String>) -> Result<Option<Decimal>, ContractError> {
    match text {
        None => Ok(None),
        Some(s) => match Decimal::parsed(s@) {
            Some(limit) => Ok(Some(limit)),
            None => Err(ContractError::Generic),
        },
    }
}

/// Reads an optional limit; an absent one stays absent.
fn to_decimal(input: &Option<String>) -> (r: Result<Option<Decimal>, ContractError>)
    ensures
        r == limit_of(*input),
{
    match input {
        None => Ok(None),
        Some(text) => match Decimal::from_str(text.as_str()) {
            Some(limit) => Ok(Some(limit)),
            None => Err(ContractError::Generic),
        },
    }
}

/// `true_amount` is no less than the limit `min`.
pub open spec fn meets_minimum(true_amount: u128, min: Decimal) -> bool {
    true_amount * DECIMAL_FRACTIONAL >= min.atomics
}

/// `true_amount` is at most `min` raised by `spread` percent.
pub open spec fn within_spread_above(true_amount: u128, min: Decimal, spread: Decimal) -> bool {
    true_amount * BAND_SCALE <= min.atomics * (HUNDRED_PERCENT + spread.atomics)
}

/// `true_amount` is at least `min` lowered by `spread` percent.
pub open spec fn within_spread_below(true_amount: u128, min: Decimal, spread: Decimal) -> bool {
    true_amount * BAND_SCALE >= min.atomics * (HUNDRED_PERCENT - spread.atomics)
}

/// The verdict on an amount bought. Without a minimum anything passes. With
/// one, the amount must reach it, and with a spread beside it the amount
/// may exceed the minimum by at most that many percent.
pub open spec fn bought_verdict(true_amount: u128, min: Option<Decimal>, spread: Option<Decimal>) -> Result<
    (),
    ContractError,
> {
    match min {
        None => Ok(()),
        Some(m) => if !meets_minimum(true_amount, m) {
            Err(ContractError::SlippageExceeded)
        } else {
            match spread {
                None => Ok(()),
                Some(s) => if HUNDRED_PERCENT + s.atomics > u128::MAX {
                    Err(ContractError::ArithmeticError)
                } else if within_spread_above(true_amount, m, s) {
                    Ok(())
                } else {
                    Err(ContractError::SlippageExceeded)
                },
            }
        },
    }
}

/// Judges an amount bought against limits already read.
pub fn check_min_token_bought(true_amount: u128, min: Option<Decimal>, spread: Option<Decimal>) -> (r:
    Result<(), ContractError>)
    ensures
        r == bought_verdict(true_amount, min, spread),
{
    let m = match min {
        None => { return Ok(()); },
        Some(m) => m,
    };
    match true_amount.checked_mul(DECIMAL_FRACTIONAL) {
        Some(scaled) => {
            if scaled < m.atomics {
                return Err(ContractError::SlippageExceeded);
            }
        },
        None => {},
    }
    let s = match spread {
        None => { return Ok(()); },
        Some(s) => s,
    };
    let factor = match HUNDRED_PERCENT.checked_add(s.atomics) {
        Some(factor) => factor,
        None => { return Err(ContractError::ArithmeticError); },
    };
    match checked_multiply_ratio(m.atomics, factor, BAND_SCALE) {
        Some(bound) => {
            proof {
                lemma_quotient_bounds(true_amount as int, m.atomics * factor, BAND_SCALE as int);
            }
            if true_amount <= bound {
                Ok(())
            } else {
                Err(ContractError::SlippageExceeded)
            }
        },
        None => {
            proof {
                lemma_quotient_bounds(true_amount as int, m.atomics * factor, BAND_SCALE as int);
            }
            Ok(())
        },
    }
}

/// The verdict on an amount sold. Without a minimum anything passes; with
/// one, the amount must reach the minimum lowered by `spread` percent, an
/// absent spread counting as none.
pub open spec fn sold_verdict(true_amount: u128, min: Option<Decimal>, spread: Option<Decimal>) -> Result<
    (),
    ContractError,
> {
    match min {
        None => Ok(()),
        Some(m) => {
            let s = match spread {
                None => Decimal { atomics: 0 },
                Some(s) => s,
            };
            if within_spread_below(true_amount, m, s) {
                Ok(())
            } else {
                Err(ContractError::SlippageExceeded)
            }
        },
    }
}

/// Judges an amount sold against limits already read.
pub fn check_min_token_sold(true_amount: u128, min: Option<Decimal>, spread: Option<Decimal>) -> (r:
    Result<(), ContractError>)
    ensures
        r == sold_verdict(true_amount, min, spread),
{
    let m = match min {
        None => { return Ok(()); },
        Some(m) => m,
    };
    let s = match spread {
        None => Decimal::zero(),
        Some(s) => s,
    };
    if s.atomics >= HUNDRED_PERCENT {
        assert(m.atomics * (HUNDRED_PERCENT - s.atomics) <= 0) by (nonlinear_arith)
            requires
                m.atomics >= 0,
                HUNDRED_PERCENT - s.atomics <= 0,
        ;
        assert(true_amount * BAND_SCALE >= 0) by (nonlinear_arith)
            requires
                true_amount >= 0,
                BAND_SCALE >= 0,
        ;
        return Ok(());
    }
    let factor = HUNDRED_PERCENT - s.atomics;
    proof {
        lemma_quotient_bounds(m.atomics as int, true_amount * BAND_SCALE, factor as int);
    }
    match checked_multiply_ratio(true_amount, BAND_SCALE, factor) {
        Some(reach) => {
            if m.atomics <= reach {
                Ok(())
            } else {
                Err(ContractError::SlippageExceeded)
            }
        },
        None => Ok(()),
    }
}

impl SwapParams {
    /// What `assert_min_token_bought` answers for the limits as read.
    pub open spec fn bought_outcome(&self, true_amount: u128) -> Result<(), ContractError> {
        match limit_of(self.min_output_amount) {
            Err(e) => Err(e),
            Ok(min) => match limit_of(self.max_spread) {
                Err(e) => Err(e),
                Ok(spread) => bought_verdict(true_amount, min, spread),
            },
        }
    }

    /// Rejects an amount bought that misses the caller's limits.
    pub fn assert_min_token_bought(&self, true_amount: u128) -> (r: Result<(), ContractError>)
        ensures
            r == self.bought_outcome(true_amount),
    {
        let min_output_amount = to_decimal(&self.min_output_amount)?;
        let max_spread = to_decimal(&self.max_spread)?;
        check_min_token_bought(true_amount, min_output_amount, max_spread)
    }

    /// What `assert_min_token_sold` answers for the limits as read.
    pub open spec fn sold_outcome(&self, true_amount: u128) -> Result<(), ContractError> {
        match limit_of(self.min_output_amount) {
            Err(e) => Err(e),
            Ok(min) => match limit_of(self.max_spread) {
                Err(e) => Err(e),
                Ok(spread) => sold_verdict(true_amount, min, spread),
            },
        }
    }

    /// Rejects an amount sold that falls below the caller's limits.
    pub fn assert_min_token_sold(&self, true_amount: u128) -> (r: Result<(), ContractError>)
        ensures
            r == self.sold_outcome(true_amount),
    {
        let min_output_amount = to_decimal(&self.min_output_amount)?;
        let max_spread = to_decimal(&self.max_spread)?;
        check_min_token_sold(true_amount, min_output_amount, max_spread)
    }
}

} // verus!
