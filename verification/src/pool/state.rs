use crate::asset::{Asset, AssetInfo, AssetView};
use crate::decimal::{Decimal, DECIMAL_FRACTIONAL};
use crate::pair::{PairInfo, PairInfoView};
use crate::pool::error::ContractError;
use vstd::prelude::*;

verus! {

/// The fee parameters of a pool, fixed when the pool is created. Both fees
/// are rates, decimal fractions of the amount they are taken from: 0.003
/// is three thousandths of it.
#[derive(Debug)]
pub struct Fees {
    pub protocol_fee_recipient: String,
    pub protocol_fee_percent: Decimal,
    pub lp_fee_percent: Decimal,
}

/// The mathematical value of [`Fees`].
pub struct FeesView {
    pub protocol_fee_recipient: Seq<char>,
    pub protocol_fee_percent: Decimal,
    pub lp_fee_percent: Decimal,
}

impl View for Fees {
    type V = FeesView;

    open spec fn view(&self) -> FeesView {
        FeesView {
            protocol_fee_recipient: self.protocol_fee_recipient@,
            protocol_fee_percent: self.protocol_fee_percent,
            lp_fee_percent: self.lp_fee_percent,
        }
    }
}

/// The two fee rates together are less than one: the fees take less than
/// the whole of an amount.
pub open spec fn fees_in_range(protocol_fee_percent: Decimal, lp_fee_percent: Decimal) -> bool {
    protocol_fee_percent.atomics + lp_fee_percent.atomics < DECIMAL_FRACTIONAL
}

/// The rate that a number of percent stands for: a hundredth of it,
/// rounded down to the last of its 18 digits.
pub open spec fn rate_of_percent(percent: Decimal) -> Decimal {
    Decimal { atomics: percent.atomics / 100 }
}

/// Turns a number of percent into a rate.
pub fn percent_to_rate(percent: Decimal) -> (r: Decimal)
    ensures
        r == rate_of_percent(percent),
{
    Decimal { atomics: percent.atomics / 100 }
}

impl Fees {
    /// The invariant of fee parameters: the two rates sum to less than
    /// one.
    pub open spec fn wf(&self) -> bool {
        fees_in_range(self.protocol_fee_percent, self.lp_fee_percent)
    }

    /// Fee parameters, refused unless the two rates sum to less than one.
    pub fn new(
        protocol_fee_recipient: String,
        protocol_fee_percent: Decimal,
        lp_fee_percent: Decimal,
    ) -> (r: Result<Fees, ContractError>)
        ensures
            fees_in_range(protocol_fee_percent, lp_fee_percent) ==> r is Ok && r->Ok_0.wf()
                && r->Ok_0@ == (FeesView {
                protocol_fee_recipient: protocol_fee_recipient@,
                protocol_fee_percent,
                lp_fee_percent,
            }),
            !fees_in_range(protocol_fee_percent, lp_fee_percent) ==> r is Err && r->Err_0
                == ContractError::Generic,
    {
        if protocol_fee_percent.atomics < DECIMAL_FRACTIONAL && lp_fee_percent.atomics
            < DECIMAL_FRACTIONAL - protocol_fee_percent.atomics {
            Ok(Fees { protocol_fee_recipient, protocol_fee_percent, lp_fee_percent })
        } else {
            Err(ContractError::Generic)
        }
    }
}

impl Clone for Fees {
    fn clone(&self) -> (r: Self)
        ensures
            r@ == self@,
    {
        Fees {
            protocol_fee_recipient: self.protocol_fee_recipient.clone(),
            protocol_fee_percent: self.protocol_fee_percent,
            lp_fee_percent: self.lp_fee_percent,
        }
    }
}

/// A pool's configuration: the pair's identity, the factory and the fees.
#[derive(Debug)]
pub struct Config {
    pub pair_info: PairInfo,
    pub factory_addr: String,
    pub fees: Fees,
}

/// The mathematical value of a [`Config`].
pub struct ConfigView {
    pub pair_info: PairInfoView,
    pub factory_addr: Seq<char>,
    pub fees: FeesView,
}

impl View for Config {
    type V = ConfigView;

    open spec fn view(&self) -> ConfigView {
        ConfigView {
            pair_info: self.pair_info@,
            factory_addr: self.factory_addr@,
            fees: self.fees@,
        }
    }
}

impl Clone for Config {
    fn clone(&self) -> (r: Self)
        ensures
            r@ == self@,
    {
        Config {
            pair_info: self.pair_info.clone(),
            factory_addr: self.factory_addr.clone(),
            fees: self.fees.clone(),
        }
    }
}

/// The reserve ledger: what the pool counts as its holdings of the two
/// assets. It is kept by the pool's own bookkeeping, not read from the
/// assets' balances, and every price is computed from it.
#[derive(Debug)]
pub struct Liquidity {
    pub token_a: Asset,
    pub token_b: Asset,
}

/// The mathematical value of a [`Liquidity`].
pub struct LiquidityView {
    pub token_a: AssetView,
    pub token_b: AssetView,
}

impl View for Liquidity {
    type V = LiquidityView;

    open spec fn view(&self) -> LiquidityView {
        LiquidityView { token_a: self.token_a@, token_b: self.token_b@ }
    }
}

impl Clone for Liquidity {
    fn clone(&self) -> (r: Self)
        ensures
            r@ == self@,
    {
        Liquidity { token_a: self.token_a.clone(), token_b: self.token_b.clone() }
    }
}

impl Liquidity {
    /// An empty ledger for the two assets.
    pub fn new(asset_infos: &[AssetInfo; 2]) -> (r: Liquidity)
        ensures
            r@.token_a == (AssetView { info: asset_infos[0]@, amount: 0 }),
            r@.token_b == (AssetView { info: asset_infos[1]@, amount: 0 }),
    {
        Liquidity {
            token_a: Asset { info: asset_infos[0].clone(), amount: 0 },
            token_b: Asset { info: asset_infos[1].clone(), amount: 0 },
        }
    }

    /// The ledger with other amounts and the same two assets.
    pub open spec fn with_amounts(self, amount_a: u128, amount_b: u128) -> LiquidityView {
        LiquidityView {
            token_a: AssetView { info: self.token_a.info@, amount: amount_a },
            token_b: AssetView { info: self.token_b.info@, amount: amount_b },
        }
    }
}

impl Config {
    /// The invariant of a configuration: the pair's two assets differ and
    /// the fee rates sum to less than one. Creating a pool
    /// establishes it and provisioning the liquidity token keeps it.
    pub open spec fn wf(&self) -> bool {
        self.pair_info.wf() && self.fees.wf()
    }

    /// The ledger counts the pair's two assets, in the pair's order.
    pub open spec fn keys(&self, liquidity: &Liquidity) -> bool {
        &&& liquidity.token_a.info@ == self.pair_info.asset_infos[0]@
        &&& liquidity.token_b.info@ == self.pair_info.asset_infos[1]@
    }

    /// Tells whether the ledger counts the pair's two assets, in order.
    pub fn is_keyed_by(&self, liquidity: &Liquidity) -> (r: bool)
        ensures
            r == self.keys(liquidity),
    {
        liquidity.token_a.info == self.pair_info.asset_infos[0] && liquidity.token_b.info
            == self.pair_info.asset_infos[1]
    }
}

} // verus!
