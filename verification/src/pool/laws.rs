use crate::asset::Asset;
use crate::decimal::Decimal;
use crate::pair::{limit_of, meets_minimum, SwapParams};
use crate::pool::contract::{
    deposit_for, deposit_of, provide_liquidity_outcome, remove_liquidity_outcome, reply_outcome,
    swap_outcome, withdrawal_of, ProvideLiquidityResponseView, SwapResponseView,
};
use crate::pool::error::ContractError;
use crate::pool::math::{
    after_fee, fee_units, lemma_after_fee_bounded, lemma_curve_output_bounded, lemma_fee_bounded,
    lemma_floor_product, lemma_quotient_bounds, lemma_swap_amounts_bounded, protocol_fee_of,
    swap_amounts_of, SwapAmounts, FEE_DECIMAL_PRECISION, FEE_UNIT,
};
use crate::pool::state::{fees_in_range, Config, ConfigView, Liquidity, LiquidityView};
use crate::utils::MessageInfo;
use vstd::prelude::*;

verus! {

/// The liquidity token is provisioned once: after a report that was
/// accepted, every further report is refused as unauthorized, whatever it
/// brings, an address or none that could be read.
pub proof fn lemma_reply_only_once(
    config: ConfigView,
    first: Option<Seq<char>>,
    first_ok: bool,
    second: Option<Seq<char>>,
    second_ok: bool,
)
    ensures
        reply_outcome(config, first, first_ok) matches Ok(stored) ==> reply_outcome(
            stored,
            second,
            second_ok,
        ) == Err::<ConfigView, ContractError>(ContractError::Unauthorized),
{
}

/// A swap never drives a reserve below zero nor past what 128 bits hold:
/// the offer side grows by exactly the offer less the protocol fee, and the
/// ask side shrinks by exactly what is paid out, which it held.
pub proof fn lemma_swap_keeps_reserves(
    config: &Config,
    liquidity: &Liquidity,
    info: &MessageInfo,
    params: &SwapParams,
)
    ensures
        swap_outcome(config, liquidity, info, params) matches Ok((ledger, response)) ==> {
            let offer_is_first = params.offer_asset.info@ == config.pair_info.asset_infos[0]@;
            let credited = response.token_in_amount - response.protocol_fee_amount;
            &&& response.protocol_fee_amount <= response.token_in_amount
            &&& offer_is_first ==> ledger.token_a.amount == liquidity.token_a.amount + credited
                && ledger.token_b.amount == liquidity.token_b.amount - response.token_out_amount
            &&& !offer_is_first ==> ledger.token_b.amount == liquidity.token_b.amount + credited
                && ledger.token_a.amount == liquidity.token_a.amount - response.token_out_amount
        },
{
    if let Ok((ledger, response)) = swap_outcome(config, liquidity, info, params) {
        let offer_is_first = params.offer_asset.info@ == config.pair_info.asset_infos[0]@;
        let offer_reserve = if offer_is_first {
            liquidity.token_a.amount
        } else {
            liquidity.token_b.amount
        };
        let ask_reserve = if offer_is_first {
            liquidity.token_b.amount
        } else {
            liquidity.token_a.amount
        };
        lemma_swap_amounts_bounded(
            params.offer_asset.amount,
            offer_reserve,
            ask_reserve,
            config.fees.protocol_fee_percent,
            config.fees.lp_fee_percent,
        );
    }
}

/// A swap that would pay less than the caller's minimum is refused as
/// slippage. This holds of every swap that gets as far as its amounts, the
/// liquidity token existing, the funds backing the offer and the offer
/// being of the pair, and whose spread is absent or can be read; a spread
/// that cannot be read is refused as such before any limit is applied.
pub proof fn lemma_swap_below_minimum(
    config: &Config,
    liquidity: &Liquidity,
    info: &MessageInfo,
    params: &SwapParams,
    minimum: Decimal,
)
    requires
        config.pair_info.token_is_set(),
        config.keys(liquidity),
        params.offer_asset.native_balance_sent(info.funds@),
        params.offer_asset.info@ == config.pair_info.asset_infos[0]@ || params.offer_asset.info@
            == config.pair_info.asset_infos[1]@,
        limit_of(params.min_output_amount) == Ok::<Option<Decimal>, ContractError>(
            Some(minimum),
        ),
        limit_of(params.max_spread) is Ok,
        swap_amounts_of(
            params.offer_asset.amount,
            reserves_facing(config, liquidity, params).0,
            reserves_facing(config, liquidity, params).1,
            config.fees.protocol_fee_percent,
            config.fees.lp_fee_percent,
        ) is Ok,
        !meets_minimum(
            swap_amounts_of(
                params.offer_asset.amount,
                reserves_facing(config, liquidity, params).0,
                reserves_facing(config, liquidity, params).1,
                config.fees.protocol_fee_percent,
                config.fees.lp_fee_percent,
            )->Ok_0.net_output,
            minimum,
        ),
    ensures
        swap_outcome(config, liquidity, info, params) == Err::<
            (LiquidityView, SwapResponseView),
            ContractError,
        >(ContractError::SlippageExceeded),
{
}

/// A deposit never drives a reserve past what 128 bits hold: each reserve
/// grows by exactly the amount that the response reports.
pub proof fn lemma_provide_keeps_reserves(
    config: &Config,
    liquidity: &Liquidity,
    info: &MessageInfo,
    assets: &[Asset; 2],
    addresses_ok: [bool; 2],
    lp_token_supply: u128,
)
    ensures
        provide_liquidity_outcome(
            config,
            liquidity,
            info,
            assets,
            addresses_ok,
            lp_token_supply,
        ) matches Ok((ledger, response)) ==> {
            &&& ledger.token_a.amount == liquidity.token_a.amount + response.token_1_amount
            &&& ledger.token_b.amount == liquidity.token_b.amount + response.token_2_amount
        },
{
}

/// A withdrawal never drives a reserve below zero: each reserve shrinks by
/// exactly the amount that the response reports, which it held.
pub proof fn lemma_remove_keeps_reserves(
    config: &Config,
    liquidity: &Liquidity,
    info: &MessageInfo,
    amount: u128,
    lp_token_balance: u128,
    lp_token_supply: u128,
)
    ensures
        remove_liquidity_outcome(
            config,
            liquidity,
            info,
            amount,
            lp_token_balance,
            lp_token_supply,
        ) matches Ok((ledger, response)) ==> {
            &&& ledger.token_a.amount == liquidity.token_a.amount - response.token1_returned
            &&& ledger.token_b.amount == liquidity.token_b.amount - response.token2_returned
        },
{
}

/// A withdrawal that asks for more liquidity tokens than the caller holds
/// is refused, and names what was held and what was asked.
pub proof fn lemma_remove_beyond_balance(
    config: &Config,
    liquidity: &Liquidity,
    info: &MessageInfo,
    amount: u128,
    lp_token_balance: u128,
    lp_token_supply: u128,
)
    requires
        config.pair_info.token_is_set(),
        amount > lp_token_balance,
    ensures
        remove_liquidity_outcome(
            config,
            liquidity,
            info,
            amount,
            lp_token_balance,
            lp_token_supply,
        ) is Err,
        remove_liquidity_outcome(
            config,
            liquidity,
            info,
            amount,
            lp_token_balance,
            lp_token_supply,
        )->Err_0 == (ContractError::InsufficientBalance {
            available: lp_token_balance,
            requested: amount,
        }),
{
}

/// A deposit of nothing is refused: where the pool's liquidity token
/// exists, the two assets are valid and are the pair's, and the attached
/// funds back them, amounts that are both zero are an invalid zero amount.
pub proof fn lemma_provide_nothing(
    config: &Config,
    liquidity: &Liquidity,
    info: &MessageInfo,
    assets: &[Asset; 2],
    addresses_ok: [bool; 2],
    lp_token_supply: u128,
)
    requires
        config.pair_info.token_is_set(),
        config.keys(liquidity),
        assets[0].info.is_valid(addresses_ok[0]),
        assets[1].info.is_valid(addresses_ok[1]),
        assets[0].native_balance_sent(info.funds@),
        assets[1].native_balance_sent(info.funds@),
        deposit_for(assets, config.pair_info.asset_infos[0]@) is Some,
        deposit_for(assets, config.pair_info.asset_infos[1]@) is Some,
        assets[0].amount == 0,
        assets[1].amount == 0,
    ensures
        provide_liquidity_outcome(config, liquidity, info, assets, addresses_ok, lp_token_supply)
            == Err::<(LiquidityView, ProvideLiquidityResponseView), ContractError>(
            ContractError::InvalidZeroAmount,
        ),
{
}

/// A deposit whose native amount the attached funds do not back is
/// refused: where the pool's liquidity token exists and the two assets are
/// valid, it is a native token mismatch.
pub proof fn lemma_provide_unbacked(
    config: &Config,
    liquidity: &Liquidity,
    info: &MessageInfo,
    assets: &[Asset; 2],
    addresses_ok: [bool; 2],
    lp_token_supply: u128,
)
    requires
        config.pair_info.token_is_set(),
        assets[0].info.is_valid(addresses_ok[0]),
        assets[1].info.is_valid(addresses_ok[1]),
        !assets[0].native_balance_sent(info.funds@) || !assets[1].native_balance_sent(
            info.funds@,
        ),
    ensures
        provide_liquidity_outcome(config, liquidity, info, assets, addresses_ok, lp_token_supply)
            == Err::<(LiquidityView, ProvideLiquidityResponseView), ContractError>(
            ContractError::NativeTokenMismatch,
        ),
{
}

/// Depositing and at once withdrawing what was minted gives back no more
/// than was deposited, of either asset. This holds of a pool whose reserves
/// are empty whenever no liquidity token is in supply.
pub proof fn lemma_withdrawal_within_deposit(
    deposit_a: u128,
    deposit_b: u128,
    reserve_a: u128,
    reserve_b: u128,
    supply: u128,
    balance: u128,
    new_supply: u128,
)
    requires
        supply == 0 ==> reserve_a == 0 && reserve_b == 0,
        deposit_of(deposit_a, deposit_b, reserve_a, reserve_b, supply) is Ok,
        new_supply == supply + deposit_of(
            deposit_a,
            deposit_b,
            reserve_a,
            reserve_b,
            supply,
        )->Ok_0.minted,
        withdrawal_of(
            deposit_of(deposit_a, deposit_b, reserve_a, reserve_b, supply)->Ok_0.minted,
            balance,
            new_supply,
            (reserve_a + deposit_a) as u128,
            (reserve_b + deposit_of(
                deposit_a,
                deposit_b,
                reserve_a,
                reserve_b,
                supply,
            )->Ok_0.required_b) as u128,
        ) is Ok,
    ensures
        ({
            let deposit = deposit_of(deposit_a, deposit_b, reserve_a, reserve_b, supply)->Ok_0;
            let returned = withdrawal_of(
                deposit.minted,
                balance,
                new_supply,
                (reserve_a + deposit_a) as u128,
                (reserve_b + deposit.required_b) as u128,
            )->Ok_0;
            &&& returned.0 <= deposit_a
            &&& returned.1 <= deposit.required_b
            &&& deposit.required_b <= deposit_b
        }),
{
    let deposit = deposit_of(deposit_a, deposit_b, reserve_a, reserve_b, supply)->Ok_0;
    let m = deposit.minted as int;
    let r = deposit.required_b as int;
    let a = deposit_a as int;
    let ra = reserve_a as int;
    let rb = reserve_b as int;
    let s = supply as int;
    let s2 = new_supply as int;
    assert(s2 > 0);
    if supply == 0 {
        assert(m == a && r == deposit_b);
        assert(m * a / s2 == a && m * r / s2 == r) by (nonlinear_arith)
            requires
                m == a,
                s2 == a,
                a > 0,
                r >= 0,
        ;
    } else {
        lemma_floor_product(a * s, ra);
        lemma_floor_product(a * rb, ra);
        assert(a * s >= 0 && a * rb >= 0) by (nonlinear_arith)
            requires
                a >= 0,
                s >= 0,
                rb >= 0,
        ;
        // What is minted is worth no more than the first deposit.
        assert(m * ra <= a * s);
        assert(m * (ra + a) <= a * s2) by (nonlinear_arith)
            requires
                m * ra <= a * s,
                s2 == s + m,
        ;
        lemma_quotient_bounds(a + 1, m * (ra + a), s2);
        assert((a + 1) * s2 > a * s2) by (nonlinear_arith)
            requires
                s2 > 0,
        ;
        // Nor more than what was taken of the second.
        let floored = (a * rb) / ra;
        assert(r >= floored);
        assert((r + 1) * ra > a * rb) by (nonlinear_arith)
            requires
                r >= floored,
                ra > 0,
                a * rb < floored * ra + ra,
        ;
        assert(m * rb < (r + 1) * s) by (nonlinear_arith)
            requires
                m * ra <= a * s,
                (r + 1) * ra > a * rb,
                ra > 0,
                s > 0,
                m >= 0,
                rb >= 0,
                r >= 0,
                a >= 0,
        ;
        assert(m * (rb + r) < (r + 1) * s2) by (nonlinear_arith)
            requires
                m * rb < (r + 1) * s,
                s2 == s + m,
                m >= 0,
        ;
        lemma_quotient_bounds(r + 1, m * (rb + r), s2);
    }
}

/// The same at the level of the two operations: a deposit followed at once
/// by the withdrawal of the liquidity tokens it minted returns no more than
/// the deposit took, of either asset. `after` is the ledger as the deposit
/// left it and `new_supply` the supply with the minted tokens in it.
pub proof fn lemma_provide_then_remove(
    config: &Config,
    before: &Liquidity,
    after: &Liquidity,
    info: &MessageInfo,
    assets: &[Asset; 2],
    addresses_ok: [bool; 2],
    supply: u128,
    balance: u128,
    new_supply: u128,
)
    requires
        supply == 0 ==> before.token_a.amount == 0 && before.token_b.amount == 0,
        provide_liquidity_outcome(config, before, info, assets, addresses_ok, supply) is Ok,
        after@ == provide_liquidity_outcome(
            config,
            before,
            info,
            assets,
            addresses_ok,
            supply,
        )->Ok_0.0,
        new_supply == supply + provide_liquidity_outcome(
            config,
            before,
            info,
            assets,
            addresses_ok,
            supply,
        )->Ok_0.1.liquidity_minted,
        remove_liquidity_outcome(
            config,
            after,
            info,
            provide_liquidity_outcome(
                config,
                before,
                info,
                assets,
                addresses_ok,
                supply,
            )->Ok_0.1.liquidity_minted,
            balance,
            new_supply,
        ) is Ok,
    ensures
        ({
            let deposit = provide_liquidity_outcome(
                config,
                before,
                info,
                assets,
                addresses_ok,
                supply,
            )->Ok_0.1;
            let withdrawal = remove_liquidity_outcome(
                config,
                after,
                info,
                deposit.liquidity_minted,
                balance,
                new_supply,
            )->Ok_0.1;
            &&& withdrawal.token1_returned <= deposit.token_1_amount
            &&& withdrawal.token2_returned <= deposit.token_2_amount
        }),
{
    let deposit = provide_liquidity_outcome(
        config,
        before,
        info,
        assets,
        addresses_ok,
        supply,
    )->Ok_0.1;
    let deposit_b = deposit_for(assets, config.pair_info.asset_infos[1]@)->Some_0;
    lemma_withdrawal_within_deposit(
        deposit.token_1_amount,
        deposit_b,
        before.token_a.amount,
        before.token_b.amount,
        supply,
        balance,
        new_supply,
    );
}

/// Where a liquidity token is worth no more than one unit of either asset,
/// that is where neither reserve exceeds the supply after the deposit,
/// depositing and at once withdrawing loses at most one unit of each asset.
pub proof fn lemma_withdrawal_loses_at_most_one(
    deposit_a: u128,
    deposit_b: u128,
    reserve_a: u128,
    reserve_b: u128,
    supply: u128,
    balance: u128,
    new_supply: u128,
)
    requires
        supply == 0 ==> reserve_a == 0 && reserve_b == 0,
        reserve_a <= new_supply,
        reserve_b <= new_supply,
        deposit_of(deposit_a, deposit_b, reserve_a, reserve_b, supply) is Ok,
        new_supply == supply + deposit_of(
            deposit_a,
            deposit_b,
            reserve_a,
            reserve_b,
            supply,
        )->Ok_0.minted,
        withdrawal_of(
            deposit_of(deposit_a, deposit_b, reserve_a, reserve_b, supply)->Ok_0.minted,
            balance,
            new_supply,
            (reserve_a + deposit_a) as u128,
            (reserve_b + deposit_of(
                deposit_a,
                deposit_b,
                reserve_a,
                reserve_b,
                supply,
            )->Ok_0.required_b) as u128,
        ) is Ok,
    ensures
        ({
            let deposit = deposit_of(deposit_a, deposit_b, reserve_a, reserve_b, supply)->Ok_0;
            let returned = withdrawal_of(
                deposit.minted,
                balance,
                new_supply,
                (reserve_a + deposit_a) as u128,
                (reserve_b + deposit.required_b) as u128,
            )->Ok_0;
            &&& returned.0 + 1 >= deposit_a
            &&& returned.1 + 1 >= deposit.required_b
        }),
{
    let deposit = deposit_of(deposit_a, deposit_b, reserve_a, reserve_b, supply)->Ok_0;
    let m = deposit.minted as int;
    let r = deposit.required_b as int;
    let a = deposit_a as int;
    let ra = reserve_a as int;
    let rb = reserve_b as int;
    let s = supply as int;
    let s2 = new_supply as int;
    assert(s2 > 0);
    if supply == 0 {
        assert(m == a && r == deposit_b);
        assert(m * a / s2 == a && m * r / s2 == r) by (nonlinear_arith)
            requires
                m == a,
                s2 == a,
                a > 0,
                r >= 0,
        ;
    } else {
        lemma_floor_product(a * s, ra);
        lemma_floor_product(a * rb, ra);
        assert(a * s >= 0 && a * rb >= 0) by (nonlinear_arith)
            requires
                a >= 0,
                s >= 0,
                rb >= 0,
        ;
        assert(a * s < m * ra + ra);
        assert((a - 1) * s2 <= m * (ra + a)) by (nonlinear_arith)
            requires
                a * s < m * ra + ra,
                s2 == s + m,
                ra <= s2,
        ;
        lemma_quotient_bounds(a - 1, m * (ra + a), s2);
        let floored = (a * rb) / ra;
        if floored == 0 {
            assert(r == 1);
            assert(m * (rb + r) >= 0) by (nonlinear_arith)
                requires
                    m >= 0,
                    rb >= 0,
                    r >= 0,
            ;
            lemma_floor_product(m * (rb + r), s2);
        } else {
            assert(r == floored);
            assert(r * s <= m * rb + rb) by (nonlinear_arith)
                requires
                    r * ra <= a * rb,
                    a * s < m * ra + ra,
                    ra > 0,
                    s >= 0,
                    rb >= 0,
                    r >= 0,
                    m >= 0,
                    a >= 0,
            ;
            assert((r - 1) * s2 <= m * (rb + r)) by (nonlinear_arith)
                requires
                    r * s <= m * rb + rb,
                    s2 == s + m,
                    rb <= s2,
            ;
            lemma_quotient_bounds(r - 1, m * (rb + r), s2);
        }
    }
}

/// Depositing and at once withdrawing what was minted loses, of each
/// asset, at most what one liquidity token is worth after the deposit,
/// rounded up: any number of units that, times the supply after the
/// deposit, covers the asset's reserve after the deposit.
pub proof fn lemma_withdrawal_loss_bounded(
    deposit_a: u128,
    deposit_b: u128,
    reserve_a: u128,
    reserve_b: u128,
    supply: u128,
    balance: u128,
    new_supply: u128,
    loss_a: int,
    loss_b: int,
)
    requires
        supply == 0 ==> reserve_a == 0 && reserve_b == 0,
        deposit_of(deposit_a, deposit_b, reserve_a, reserve_b, supply) is Ok,
        new_supply == supply + deposit_of(
            deposit_a,
            deposit_b,
            reserve_a,
            reserve_b,
            supply,
        )->Ok_0.minted,
        withdrawal_of(
            deposit_of(deposit_a, deposit_b, reserve_a, reserve_b, supply)->Ok_0.minted,
            balance,
            new_supply,
            (reserve_a + deposit_a) as u128,
            (reserve_b + deposit_of(
                deposit_a,
                deposit_b,
                reserve_a,
                reserve_b,
                supply,
            )->Ok_0.required_b) as u128,
        ) is Ok,
        loss_a * new_supply >= reserve_a + deposit_a,
        loss_b * new_supply >= reserve_b + deposit_of(
            deposit_a,
            deposit_b,
            reserve_a,
            reserve_b,
            supply,
        )->Ok_0.required_b,
    ensures
        ({
            let deposit = deposit_of(deposit_a, deposit_b, reserve_a, reserve_b, supply)->Ok_0;
            let returned = withdrawal_of(
                deposit.minted,
                balance,
                new_supply,
                (reserve_a + deposit_a) as u128,
                (reserve_b + deposit.required_b) as u128,
            )->Ok_0;
            &&& returned.0 + loss_a >= deposit_a
            &&& returned.1 + loss_b >= deposit.required_b
        }),
{
    let deposit = deposit_of(deposit_a, deposit_b, reserve_a, reserve_b, supply)->Ok_0;
    let m = deposit.minted as int;
    let r = deposit.required_b as int;
    let a = deposit_a as int;
    let ra = reserve_a as int;
    let rb = reserve_b as int;
    let s = supply as int;
    let s2 = new_supply as int;
    assert(s2 > 0);
    assert(loss_a >= 0 && loss_b >= 0) by (nonlinear_arith)
        requires
            loss_a * s2 >= 0,
            loss_b * s2 >= 0,
            s2 > 0,
    ;
    if supply == 0 {
        assert(m == a && r == deposit_b);
        assert(m * a / s2 == a && m * r / s2 == r) by (nonlinear_arith)
            requires
                m == a,
                s2 == a,
                a > 0,
                r >= 0,
        ;
    } else {
        lemma_floor_product(a * s, ra);
        lemma_floor_product(a * rb, ra);
        assert(a * s >= 0 && a * rb >= 0) by (nonlinear_arith)
            requires
                a >= 0,
                s >= 0,
                rb >= 0,
        ;
        assert(a * s < m * ra + ra);
        assert((a - loss_a) * s2 <= m * (ra + a)) by (nonlinear_arith)
            requires
                a * s < m * ra + ra,
                s2 == s + m,
                loss_a * s2 >= ra + a,
                a >= 0,
        ;
        lemma_quotient_bounds(a - loss_a, m * (ra + a), s2);
        let floored = (a * rb) / ra;
        if floored == 0 {
            assert(r == 1);
            assert(loss_b >= 1) by (nonlinear_arith)
                requires
                    loss_b * s2 >= rb + 1,
                    rb >= 0,
                    s2 > 0,
            ;
            assert(m * (rb + r) >= 0) by (nonlinear_arith)
                requires
                    m >= 0,
                    rb >= 0,
                    r >= 0,
            ;
            lemma_floor_product(m * (rb + r), s2);
        } else {
            assert(r == floored);
            assert(r * s <= m * rb + rb) by (nonlinear_arith)
                requires
                    r * ra <= a * rb,
                    a * s < m * ra + ra,
                    ra > 0,
                    s >= 0,
                    rb >= 0,
                    r >= 0,
                    m >= 0,
                    a >= 0,
            ;
            assert((r - loss_b) * s2 <= m * (rb + r)) by (nonlinear_arith)
                requires
                    r * s <= m * rb + rb,
                    s2 == s + m,
                    loss_b * s2 >= rb + r,
                    r >= 0,
            ;
            lemma_quotient_bounds(r - loss_b, m * (rb + r), s2);
        }
    }
}

/// The same at the level of the two operations: a deposit followed at once
/// by the withdrawal of the liquidity tokens it minted loses, of each
/// asset, at most what one liquidity token is worth after the deposit,
/// rounded up. `after` is the ledger as the deposit left it and
/// `new_supply` the supply with the minted tokens in it.
pub proof fn lemma_provide_then_remove_loss(
    config: &Config,
    before: &Liquidity,
    after: &Liquidity,
    info: &MessageInfo,
    assets: &[Asset; 2],
    addresses_ok: [bool; 2],
    supply: u128,
    balance: u128,
    new_supply: u128,
    loss_a: int,
    loss_b: int,
)
    requires
        loss_a * new_supply >= after.token_a.amount,
        loss_b * new_supply >= after.token_b.amount,
        supply == 0 ==> before.token_a.amount == 0 && before.token_b.amount == 0,
        provide_liquidity_outcome(config, before, info, assets, addresses_ok, supply) is Ok,
        after@ == provide_liquidity_outcome(
            config,
            before,
            info,
            assets,
            addresses_ok,
            supply,
        )->Ok_0.0,
        new_supply == supply + provide_liquidity_outcome(
            config,
            before,
            info,
            assets,
            addresses_ok,
            supply,
        )->Ok_0.1.liquidity_minted,
        remove_liquidity_outcome(
            config,
            after,
            info,
            provide_liquidity_outcome(
                config,
                before,
                info,
                assets,
                addresses_ok,
                supply,
            )->Ok_0.1.liquidity_minted,
            balance,
            new_supply,
        ) is Ok,
    ensures
        ({
            let deposit = provide_liquidity_outcome(
                config,
                before,
                info,
                assets,
                addresses_ok,
                supply,
            )->Ok_0.1;
            let withdrawal = remove_liquidity_outcome(
                config,
                after,
                info,
                deposit.liquidity_minted,
                balance,
                new_supply,
            )->Ok_0.1;
            &&& withdrawal.token1_returned + loss_a >= deposit.token_1_amount
            &&& withdrawal.token2_returned + loss_b >= deposit.token_2_amount
        }),
{
    let deposit = provide_liquidity_outcome(
        config,
        before,
        info,
        assets,
        addresses_ok,
        supply,
    )->Ok_0.1;
    let deposit_b = deposit_for(assets, config.pair_info.asset_infos[1]@)->Some_0;
    lemma_withdrawal_loss_bounded(
        deposit.token_1_amount,
        deposit_b,
        before.token_a.amount,
        before.token_b.amount,
        supply,
        balance,
        new_supply,
        loss_a,
        loss_b,
    );
}

/// Depositing and at once withdrawing what was minted loses nothing of
/// the first asset where the deposit mints a whole number of liquidity
/// tokens without rounding, and nothing of the second where, besides, the
/// amount taken of it is the pool's ratio without rounding.
pub proof fn lemma_withdrawal_exact(
    deposit_a: u128,
    deposit_b: u128,
    reserve_a: u128,
    reserve_b: u128,
    supply: u128,
    balance: u128,
    new_supply: u128,
)
    requires
        supply == 0 ==> reserve_a == 0 && reserve_b == 0,
        deposit_of(deposit_a, deposit_b, reserve_a, reserve_b, supply) is Ok,
        new_supply == supply + deposit_of(
            deposit_a,
            deposit_b,
            reserve_a,
            reserve_b,
            supply,
        )->Ok_0.minted,
        withdrawal_of(
            deposit_of(deposit_a, deposit_b, reserve_a, reserve_b, supply)->Ok_0.minted,
            balance,
            new_supply,
            (reserve_a + deposit_a) as u128,
            (reserve_b + deposit_of(
                deposit_a,
                deposit_b,
                reserve_a,
                reserve_b,
                supply,
            )->Ok_0.required_b) as u128,
        ) is Ok,
        supply > 0,
        (deposit_a * supply) % (reserve_a as int) == 0,
    ensures
        ({
            let deposit = deposit_of(deposit_a, deposit_b, reserve_a, reserve_b, supply)->Ok_0;
            let returned = withdrawal_of(
                deposit.minted,
                balance,
                new_supply,
                (reserve_a + deposit_a) as u128,
                (reserve_b + deposit.required_b) as u128,
            )->Ok_0;
            &&& returned.0 == deposit_a
            &&& (deposit_a * reserve_b) % (reserve_a as int) == 0 && deposit_a * reserve_b
                >= reserve_a ==> returned.1 == deposit.required_b
        }),
{
    let deposit = deposit_of(deposit_a, deposit_b, reserve_a, reserve_b, supply)->Ok_0;
    let m = deposit.minted as int;
    let r = deposit.required_b as int;
    let a = deposit_a as int;
    let ra = reserve_a as int;
    let rb = reserve_b as int;
    let s = supply as int;
    let s2 = new_supply as int;
    assert(s2 > 0);
    assert(a * s >= 0 && a * rb >= 0) by (nonlinear_arith)
        requires
            a >= 0,
            s >= 0,
            rb >= 0,
    ;
    assert(m * ra == a * s) by (nonlinear_arith)
        requires
            m == (a * s) / ra,
            (a * s) % ra == 0,
            ra > 0,
    ;
    assert(m * (ra + a) == a * s2) by (nonlinear_arith)
        requires
            m * ra == a * s,
            s2 == s + m,
    ;
    assert((a * s2) / s2 == a) by (nonlinear_arith)
        requires
            s2 > 0,
    ;
    if (a * rb) % ra == 0 && a * rb >= ra {
        let floored = (a * rb) / ra;
        assert(floored * ra == a * rb && floored >= 1) by (nonlinear_arith)
            requires
                floored == (a * rb) / ra,
                (a * rb) % ra == 0,
                a * rb >= ra,
                ra > 0,
        ;
        assert(r == floored);
        assert(m * rb == s * r) by (nonlinear_arith)
            requires
                m * ra == a * s,
                r * ra == a * rb,
                ra > 0,
        ;
        assert(m * (rb + r) == r * s2) by (nonlinear_arith)
            requires
                m * rb == s * r,
                s2 == s + m,
        ;
        assert((r * s2) / s2 == r) by (nonlinear_arith)
            requires
                s2 > 0,
        ;
    }
}

/// What the liquidity providers' fee holds back from the curve: the net
/// input of a swap less what the curve prices of it.
pub open spec fn curve_withheld(net_input: u128, lp_fee_percent: Decimal) -> int {
    net_input - after_fee(net_input, fee_units(lp_fee_percent))
}

/// The first swap of a round trip, `amount` against the two reserves.
pub open spec fn trip_there(
    amount: u128,
    offer_reserve: u128,
    ask_reserve: u128,
    protocol_fee_percent: Decimal,
    lp_fee_percent: Decimal,
) -> SwapAmounts {
    swap_amounts_of(
        amount,
        offer_reserve,
        ask_reserve,
        protocol_fee_percent,
        lp_fee_percent,
    )->Ok_0
}

/// The second swap of a round trip: what the first paid out, against the
/// reserves as the first left them.
pub open spec fn trip_back(
    amount: u128,
    offer_reserve: u128,
    ask_reserve: u128,
    protocol_fee_percent: Decimal,
    lp_fee_percent: Decimal,
) -> SwapAmounts {
    let first = trip_there(
        amount,
        offer_reserve,
        ask_reserve,
        protocol_fee_percent,
        lp_fee_percent,
    );
    swap_amounts_of(
        first.net_output,
        (ask_reserve - first.net_output) as u128,
        (offer_reserve + first.net_input) as u128,
        protocol_fee_percent,
        lp_fee_percent,
    )->Ok_0
}

/// The divisor of the curve on the way back: the reserve of the asset that
/// comes back in, with what the curve prices of it.
pub open spec fn trip_back_divisor(
    amount: u128,
    offer_reserve: u128,
    ask_reserve: u128,
    protocol_fee_percent: Decimal,
    lp_fee_percent: Decimal,
) -> int {
    let first = trip_there(
        amount,
        offer_reserve,
        ask_reserve,
        protocol_fee_percent,
        lp_fee_percent,
    );
    let second = trip_back(
        amount,
        offer_reserve,
        ask_reserve,
        protocol_fee_percent,
        lp_fee_percent,
    );
    ask_reserve - first.net_output + after_fee(second.net_input, fee_units(lp_fee_percent))
}

/// What the curve's rounding gives away on the way there: the remainder
/// of its division, on the scale of the product of the reserves.
pub open spec fn trip_rounding(
    amount: u128,
    offer_reserve: u128,
    ask_reserve: u128,
    protocol_fee_percent: Decimal,
    lp_fee_percent: Decimal,
) -> int {
    let first = trip_there(
        amount,
        offer_reserve,
        ask_reserve,
        protocol_fee_percent,
        lp_fee_percent,
    );
    (offer_reserve * ask_reserve) % (offer_reserve + after_fee(
        first.net_input,
        fee_units(lp_fee_percent),
    ))
}

/// What the fees of a round trip weigh on the scale of the product of the
/// reserves, but for the two that are paid in the first asset. Each fee
/// counts times the reserve it is priced against: the protocol fee of the
/// way back and what the curve holds back of the way back, times the
/// offer reserve before the trip; what the curve holds back of the way
/// there, times what the curve keeps of the ask reserve; the output-side
/// fee of the way there, times the offer reserve after it.
pub open spec fn trip_fees(
    amount: u128,
    offer_reserve: u128,
    ask_reserve: u128,
    protocol_fee_percent: Decimal,
    lp_fee_percent: Decimal,
) -> int {
    let first = trip_there(
        amount,
        offer_reserve,
        ask_reserve,
        protocol_fee_percent,
        lp_fee_percent,
    );
    let second = trip_back(
        amount,
        offer_reserve,
        ask_reserve,
        protocol_fee_percent,
        lp_fee_percent,
    );
    offer_reserve * (second.protocol_fee + curve_withheld(second.net_input, lp_fee_percent))
        + curve_withheld(first.net_input, lp_fee_percent) * (ask_reserve - first.gross_output)
        + (offer_reserve + first.net_input) * first.output_fee
}

/// Swapping an amount of one asset for the other and at once swapping what
/// was paid out back: the curve pays back at most what the first swap took
/// into the offer reserve plus a margin, exactly when that margin, times
/// the divisor of the curve on the way back, makes up with the fees of the
/// trip for what the rounding of the way there gave away. The margin may
/// be negative.
pub proof fn lemma_round_trip_margin(
    amount: u128,
    offer_reserve: u128,
    ask_reserve: u128,
    protocol_fee_percent: Decimal,
    lp_fee_percent: Decimal,
    margin: int,
)
    requires
        swap_amounts_of(
            amount,
            offer_reserve,
            ask_reserve,
            protocol_fee_percent,
            lp_fee_percent,
        ) is Ok,
        ({
            let first = swap_amounts_of(
                amount,
                offer_reserve,
                ask_reserve,
                protocol_fee_percent,
                lp_fee_percent,
            )->Ok_0;
            &&& offer_reserve + first.net_input <= u128::MAX
            &&& swap_amounts_of(
                first.net_output,
                (ask_reserve - first.net_output) as u128,
                (offer_reserve + first.net_input) as u128,
                protocol_fee_percent,
                lp_fee_percent,
            ) is Ok
        }),
    ensures
        trip_back(
            amount,
            offer_reserve,
            ask_reserve,
            protocol_fee_percent,
            lp_fee_percent,
        ).gross_output <= trip_there(
            amount,
            offer_reserve,
            ask_reserve,
            protocol_fee_percent,
            lp_fee_percent,
        ).net_input + margin <==> trip_rounding(
            amount,
            offer_reserve,
            ask_reserve,
            protocol_fee_percent,
            lp_fee_percent,
        ) <= margin * trip_back_divisor(
            amount,
            offer_reserve,
            ask_reserve,
            protocol_fee_percent,
            lp_fee_percent,
        ) + trip_fees(amount, offer_reserve, ask_reserve, protocol_fee_percent, lp_fee_percent),
{
    let first = trip_there(
        amount,
        offer_reserve,
        ask_reserve,
        protocol_fee_percent,
        lp_fee_percent,
    );
    lemma_swap_amounts_bounded(
        amount,
        offer_reserve,
        ask_reserve,
        protocol_fee_percent,
        lp_fee_percent,
    );
    let back_offer_reserve = (ask_reserve - first.net_output) as u128;
    let back_ask_reserve = (offer_reserve + first.net_input) as u128;
    let second = trip_back(
        amount,
        offer_reserve,
        ask_reserve,
        protocol_fee_percent,
        lp_fee_percent,
    );
    lemma_swap_amounts_bounded(
        first.net_output,
        back_offer_reserve,
        back_ask_reserve,
        protocol_fee_percent,
        lp_fee_percent,
    );
    let units = fee_units(lp_fee_percent);
    lemma_after_fee_bounded(first.net_input, units);
    lemma_after_fee_bounded(second.net_input, units);

    let ra = offer_reserve as int;
    let rb = ask_reserve as int;
    let n1 = first.net_input as int;
    let of1 = first.output_fee as int;
    // What the curve prices on the way there, what it holds back, and what
    // it keeps of the ask reserve.
    let c1 = after_fee(first.net_input, units);
    let w1 = n1 - c1;
    let d = ra + c1;
    let k = ra * rb;
    let kept = k / d;
    let rest = k % d;
    // The same on the way back.
    let pf2 = second.protocol_fee as int;
    let c2 = after_fee(second.net_input, units);
    let w2 = second.net_input - c2;
    let ro2 = back_offer_reserve as int;
    let ra2 = back_ask_reserve as int;
    let dn = ro2 + c2;
    let kept_back = (ro2 * ra2) / dn;

    assert(k >= 0) by (nonlinear_arith)
        requires
            k == ra * rb,
            ra >= 0,
            rb >= 0,
    ;
    assert(k == d * kept + rest) by (nonlinear_arith)
        requires
            kept == k / d,
            rest == k % d,
            d > 0,
    ;
    lemma_curve_output_bounded(c1, offer_reserve, ask_reserve);
    lemma_curve_output_bounded(c2, back_offer_reserve, back_ask_reserve);
    assert(first.gross_output == rb - kept);
    assert(second.gross_output == ra2 - kept_back);
    assert(ro2 == kept + of1);
    assert(ra2 == d + w1);
    assert(dn == rb - pf2 - w2);
    assert(dn > 0);
    // The product of the reserves on the way back, and the old offer
    // reserve times the divisor, both against the old product.
    assert(ro2 * ra2 == k - rest + w1 * kept + ra2 * of1) by (nonlinear_arith)
        requires
            ro2 == kept + of1,
            ra2 == d + w1,
            k == d * kept + rest,
    ;
    assert(ra * dn == k - ra * (pf2 + w2)) by (nonlinear_arith)
        requires
            dn == rb - pf2 - w2,
            k == ra * rb,
    ;
    let least = ra - margin;
    assert(least * dn == ra * dn - margin * dn) by (nonlinear_arith)
        requires
            least == ra - margin,
    ;
    lemma_quotient_bounds(least, ro2 * ra2, dn);
    assert(second.gross_output <= n1 + margin <==> kept_back >= least);
    assert(trip_rounding(amount, offer_reserve, ask_reserve, protocol_fee_percent, lp_fee_percent)
        == rest);
    assert(trip_back_divisor(
        amount,
        offer_reserve,
        ask_reserve,
        protocol_fee_percent,
        lp_fee_percent,
    ) == dn);
    assert(trip_fees(amount, offer_reserve, ask_reserve, protocol_fee_percent, lp_fee_percent)
        == ra * (pf2 + w2) + w1 * kept + ra2 * of1);
}

/// Swapping an amount of one asset for the other and at once swapping what
/// was paid out back returns strictly less than the amount exactly when
/// the fees of the trip outweigh the rounding of the curve: when what the
/// rounding of the way there gave away, and one divisor of the curve on
/// the way back for the unit that its rounding can give away, is covered
/// by the fees of the trip, those paid in the first asset, the protocol
/// fee of the way there and the output-side fee of the way back, counting
/// times that divisor. Where the fees weigh less, as they do where there
/// are none, the trip returns the amount or more.
pub proof fn lemma_round_trip_returns_less(
    amount: u128,
    offer_reserve: u128,
    ask_reserve: u128,
    protocol_fee_percent: Decimal,
    lp_fee_percent: Decimal,
)
    requires
        swap_amounts_of(
            amount,
            offer_reserve,
            ask_reserve,
            protocol_fee_percent,
            lp_fee_percent,
        ) is Ok,
        ({
            let first = swap_amounts_of(
                amount,
                offer_reserve,
                ask_reserve,
                protocol_fee_percent,
                lp_fee_percent,
            )->Ok_0;
            &&& offer_reserve + first.net_input <= u128::MAX
            &&& swap_amounts_of(
                first.net_output,
                (ask_reserve - first.net_output) as u128,
                (offer_reserve + first.net_input) as u128,
                protocol_fee_percent,
                lp_fee_percent,
            ) is Ok
        }),
    ensures
        trip_back(
            amount,
            offer_reserve,
            ask_reserve,
            protocol_fee_percent,
            lp_fee_percent,
        ).net_output < amount <==> round_trip_loses(
            amount,
            offer_reserve,
            ask_reserve,
            protocol_fee_percent,
            lp_fee_percent,
        ),
{
    let first = trip_there(
        amount,
        offer_reserve,
        ask_reserve,
        protocol_fee_percent,
        lp_fee_percent,
    );
    let second = trip_back(
        amount,
        offer_reserve,
        ask_reserve,
        protocol_fee_percent,
        lp_fee_percent,
    );
    let divisor = trip_back_divisor(
        amount,
        offer_reserve,
        ask_reserve,
        protocol_fee_percent,
        lp_fee_percent,
    );
    lemma_swap_amounts_bounded(
        amount,
        offer_reserve,
        ask_reserve,
        protocol_fee_percent,
        lp_fee_percent,
    );
    lemma_swap_amounts_bounded(
        first.net_output,
        (ask_reserve - first.net_output) as u128,
        (offer_reserve + first.net_input) as u128,
        protocol_fee_percent,
        lp_fee_percent,
    );
    let margin = first.protocol_fee + second.output_fee - 1;
    lemma_round_trip_margin(
        amount,
        offer_reserve,
        ask_reserve,
        protocol_fee_percent,
        lp_fee_percent,
        margin,
    );
    assert(margin * divisor == (first.protocol_fee + second.output_fee) * divisor - divisor)
        by (nonlinear_arith)
        requires
            margin == first.protocol_fee + second.output_fee - 1,
    ;
}

/// The fees of a round trip outweigh the rounding of the curve.
pub open spec fn round_trip_loses(
    amount: u128,
    offer_reserve: u128,
    ask_reserve: u128,
    protocol_fee_percent: Decimal,
    lp_fee_percent: Decimal,
) -> bool {
    let first = trip_there(
        amount,
        offer_reserve,
        ask_reserve,
        protocol_fee_percent,
        lp_fee_percent,
    );
    let second = trip_back(
        amount,
        offer_reserve,
        ask_reserve,
        protocol_fee_percent,
        lp_fee_percent,
    );
    let divisor = trip_back_divisor(
        amount,
        offer_reserve,
        ask_reserve,
        protocol_fee_percent,
        lp_fee_percent,
    );
    trip_rounding(amount, offer_reserve, ask_reserve, protocol_fee_percent, lp_fee_percent)
        + divisor <= (first.protocol_fee + second.output_fee) * divisor + trip_fees(
        amount,
        offer_reserve,
        ask_reserve,
        protocol_fee_percent,
        lp_fee_percent,
    )
}

/// For a fee rate of whole ten-thousandths the rounding of the rate takes
/// nothing away: the protocol fee is the amount times the rate, floored.
pub proof fn lemma_protocol_fee_of_whole_units(input_amount: u128, fee_percent: Decimal)
    requires
        fee_percent.atomics % FEE_UNIT == 0,
        protocol_fee_of(input_amount, fee_percent) is Ok,
    ensures
        protocol_fee_of(input_amount, fee_percent)->Ok_0 == input_amount * fee_percent.atomics / (
        FEE_DECIMAL_PRECISION as int),
{
    let units = fee_units(fee_percent);
    let unit = FEE_UNIT as int;
    let x = input_amount as int;
    assert(fee_percent.atomics == units * unit);
    assert(x * units >= 0) by (nonlinear_arith)
        requires
            x >= 0,
            units >= 0,
    ;
    assert((x * units) * unit == x * (units * unit)) by (nonlinear_arith);
    assert(10_000 * unit == FEE_DECIMAL_PRECISION);
    assert(((x * units) * unit) / (10_000 * unit) == (x * units) / 10_000) by (nonlinear_arith)
        requires
            unit > 0,
            x * units >= 0,
    ;
}

/// The reserve that a swap adds to and the reserve that it pays from, in
/// a pool whose ledger counts the pair's assets in the pair's order.
pub open spec fn reserves_facing(config: &Config, liquidity: &Liquidity, params: &SwapParams) -> (
    u128,
    u128,
) {
    if params.offer_asset.info@ == config.pair_info.asset_infos[0]@ {
        (liquidity.token_a.amount, liquidity.token_b.amount)
    } else {
        (liquidity.token_b.amount, liquidity.token_a.amount)
    }
}

/// The same of the operation: a swap followed at once by the swap of what
/// it paid out, in the other direction, returns strictly less than the
/// first swap offered exactly when the fees of the trip outweigh the
/// rounding of the curve. `after` is the ledger as the first swap left it.
pub proof fn lemma_swap_there_and_back(
    config: &Config,
    before: &Liquidity,
    after: &Liquidity,
    there_info: &MessageInfo,
    there: &SwapParams,
    back_info: &MessageInfo,
    back: &SwapParams,
)
    requires
        config.pair_info.wf(),
        swap_outcome(config, before, there_info, there) is Ok,
        after@ == swap_outcome(config, before, there_info, there)->Ok_0.0,
        back.offer_asset.info@ == (if there.offer_asset.info@
            == config.pair_info.asset_infos[0]@ {
            config.pair_info.asset_infos[1]@
        } else {
            config.pair_info.asset_infos[0]@
        }),
        back.offer_asset.amount == swap_outcome(
            config,
            before,
            there_info,
            there,
        )->Ok_0.1.token_out_amount,
        swap_outcome(config, after, back_info, back) is Ok,
    ensures
        swap_outcome(config, after, back_info, back)->Ok_0.1.token_out_amount
            < there.offer_asset.amount <==> round_trip_loses(
            there.offer_asset.amount,
            reserves_facing(config, before, there).0,
            reserves_facing(config, before, there).1,
            config.fees.protocol_fee_percent,
            config.fees.lp_fee_percent,
        ),
{
    let (offer_reserve, ask_reserve) = reserves_facing(config, before, there);
    lemma_swap_amounts_bounded(
        there.offer_asset.amount,
        offer_reserve,
        ask_reserve,
        config.fees.protocol_fee_percent,
        config.fees.lp_fee_percent,
    );
    lemma_round_trip_returns_less(
        there.offer_asset.amount,
        offer_reserve,
        ask_reserve,
        config.fees.protocol_fee_percent,
        config.fees.lp_fee_percent,
    );
}

/// A protocol fee at a rate of at most one is owed for every amount, and
/// takes at most the amount: the product is formed in full width and
/// cannot fault.
pub proof fn lemma_protocol_fee_owed(input_amount: u128, fee_percent: Decimal)
    requires
        fee_percent.atomics <= FEE_DECIMAL_PRECISION,
    ensures
        protocol_fee_of(input_amount, fee_percent) is Ok,
        protocol_fee_of(input_amount, fee_percent)->Ok_0 <= input_amount,
        fee_percent.atomics == 0 ==> protocol_fee_of(input_amount, fee_percent)->Ok_0 == 0,
{
    lemma_fee_bounded(input_amount, fee_units(fee_percent));
    if fee_percent.atomics == 0 {
        assert(fee_units(fee_percent) == 0);
        assert(input_amount * 0 == 0);
    }
}

/// With fee rates that sum to less than one the amounts of a
/// swap are owed whenever both reserves hold something, their product fits
/// 128 bits and the offer reserve can take the offer in.
pub proof fn lemma_swap_amounts_owed(
    offer_amount: u128,
    offer_reserve: u128,
    ask_reserve: u128,
    protocol_fee_percent: Decimal,
    lp_fee_percent: Decimal,
)
    requires
        fees_in_range(protocol_fee_percent, lp_fee_percent),
        offer_reserve > 0,
        ask_reserve > 0,
        offer_reserve * ask_reserve <= u128::MAX,
        offer_reserve + offer_amount <= u128::MAX,
    ensures
        swap_amounts_of(
            offer_amount,
            offer_reserve,
            ask_reserve,
            protocol_fee_percent,
            lp_fee_percent,
        ) is Ok,
{
    let protocol_units = fee_units(protocol_fee_percent);
    let lp_units = fee_units(lp_fee_percent);
    lemma_fee_bounded(offer_amount, protocol_units);
    let net_input = (offer_amount - protocol_fee_of(offer_amount, protocol_fee_percent)->Ok_0) as u128;
    lemma_after_fee_bounded(net_input, lp_units);
}

} // verus!
