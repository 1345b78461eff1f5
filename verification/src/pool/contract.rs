use crate::asset::{
    format_lp_token_name, lp_token_name_raw, uppercase_of, Asset, AssetInfo, AssetInfoView,
    AssetView,
};
use crate::decimal::Decimal;
use crate::pair::{
    ExecuteMsg, InstantiateMsg, LiquidityResponse, LiquidityResponseView, PairInfo,
    PairInfoResponse, PairInfoResponseView, PairInfoView, QueryMsg, SwapParams,
};
use crate::pool::error::ContractError;
use crate::pool::math::{compute_swap_amounts, swap_amounts_of};
use crate::pool::state::{
    fees_in_range, percent_to_rate, rate_of_percent, Config, ConfigView, Fees, FeesView,
    Liquidity, LiquidityView,
};
use crate::utils::{
    get_bank_transfer_to_msg, get_burn_from_msg, get_cw20_mint_msg, get_cw20_transfer_from_msg,
    get_payment_msg, msg_views, payment_msg, CosmosMsg, CosmosMsgView, MessageInfo,
};
use vstd::prelude::*;

verus! {

/// The reply id under which the liquidity token's instantiation reports
/// back.
pub const INSTANTIATE_TOKEN_REPLY_ID: u64 = 1;

/// What a withdrawal of liquidity returns to the host: the requests to
/// emit and the amounts moved.
#[derive(Debug)]
pub struct RemoveLiquidityResponse {
    pub messages: Vec<CosmosMsg>,
    pub liquidity_burned: u128,
    pub token1_returned: u128,
    pub token2_returned: u128,
}

/// The mathematical value of a [`RemoveLiquidityResponse`].
pub struct RemoveLiquidityResponseView {
    pub messages: Seq<CosmosMsgView>,
    pub liquidity_burned: u128,
    pub token1_returned: u128,
    pub token2_returned: u128,
}

impl View for RemoveLiquidityResponse {
    type V = RemoveLiquidityResponseView;

    open spec fn view(&self) -> RemoveLiquidityResponseView {
        RemoveLiquidityResponseView {
            messages: msg_views(self.messages@),
            liquidity_burned: self.liquidity_burned,
            token1_returned: self.token1_returned,
            token2_returned: self.token2_returned,
        }
    }
}

/// The share of a reserve that `amount` liquidity tokens stand for:
/// `floor(amount * reserve / supply)`.
pub open spec fn share_of(amount: u128, reserve: u128, supply: u128) -> Result<u128, ContractError> {
    if amount * reserve > u128::MAX || supply == 0 || amount * reserve / (supply as int)
        > reserve {
        Err(ContractError::ArithmeticError)
    } else {
        Ok((amount * reserve / (supply as int)) as u128)
    }
}

/// Computes the share of a reserve that `amount` liquidity tokens stand
/// for, refusing a share larger than the reserve.
pub fn get_share_amount(amount: u128, reserve: u128, supply: u128) -> (r: Result<
    u128,
    ContractError,
>)
    ensures
        r == share_of(amount, reserve, supply),
{
    let product = match amount.checked_mul(reserve) {
        Some(product) => product,
        None => { return Err(ContractError::ArithmeticError); },
    };
    let share = match product.checked_div(supply) {
        Some(share) => share,
        None => { return Err(ContractError::ArithmeticError); },
    };
    if share > reserve {
        return Err(ContractError::ArithmeticError);
    }
    Ok(share)
}

/// What a holder of `balance` liquidity tokens gets for handing back
/// `amount` of them: a share of each reserve.
pub open spec fn withdrawal_of(
    amount: u128,
    balance: u128,
    supply: u128,
    reserve_a: u128,
    reserve_b: u128,
) -> Result<(u128, u128), ContractError> {
    if amount > balance {
        Err(ContractError::InsufficientBalance { available: balance, requested: amount })
    } else {
        match (share_of(amount, reserve_a, supply), share_of(amount, reserve_b, supply)) {
            (Ok(out_a), Ok(out_b)) => Ok((out_a, out_b)),
            _ => Err(ContractError::ArithmeticError),
        }
    }
}

/// What `execute_remove_liquidity` does: the new ledger and the response,
/// or the error.
pub open spec fn remove_liquidity_outcome(
    config: &Config,
    liquidity: &Liquidity,
    info: &MessageInfo,
    amount: u128,
    lp_token_balance: u128,
    lp_token_supply: u128,
) -> Result<(LiquidityView, RemoveLiquidityResponseView), ContractError> {
    if !config.pair_info.token_is_set() {
        Err(ContractError::Unauthorized)
    } else {
        match withdrawal_of(
            amount,
            lp_token_balance,
            lp_token_supply,
            liquidity.token_a.amount,
            liquidity.token_b.amount,
        ) {
            Err(e) => Err(e),
            Ok((out_a, out_b)) => Ok(
                (
                    liquidity.with_amounts(
                        (liquidity.token_a.amount - out_a) as u128,
                        (liquidity.token_b.amount - out_b) as u128,
                    ),
                    RemoveLiquidityResponseView {
                        messages: seq![
                            payment_msg(liquidity.token_a.info@, info.sender@, out_a),
                            payment_msg(liquidity.token_b.info@, info.sender@, out_b),
                            CosmosMsgView::Cw20BurnFrom {
                                contract_addr: config.pair_info.liquidity_token@,
                                owner: info.sender@,
                                amount,
                            },
                        ],
                        liquidity_burned: amount,
                        token1_returned: out_a,
                        token2_returned: out_b,
                    },
                ),
            ),
        }
    }
}

/// Hands back `amount` liquidity tokens of the sender for a share of both
/// reserves. `lp_token_balance` is the sender's balance of the liquidity
/// token and `lp_token_supply` its total supply, as the token reported
/// them. A pool whose liquidity token does not exist yet refuses. On an
/// error the ledger is left as it was.
pub fn execute_remove_liquidity(
    config: &Config,
    liquidity: &mut Liquidity,
    info: &MessageInfo,
    amount: u128,
    lp_token_balance: u128,
    lp_token_supply: u128,
) -> (r: Result<RemoveLiquidityResponse, ContractError>)
    ensures
        match remove_liquidity_outcome(
            config,
            old(liquidity),
            info,
            amount,
            lp_token_balance,
            lp_token_supply,
        ) {
            Ok((ledger, response)) => r is Ok && r->Ok_0@ == response && final(liquidity)@
                == ledger,
            Err(e) => r is Err && r->Err_0 == e && final(liquidity)@ == old(liquidity)@,
        },
{
    if !config.pair_info.has_liquidity_token() {
        return Err(ContractError::Unauthorized);
    }
    if amount > lp_token_balance {
        return Err(
            ContractError::InsufficientBalance { available: lp_token_balance, requested: amount },
        );
    }
    let token1_amount = get_share_amount(amount, liquidity.token_a.amount, lp_token_supply)?;
    let token2_amount = get_share_amount(amount, liquidity.token_b.amount, lp_token_supply)?;

    liquidity.token_a.amount = liquidity.token_a.amount - token1_amount;
    liquidity.token_b.amount = liquidity.token_b.amount - token2_amount;

    let token1_transfer_msg = get_payment_msg(&liquidity.token_a.info, &info.sender, token1_amount);
    let token2_transfer_msg = get_payment_msg(&liquidity.token_b.info, &info.sender, token2_amount);
    let lp_token_burn_msg = get_burn_from_msg(
        &config.pair_info.liquidity_token,
        &info.sender,
        amount,
    );
    let ghost expected = seq![token1_transfer_msg@, token2_transfer_msg@, lp_token_burn_msg@];
    let mut messages: Vec<CosmosMsg> = Vec::new();
    messages.push(token1_transfer_msg);
    messages.push(token2_transfer_msg);
    messages.push(lp_token_burn_msg);
    assert(msg_views(messages@) == expected);
    Ok(
        RemoveLiquidityResponse {
            messages,
            liquidity_burned: amount,
            token1_returned: token1_amount,
            token2_returned: token2_amount,
        },
    )
}

/// What a deposit of liquidity returns to the host: the requests to emit,
/// the two amounts taken into the reserves and the liquidity tokens minted
/// for them.
#[derive(Debug)]
pub struct ProvideLiquidityResponse {
    pub messages: Vec<CosmosMsg>,
    pub token_1_amount: u128,
    pub token_2_amount: u128,
    pub liquidity_minted: u128,
}

/// The mathematical value of a [`ProvideLiquidityResponse`].
pub struct ProvideLiquidityResponseView {
    pub messages: Seq<CosmosMsgView>,
    pub token_1_amount: u128,
    pub token_2_amount: u128,
    pub liquidity_minted: u128,
}

impl View for ProvideLiquidityResponse {
    type V = ProvideLiquidityResponseView;

    open spec fn view(&self) -> ProvideLiquidityResponseView {
        ProvideLiquidityResponseView {
            messages: msg_views(self.messages@),
            token_1_amount: self.token_1_amount,
            token_2_amount: self.token_2_amount,
            liquidity_minted: self.liquidity_minted,
        }
    }
}

/// The liquidity tokens minted for a deposit of `token1_amount`: the
/// deposit itself into an empty pool, else
/// `floor(token1_amount * liquidity_supply / token1_reserve)`.
pub open spec fn lp_token_amount_to_mint_of(
    token1_amount: u128,
    liquidity_supply: u128,
    token1_reserve: u128,
) -> Result<u128, ContractError> {
    if liquidity_supply == 0 {
        Ok(token1_amount)
    } else if token1_amount * liquidity_supply > u128::MAX || token1_reserve == 0 {
        Err(ContractError::ArithmeticError)
    } else {
        Ok((token1_amount * liquidity_supply / (token1_reserve as int)) as u128)
    }
}

/// Computes the liquidity tokens to mint for a deposit.
pub fn get_lp_token_amount_to_mint(
    token1_amount: u128,
    liquidity_supply: u128,
    token1_reserve: u128,
) -> (r: Result<u128, ContractError>)
    ensures
        r == lp_token_amount_to_mint_of(token1_amount, liquidity_supply, token1_reserve),
{
    if liquidity_supply == 0 {
        Ok(token1_amount)
    } else {
        let product = match token1_amount.checked_mul(liquidity_supply) {
            Some(product) => product,
            None => { return Err(ContractError::ArithmeticError); },
        };
        match product.checked_div(token1_reserve) {
            Some(minted) => Ok(minted),
            None => Err(ContractError::ArithmeticError),
        }
    }
}

/// The amount of the second asset that goes with `token1_amount` of the
/// first: all of `max_token` into an empty pool, else
/// `floor(token1_amount * token2_reserve / token1_reserve)`, and one unit
/// where that is zero.
pub open spec fn token2_amount_required_of(
    max_token: u128,
    token1_amount: u128,
    liquidity_supply: u128,
    token2_reserve: u128,
    token1_reserve: u128,
) -> Result<u128, ContractError> {
    if liquidity_supply == 0 {
        Ok(max_token)
    } else if token1_amount * token2_reserve > u128::MAX || token1_reserve == 0 {
        Err(ContractError::ArithmeticError)
    } else if token1_amount * token2_reserve / (token1_reserve as int) == 0 {
        Ok(1)
    } else {
        Ok((token1_amount * token2_reserve / (token1_reserve as int)) as u128)
    }
}

/// Computes the amount of the second asset that a deposit must bring.
pub fn get_token2_amount_required(
    max_token: u128,
    token1_amount: u128,
    liquidity_supply: u128,
    token2_reserve: u128,
    token1_reserve: u128,
) -> (r: Result<u128, ContractError>)
    ensures
        r == token2_amount_required_of(
            max_token,
            token1_amount,
            liquidity_supply,
            token2_reserve,
            token1_reserve,
        ),
{
    if liquidity_supply == 0 {
        Ok(max_token)
    } else {
        let product = match token1_amount.checked_mul(token2_reserve) {
            Some(product) => product,
            None => { return Err(ContractError::ArithmeticError); },
        };
        let temp_token2_amount = match product.checked_div(token1_reserve) {
            Some(amount) => amount,
            None => { return Err(ContractError::ArithmeticError); },
        };
        if temp_token2_amount == 0 {
            Ok(1)
        } else {
            Ok(temp_token2_amount)
        }
    }
}

/// The amounts of one deposit.
#[derive(Clone, Copy, Debug, PartialEq, Eq, Structural)]
pub struct DepositAmounts {
    /// Liquidity tokens minted to the depositor.
    pub minted: u128,
    /// What is taken of the second asset.
    pub required_b: u128,
}

/// The amounts of a deposit of `deposit_a` and at most `deposit_b` into a
/// pool with the given reserves and liquidity token supply.
pub open spec fn deposit_of(
    deposit_a: u128,
    deposit_b: u128,
    reserve_a: u128,
    reserve_b: u128,
    supply: u128,
) -> Result<DepositAmounts, ContractError> {
    if deposit_a == 0 && deposit_b == 0 {
        Err(ContractError::InvalidZeroAmount)
    } else {
        match lp_token_amount_to_mint_of(deposit_a, supply, reserve_a) {
            Err(e) => Err(e),
            Ok(minted) => match token2_amount_required_of(
                deposit_b,
                deposit_a,
                supply,
                reserve_b,
                reserve_a,
            ) {
                Err(e) => Err(e),
                Ok(required_b) => if deposit_b < required_b {
                    Err(
                        ContractError::InsufficientSecondAsset {
                            required: required_b,
                            supplied: deposit_b,
                        },
                    )
                } else if reserve_a + deposit_a > u128::MAX || reserve_b + required_b
                    > u128::MAX {
                    Err(ContractError::ArithmeticError)
                } else {
                    Ok(DepositAmounts { minted, required_b })
                },
            },
        }
    }
}

/// Computes the amounts of a deposit.
pub fn compute_deposit(
    deposit_a: u128,
    deposit_b: u128,
    reserve_a: u128,
    reserve_b: u128,
    supply: u128,
) -> (r: Result<DepositAmounts, ContractError>)
    ensures
        r == deposit_of(deposit_a, deposit_b, reserve_a, reserve_b, supply),
{
    if deposit_a == 0 && deposit_b == 0 {
        return Err(ContractError::InvalidZeroAmount);
    }
    let minted = get_lp_token_amount_to_mint(deposit_a, supply, reserve_a)?;
    let required_b = get_token2_amount_required(
        deposit_b,
        deposit_a,
        supply,
        reserve_b,
        reserve_a,
    )?;
    if deposit_b < required_b {
        return Err(
            ContractError::InsufficientSecondAsset { required: required_b, supplied: deposit_b },
        );
    }
    if deposit_a > u128::MAX - reserve_a || required_b > u128::MAX - reserve_b {
        return Err(ContractError::ArithmeticError);
    }
    Ok(DepositAmounts { minted, required_b })
}

/// The amount that `assets` brings of the asset `wanted`: that of the
/// first of the two that is this asset.
pub open spec fn deposit_for(assets: &[Asset; 2], wanted: AssetInfoView) -> Option<u128> {
    if assets[0].info@ == wanted {
        Some(assets[0].amount)
    } else if assets[1].info@ == wanted {
        Some(assets[1].amount)
    } else {
        None
    }
}

/// Finds what `assets` brings of the asset `wanted`.
pub fn find_deposit(assets: &[Asset; 2], wanted: &AssetInfo) -> (r: Option<u128>)
    ensures
        r == deposit_for(assets, wanted@),
{
    if assets[0].info == *wanted {
        Some(assets[0].amount)
    } else if assets[1].info == *wanted {
        Some(assets[1].amount)
    } else {
        None
    }
}

/// The requests that draw `amount` of an asset from `owner` into the pool:
/// a transfer on allowance for a token, none for a native asset, which
/// comes attached to the message.
pub open spec fn pull_msgs(info: AssetInfoView, owner: Seq<char>, pool: Seq<char>, amount: u128) -> Seq<
    CosmosMsgView,
> {
    match info {
        AssetInfoView::Token { contract_addr } => seq![
            CosmosMsgView::Cw20TransferFrom { contract_addr, owner, recipient: pool, amount },
        ],
        AssetInfoView::NativeToken { .. } => Seq::empty(),
    }
}

/// Appends the requests that draw `amount` of an asset into the pool.
pub fn push_pull_msgs(
    messages: &mut Vec<CosmosMsg>,
    info: &AssetInfo,
    owner: &String,
    pool: &String,
    amount: u128,
)
    ensures
        msg_views(final(messages)@) == msg_views(old(messages)@) + pull_msgs(
            info@,
            owner@,
            pool@,
            amount,
        ),
{
    if let AssetInfo::Token { contract_addr } = info {
        let msg = get_cw20_transfer_from_msg(owner, pool, contract_addr, amount);
        messages.push(msg);
        assert(msg_views(messages@) == msg_views(old(messages)@) + seq![msg@]);
    } else {
        assert(msg_views(messages@) == msg_views(old(messages)@) + Seq::empty());
    }
}

/// The requests that hand an excess of a native asset back: one send where
/// there is an excess, none for a token, of which no more than needed is
/// drawn.
pub open spec fn refund_msgs(info: AssetInfoView, to: Seq<char>, supplied: u128, taken: u128) -> Seq<
    CosmosMsgView,
> {
    match info {
        AssetInfoView::NativeToken { denom } => if supplied > taken {
            seq![
                CosmosMsgView::BankSend {
                    to_address: to,
                    denom,
                    amount: (supplied - taken) as u128,
                },
            ]
        } else {
            Seq::empty()
        },
        AssetInfoView::Token { .. } => Seq::empty(),
    }
}

/// Appends the requests that hand an excess of a native asset back.
pub fn push_refund_msgs(
    messages: &mut Vec<CosmosMsg>,
    info: &AssetInfo,
    to: &String,
    supplied: u128,
    taken: u128,
)
    ensures
        msg_views(final(messages)@) == msg_views(old(messages)@) + refund_msgs(
            info@,
            to@,
            supplied,
            taken,
        ),
{
    if supplied > taken {
        if let AssetInfo::NativeToken { denom } = info {
            let msg = get_bank_transfer_to_msg(to, denom, supplied - taken);
            messages.push(msg);
            assert(msg_views(messages@) == msg_views(old(messages)@) + seq![msg@]);
            return ;
        }
    }
    assert(msg_views(messages@) == msg_views(old(messages)@) + Seq::empty());
}

/// What `execute_provide_liquidity` does: the new ledger and the response,
/// or the error.
pub open spec fn provide_liquidity_outcome(
    config: &Config,
    liquidity: &Liquidity,
    info: &MessageInfo,
    assets: &[Asset; 2],
    addresses_ok: [bool; 2],
    lp_token_supply: u128,
) -> Result<(LiquidityView, ProvideLiquidityResponseView), ContractError> {
    if !config.pair_info.token_is_set() {
        Err(ContractError::Unauthorized)
    } else if !assets[0].info.is_valid(addresses_ok[0]) || !assets[1].info.is_valid(
        addresses_ok[1],
    ) {
        Err(ContractError::InvalidAsset)
    } else if !assets[0].native_balance_sent(info.funds@) || !assets[1].native_balance_sent(
        info.funds@,
    ) {
        Err(ContractError::NativeTokenMismatch)
    } else if !config.keys(liquidity) {
        Err(ContractError::AssetMismatch)
    } else {
        match (
            deposit_for(assets, config.pair_info.asset_infos[0]@),
            deposit_for(assets, config.pair_info.asset_infos[1]@),
        ) {
            (Some(deposit_a), Some(deposit_b)) => match deposit_of(
                deposit_a,
                deposit_b,
                liquidity.token_a.amount,
                liquidity.token_b.amount,
                lp_token_supply,
            ) {
                Err(e) => Err(e),
                Ok(amounts) => Ok(
                    (
                        liquidity.with_amounts(
                            (liquidity.token_a.amount + deposit_a) as u128,
                            (liquidity.token_b.amount + amounts.required_b) as u128,
                        ),
                        ProvideLiquidityResponseView {
                            messages: pull_msgs(
                                config.pair_info.asset_infos[0]@,
                                info.sender@,
                                config.pair_info.contract_addr@,
                                deposit_a,
                            ) + pull_msgs(
                                config.pair_info.asset_infos[1]@,
                                info.sender@,
                                config.pair_info.contract_addr@,
                                amounts.required_b,
                            ) + refund_msgs(
                                config.pair_info.asset_infos[1]@,
                                info.sender@,
                                deposit_b,
                                amounts.required_b,
                            ) + seq![
                                CosmosMsgView::Cw20Mint {
                                    contract_addr: config.pair_info.liquidity_token@,
                                    recipient: info.sender@,
                                    amount: amounts.minted,
                                },
                            ],
                            token_1_amount: deposit_a,
                            token_2_amount: amounts.required_b,
                            liquidity_minted: amounts.minted,
                        },
                    ),
                ),
            },
            _ => Err(ContractError::AssetMismatch),
        }
    }
}

/// Takes a deposit of the pair's two assets, given in either order, and
/// mints liquidity tokens for it. `addresses_ok[i]` is the host's verdict on
/// the contract address of `assets[i]`, read only where that asset is a
/// token; `lp_token_supply` is the liquidity token's total supply as the
/// token reported it. A pool whose liquidity token does not exist yet
/// refuses. On an error the ledger is left as it was.
pub fn execute_provide_liquidity(
    config: &Config,
    liquidity: &mut Liquidity,
    info: &MessageInfo,
    assets: &[Asset; 2],
    addresses_ok: [bool; 2],
    lp_token_supply: u128,
) -> (r: Result<ProvideLiquidityResponse, ContractError>)
    ensures
        match provide_liquidity_outcome(
            config,
            old(liquidity),
            info,
            assets,
            addresses_ok,
            lp_token_supply,
        ) {
            Ok((ledger, response)) => r is Ok && r->Ok_0@ == response && final(liquidity)@
                == ledger,
            Err(e) => r is Err && r->Err_0 == e && final(liquidity)@ == old(liquidity)@,
        },
{
    if !config.pair_info.has_liquidity_token() {
        return Err(ContractError::Unauthorized);
    }
    assets[0].info.check_is_valid(addresses_ok[0])?;
    assets[1].info.check_is_valid(addresses_ok[1])?;
    assets[0].assert_sent_native_token_balance(&info.funds)?;
    assets[1].assert_sent_native_token_balance(&info.funds)?;
    if !config.is_keyed_by(liquidity) {
        return Err(ContractError::AssetMismatch);
    }
    let deposit_a = match find_deposit(assets, &config.pair_info.asset_infos[0]) {
        Some(amount) => amount,
        None => { return Err(ContractError::AssetMismatch); },
    };
    let deposit_b = match find_deposit(assets, &config.pair_info.asset_infos[1]) {
        Some(amount) => amount,
        None => { return Err(ContractError::AssetMismatch); },
    };
    let amounts = compute_deposit(
        deposit_a,
        deposit_b,
        liquidity.token_a.amount,
        liquidity.token_b.amount,
        lp_token_supply,
    )?;

    let mut messages: Vec<CosmosMsg> = Vec::new();
    assert(msg_views(messages@) == Seq::<CosmosMsgView>::empty());
    push_pull_msgs(
        &mut messages,
        &config.pair_info.asset_infos[0],
        &info.sender,
        &config.pair_info.contract_addr,
        deposit_a,
    );
    push_pull_msgs(
        &mut messages,
        &config.pair_info.asset_infos[1],
        &info.sender,
        &config.pair_info.contract_addr,
        amounts.required_b,
    );
    push_refund_msgs(
        &mut messages,
        &config.pair_info.asset_infos[1],
        &info.sender,
        deposit_b,
        amounts.required_b,
    );
    let mint_lp_tokens_msg = get_cw20_mint_msg(
        &info.sender,
        amounts.minted,
        &config.pair_info.liquidity_token,
    );
    let ghost before_mint = msg_views(messages@);
    messages.push(mint_lp_tokens_msg);
    assert(msg_views(messages@) == before_mint + seq![mint_lp_tokens_msg@]);

    liquidity.token_a.amount = liquidity.token_a.amount + deposit_a;
    liquidity.token_b.amount = liquidity.token_b.amount + amounts.required_b;

    Ok(
        ProvideLiquidityResponse {
            messages,
            token_1_amount: deposit_a,
            token_2_amount: amounts.required_b,
            liquidity_minted: amounts.minted,
        },
    )
}

/// What a swap returns to the host: the requests to emit and the amounts
/// of the swap.
#[derive(Debug)]
pub struct SwapResponse {
    pub messages: Vec<CosmosMsg>,
    pub token_in_amount: u128,
    pub token_out_amount: u128,
    pub protocol_fee_amount: u128,
    pub protocol_fee_recipient: String,
    pub input_token_fee_amount: u128,
    pub output_token_fee_amount: u128,
}

/// The mathematical value of a [`SwapResponse`].
pub struct SwapResponseView {
    pub messages: Seq<CosmosMsgView>,
    pub token_in_amount: u128,
    pub token_out_amount: u128,
    pub protocol_fee_amount: u128,
    pub protocol_fee_recipient: Seq<char>,
    pub input_token_fee_amount: u128,
    pub output_token_fee_amount: u128,
}

impl View for SwapResponse {
    type V = SwapResponseView;

    open spec fn view(&self) -> SwapResponseView {
        SwapResponseView {
            messages: msg_views(self.messages@),
            token_in_amount: self.token_in_amount,
            token_out_amount: self.token_out_amount,
            protocol_fee_amount: self.protocol_fee_amount,
            protocol_fee_recipient: self.protocol_fee_recipient@,
            input_token_fee_amount: self.input_token_fee_amount,
            output_token_fee_amount: self.output_token_fee_amount,
        }
    }
}

/// Who is paid the output of a swap: the named recipient, else the sender.
pub open spec fn swap_recipient(params: &SwapParams, info: &MessageInfo) -> Seq<char> {
    match params.to {
        Some(to) => to@,
        None => info.sender@,
    }
}

/// What `swap` does: the new ledger and the response, or the error.
pub open spec fn swap_outcome(
    config: &Config,
    liquidity: &Liquidity,
    info: &MessageInfo,
    params: &SwapParams,
) -> Result<(LiquidityView, SwapResponseView), ContractError> {
    let infos = config.pair_info.asset_infos;
    let offer = params.offer_asset;
    if !config.pair_info.token_is_set() {
        Err(ContractError::Unauthorized)
    } else if !offer.native_balance_sent(info.funds@) {
        Err(ContractError::NativeTokenMismatch)
    } else if offer.info@ != infos[0]@ && offer.info@ != infos[1]@ {
        Err(ContractError::AssetMismatch)
    } else if !config.keys(liquidity) {
        Err(ContractError::AssetMismatch)
    } else {
        let offer_is_first = offer.info@ == infos[0]@;
        let offer_reserve = if offer_is_first {
            liquidity.token_a.amount
        } else {
            liquidity.token_b.amount
        };
        let ask_reserve = if offer_is_first {
            liquidity.token_b.amount
        } else {
            liquidity.token_a.amount
        };
        let ask_info = if offer_is_first {
            infos[1]@
        } else {
            infos[0]@
        };
        match swap_amounts_of(
            offer.amount,
            offer_reserve,
            ask_reserve,
            config.fees.protocol_fee_percent,
            config.fees.lp_fee_percent,
        ) {
            Err(e) => Err(e),
            Ok(amounts) => match params.bought_outcome(amounts.net_output) {
                Err(e) => Err(e),
                Ok(_) => if offer_reserve + amounts.net_input > u128::MAX {
                    Err(ContractError::ArithmeticError)
                } else {
                    let new_offer = (offer_reserve + amounts.net_input) as u128;
                    let new_ask = (ask_reserve - amounts.net_output) as u128;
                    Ok(
                        (
                            if offer_is_first {
                                liquidity.with_amounts(new_offer, new_ask)
                            } else {
                                liquidity.with_amounts(new_ask, new_offer)
                            },
                            SwapResponseView {
                                messages: pull_msgs(
                                    offer.info@,
                                    info.sender@,
                                    config.pair_info.contract_addr@,
                                    offer.amount,
                                ) + seq![
                                    payment_msg(
                                        ask_info,
                                        swap_recipient(params, info),
                                        amounts.net_output,
                                    ),
                                    payment_msg(
                                        offer.info@,
                                        config.fees.protocol_fee_recipient@,
                                        amounts.protocol_fee,
                                    ),
                                ],
                                token_in_amount: offer.amount,
                                token_out_amount: amounts.net_output,
                                protocol_fee_amount: amounts.protocol_fee,
                                protocol_fee_recipient: config.fees.protocol_fee_recipient@,
                                input_token_fee_amount: amounts.input_fee,
                                output_token_fee_amount: amounts.output_fee,
                            },
                        ),
                    )
                },
            },
        }
    }
}

/// Exchanges the offered asset for the pool's other asset at the price of
/// the constant-product curve: the protocol fee leaves the pool, the
/// liquidity providers' fee stays in the reserves, and the output must
/// meet the caller's limits. A pool whose liquidity token does not exist
/// yet refuses. On an error the ledger is left as it was.
pub fn swap(config: &Config, liquidity: &mut Liquidity, info: &MessageInfo, params: &SwapParams) -> (r:
    Result<SwapResponse, ContractError>)
    ensures
        match swap_outcome(config, old(liquidity), info, params) {
            Ok((ledger, response)) => r is Ok && r->Ok_0@ == response && final(liquidity)@
                == ledger,
            Err(e) => r is Err && r->Err_0 == e && final(liquidity)@ == old(liquidity)@,
        },
{
    if !config.pair_info.has_liquidity_token() {
        return Err(ContractError::Unauthorized);
    }
    params.offer_asset.assert_sent_native_token_balance(&info.funds)?;

    let offer_is_first = if params.offer_asset.info == config.pair_info.asset_infos[0] {
        true
    } else if params.offer_asset.info == config.pair_info.asset_infos[1] {
        false
    } else {
        return Err(ContractError::AssetMismatch);
    };
    if !config.is_keyed_by(liquidity) {
        return Err(ContractError::AssetMismatch);
    }
    let (offer_reserve, ask_reserve) = if offer_is_first {
        (liquidity.token_a.amount, liquidity.token_b.amount)
    } else {
        (liquidity.token_b.amount, liquidity.token_a.amount)
    };

    let amounts = compute_swap_amounts(
        params.offer_asset.amount,
        offer_reserve,
        ask_reserve,
        config.fees.protocol_fee_percent,
        config.fees.lp_fee_percent,
    )?;
    params.assert_min_token_bought(amounts.net_output)?;

    let new_offer_reserve = match offer_reserve.checked_add(amounts.net_input) {
        Some(reserve) => reserve,
        None => { return Err(ContractError::ArithmeticError); },
    };
    let new_ask_reserve = ask_reserve - amounts.net_output;

    let mut messages: Vec<CosmosMsg> = Vec::new();
    assert(msg_views(messages@) == Seq::<CosmosMsgView>::empty());
    push_pull_msgs(
        &mut messages,
        &params.offer_asset.info,
        &info.sender,
        &config.pair_info.contract_addr,
        params.offer_asset.amount,
    );
    let ask_info = if offer_is_first {
        &config.pair_info.asset_infos[1]
    } else {
        &config.pair_info.asset_infos[0]
    };
    let recipient = match &params.to {
        Some(to) => to,
        None => &info.sender,
    };
    let payout_msg = get_payment_msg(ask_info, recipient, amounts.net_output);
    let fee_msg = get_payment_msg(
        &params.offer_asset.info,
        &config.fees.protocol_fee_recipient,
        amounts.protocol_fee,
    );
    let ghost pulled = msg_views(messages@);
    messages.push(payout_msg);
    messages.push(fee_msg);
    assert(msg_views(messages@) == pulled + seq![payout_msg@, fee_msg@]);

    if offer_is_first {
        liquidity.token_a.amount = new_offer_reserve;
        liquidity.token_b.amount = new_ask_reserve;
    } else {
        liquidity.token_b.amount = new_offer_reserve;
        liquidity.token_a.amount = new_ask_reserve;
    }

    Ok(
        SwapResponse {
            messages,
            token_in_amount: params.offer_asset.amount,
            token_out_amount: amounts.net_output,
            protocol_fee_amount: amounts.protocol_fee,
            protocol_fee_recipient: config.fees.protocol_fee_recipient.clone(),
            input_token_fee_amount: amounts.input_fee,
            output_token_fee_amount: amounts.output_fee,
        },
    )
}

/// The request to instantiate the liquidity token of a new pool. The host
/// reports the outcome back under `reply_id`, once, on success.
#[derive(Debug)]
pub struct TokenInstantiation {
    pub reply_id: u64,
    pub admin: String,
    pub code_id: u64,
    pub name: String,
    pub symbol: String,
    pub decimals: u8,
    pub minter: String,
    pub label: String,
}

/// The mathematical value of a [`TokenInstantiation`].
pub struct TokenInstantiationView {
    pub reply_id: u64,
    pub admin: Seq<char>,
    pub code_id: u64,
    pub name: Seq<char>,
    pub symbol: Seq<char>,
    pub decimals: u8,
    pub minter: Seq<char>,
    pub label: Seq<char>,
}

impl View for TokenInstantiation {
    type V = TokenInstantiationView;

    open spec fn view(&self) -> TokenInstantiationView {
        TokenInstantiationView {
            reply_id: self.reply_id,
            admin: self.admin@,
            code_id: self.code_id,
            name: self.name@,
            symbol: self.symbol@,
            decimals: self.decimals,
            minter: self.minter@,
            label: self.label@,
        }
    }
}

/// A new pool: the two records to store and the request to emit.
#[derive(Debug)]
pub struct Instantiation {
    pub config: Config,
    pub liquidity: Liquidity,
    pub sub_msg: TokenInstantiation,
}

/// The mathematical value of an [`Instantiation`].
pub struct InstantiationView {
    pub config: ConfigView,
    pub liquidity: LiquidityView,
    pub sub_msg: TokenInstantiationView,
}

impl View for Instantiation {
    type V = InstantiationView;

    open spec fn view(&self) -> InstantiationView {
        InstantiationView {
            config: self.config@,
            liquidity: self.liquidity@,
            sub_msg: self.sub_msg@,
        }
    }
}

/// The fees that a pool is created with. The message gives both in
/// percent, as decimal texts; each is stored as the rate it stands for.
pub open spec fn fees_of(msg: &InstantiateMsg) -> Result<FeesView, ContractError> {
    match (Decimal::parsed(msg.protocol_fee_percent@), Decimal::parsed(msg.lp_fee_percent@)) {
        (Some(protocol), Some(lp)) => {
            let protocol_rate = rate_of_percent(protocol);
            let lp_rate = rate_of_percent(lp);
            if fees_in_range(protocol_rate, lp_rate) {
                Ok(
                    FeesView {
                        protocol_fee_recipient: msg.protocol_fee_recipient@,
                        protocol_fee_percent: protocol_rate,
                        lp_fee_percent: lp_rate,
                    },
                )
            } else {
                Err(ContractError::Generic)
            }
        },
        _ => Err(ContractError::Generic),
    }
}

/// What `instantiate` does: the new pool, or the error.
pub open spec fn instantiate_outcome(
    contract_addr: &String,
    msg: &InstantiateMsg,
    addresses_ok: [bool; 2],
    token_symbols: &[String; 2],
) -> Result<InstantiationView, ContractError> {
    let infos = msg.asset_infos;
    if !infos[0].is_valid(addresses_ok[0]) || !infos[1].is_valid(addresses_ok[1]) {
        Err(ContractError::InvalidAsset)
    } else if infos[0]@ == infos[1]@ {
        Err(ContractError::OverlappingAssets)
    } else {
        match fees_of(msg) {
            Err(e) => Err(e),
            Ok(fees) => Ok(
                InstantiationView {
                    config: ConfigView {
                        pair_info: PairInfoView {
                            asset_infos: seq![infos[0]@, infos[1]@],
                            contract_addr: contract_addr@,
                            liquidity_token: Seq::empty(),
                        },
                        factory_addr: msg.factory_addr@,
                        fees,
                    },
                    liquidity: LiquidityView {
                        token_a: AssetView { info: infos[0]@, amount: 0 },
                        token_b: AssetView { info: infos[1]@, amount: 0 },
                    },
                    sub_msg: TokenInstantiationView {
                        reply_id: INSTANTIATE_TOKEN_REPLY_ID,
                        admin: contract_addr@,
                        code_id: msg.token_code_id,
                        name: uppercase_of(
                            lp_token_name_raw(
                                infos[0].symbol(token_symbols[0]@),
                                infos[1].symbol(token_symbols[1]@),
                            ),
                        ),
                        symbol: "uLp"@,
                        decimals: 6,
                        minter: contract_addr@,
                        label: "YSIP LP token"@,
                    },
                },
            ),
        }
    }
}

/// Creates a pool at `contract_addr`: validates the two assets, fixes the
/// fees, opens an empty ledger and asks for the liquidity token to be
/// instantiated with the pool as its minter. `addresses_ok[i]` is the host's
/// verdict on the contract address of asset `i` and `token_symbols[i]` the
/// symbol that its contract reported; both are read only for a token.
pub fn instantiate(
    contract_addr: &String,
    msg: &InstantiateMsg,
    addresses_ok: [bool; 2],
    token_symbols: &[String; 2],
) -> (r: Result<Instantiation, ContractError>)
    ensures
        match instantiate_outcome(contract_addr, msg, addresses_ok, token_symbols) {
            Ok(pool) => r is Ok && r->Ok_0@ == pool && r->Ok_0.config.wf()
                && r->Ok_0.config.keys(&r->Ok_0.liquidity),
            Err(e) => r is Err && r->Err_0 == e,
        },
{
    msg.asset_infos[0].check_is_valid(addresses_ok[0])?;
    msg.asset_infos[1].check_is_valid(addresses_ok[1])?;

    if msg.asset_infos[0] == msg.asset_infos[1] {
        return Err(ContractError::OverlappingAssets);
    }
    let protocol_fee_percent = match Decimal::from_str(msg.protocol_fee_percent.as_str()) {
        Some(percent) => percent_to_rate(percent),
        None => { return Err(ContractError::Generic); },
    };
    let lp_fee_percent = match Decimal::from_str(msg.lp_fee_percent.as_str()) {
        Some(percent) => percent_to_rate(percent),
        None => { return Err(ContractError::Generic); },
    };
    let fees = Fees::new(msg.protocol_fee_recipient.clone(), protocol_fee_percent, lp_fee_percent)?;

    let config = Config {
        pair_info: PairInfo::init(
            contract_addr.clone(),
            [msg.asset_infos[0].clone(), msg.asset_infos[1].clone()],
        ),
        factory_addr: msg.factory_addr.clone(),
        fees,
    };
    let liquidity = Liquidity::new(&msg.asset_infos);
    let lp_token_name = format_lp_token_name(&msg.asset_infos, token_symbols);

    let sub_msg = TokenInstantiation {
        reply_id: INSTANTIATE_TOKEN_REPLY_ID,
        admin: contract_addr.clone(),
        code_id: msg.token_code_id,
        name: lp_token_name,
        symbol: "uLp".to_owned(),
        decimals: 6,
        minter: contract_addr.clone(),
        label: "YSIP LP token".to_owned(),
    };
    Ok(Instantiation { config, liquidity, sub_msg })
}

/// What the liquidity token's instantiation reports to the pool.
#[derive(Debug)]
pub struct ReplyResponse {
    pub liquidity_token_addr: String,
}

/// What `reply` makes of a configuration: the configuration with the
/// liquidity token's address in it, or the error. A second report is
/// refused before anything of it is read; a first one is refused where it
/// held no address that could be read, or an empty one, or one that the
/// host rejected.
pub open spec fn reply_outcome(
    config: ConfigView,
    contract_address: Option<Seq<char>>,
    address_ok: bool,
) -> Result<ConfigView, ContractError> {
    if config.pair_info.liquidity_token.len() > 0 {
        Err(ContractError::Unauthorized)
    } else {
        match contract_address {
            None => Err(ContractError::Generic),
            Some(address) => if !address_ok || address.len() == 0 {
                Err(ContractError::Generic)
            } else {
                Ok(
                    ConfigView {
                        pair_info: PairInfoView { liquidity_token: address, ..config.pair_info },
                        ..config
                    },
                )
            },
        }
    }
}

/// The address in a report, as a value.
pub open spec fn reported_address(contract_address: Option<&String>) -> Option<Seq<char>> {
    match contract_address {
        Some(address) => Some(address@),
        None => None,
    }
}

/// Completes the provisioning of the liquidity token: stores the address
/// of the contract that the host instantiated. `contract_address` is the
/// address read from the host's report, absent where the report could not
/// be read, and `address_ok` the host's verdict on it. This happens once;
/// on an error the configuration is left as it was.
pub fn reply(config: &mut Config, contract_address: Option<&String>, address_ok: bool) -> (r:
    Result<ReplyResponse, ContractError>)
    ensures
        match reply_outcome(old(config)@, reported_address(contract_address), address_ok) {
            Ok(stored) => r is Ok && Some(r->Ok_0.liquidity_token_addr@) == reported_address(
                contract_address,
            ) && final(config)@ == stored && (old(config).wf() ==> final(config).wf()),
            Err(e) => r is Err && r->Err_0 == e && final(config)@ == old(config)@,
        },
{
    if config.pair_info.has_liquidity_token() {
        return Err(ContractError::Unauthorized);
    }
    let address = match contract_address {
        Some(address) => address,
        None => { return Err(ContractError::Generic); },
    };
    if !address_ok || address.as_str().is_empty() {
        return Err(ContractError::Generic);
    }
    config.pair_info.liquidity_token = address.clone();
    Ok(ReplyResponse { liquidity_token_addr: address.clone() })
}

/// What the host answered to the questions an operation depends on.
#[derive(Clone, Copy, Debug)]
pub struct HostAnswers {
    /// Whether the contract address of each deposited asset is an address.
    pub addresses_ok: [bool; 2],
    /// Whether the recipient named in a swap is an address.
    pub recipient_ok: bool,
    /// The liquidity token's total supply.
    pub lp_token_supply: u128,
    /// The sender's balance of the liquidity token.
    pub lp_token_balance: u128,
}

/// What an operation returns to the host.
#[derive(Debug)]
pub enum ExecuteResponse {
    ProvideLiquidity(ProvideLiquidityResponse),
    Swap(SwapResponse),
    RemoveLiquidity(RemoveLiquidityResponse),
}

/// The mathematical value of an [`ExecuteResponse`].
pub enum ExecuteResponseView {
    ProvideLiquidity(ProvideLiquidityResponseView),
    Swap(SwapResponseView),
    RemoveLiquidity(RemoveLiquidityResponseView),
}

impl View for ExecuteResponse {
    type V = ExecuteResponseView;

    open spec fn view(&self) -> ExecuteResponseView {
        match self {
            ExecuteResponse::ProvideLiquidity(r) => ExecuteResponseView::ProvideLiquidity(r@),
            ExecuteResponse::Swap(r) => ExecuteResponseView::Swap(r@),
            ExecuteResponse::RemoveLiquidity(r) => ExecuteResponseView::RemoveLiquidity(r@),
        }
    }
}

/// What `execute_swap` does: a recipient that the host rejected stops the
/// swap, anything else is the swap itself.
pub open spec fn execute_swap_outcome(
    config: &Config,
    liquidity: &Liquidity,
    info: &MessageInfo,
    params: &SwapParams,
    recipient_ok: bool,
) -> Result<(LiquidityView, SwapResponseView), ContractError> {
    if params.to is Some && !recipient_ok {
        Err(ContractError::Generic)
    } else {
        swap_outcome(config, liquidity, info, params)
    }
}

/// Swaps after checking the recipient: `recipient_ok` is the host's verdict
/// on the address in `to`, read only where a recipient is named.
pub fn execute_swap(
    config: &Config,
    liquidity: &mut Liquidity,
    info: &MessageInfo,
    offer_asset: Asset,
    min_output_amount: Option<String>,
    max_spread: Option<String>,
    to: Option<String>,
    recipient_ok: bool,
) -> (r: Result<SwapResponse, ContractError>)
    ensures
        match execute_swap_outcome(
            config,
            old(liquidity),
            info,
            &(SwapParams { offer_asset, min_output_amount, max_spread, to }),
            recipient_ok,
        ) {
            Ok((ledger, response)) => r is Ok && r->Ok_0@ == response && final(liquidity)@
                == ledger,
            Err(e) => r is Err && r->Err_0 == e && final(liquidity)@ == old(liquidity)@,
        },
{
    if to.is_some() && !recipient_ok {
        return Err(ContractError::Generic);
    }
    let params = SwapParams { offer_asset, min_output_amount, max_spread, to };
    swap(config, liquidity, info, &params)
}

/// What `execute` does: the outcome of the operation that the message
/// names.
pub open spec fn execute_outcome(
    config: &Config,
    liquidity: &Liquidity,
    info: &MessageInfo,
    msg: ExecuteMsg,
    host: &HostAnswers,
) -> Result<(LiquidityView, ExecuteResponseView), ContractError> {
    match msg {
        ExecuteMsg::ProvideLiquidity { assets } => match provide_liquidity_outcome(
            config,
            liquidity,
            info,
            &assets,
            host.addresses_ok,
            host.lp_token_supply,
        ) {
            Ok((ledger, response)) => Ok((ledger, ExecuteResponseView::ProvideLiquidity(response))),
            Err(e) => Err(e),
        },
        ExecuteMsg::Swap {
            offer_asset,
            min_output_amount,
            max_spread,
            to,
        } => match execute_swap_outcome(
            config,
            liquidity,
            info,
            &(SwapParams { offer_asset, min_output_amount, max_spread, to }),
            host.recipient_ok,
        ) {
            Ok((ledger, response)) => Ok((ledger, ExecuteResponseView::Swap(response))),
            Err(e) => Err(e),
        },
        ExecuteMsg::RemoveLiquidity { amount } => match remove_liquidity_outcome(
            config,
            liquidity,
            info,
            amount,
            host.lp_token_balance,
            host.lp_token_supply,
        ) {
            Ok((ledger, response)) => Ok((ledger, ExecuteResponseView::RemoveLiquidity(response))),
            Err(e) => Err(e),
        },
    }
}

/// Carries out the operation that a message names. On an error the ledger
/// is left as it was.
pub fn execute(
    config: &Config,
    liquidity: &mut Liquidity,
    info: &MessageInfo,
    msg: ExecuteMsg,
    host: &HostAnswers,
) -> (r: Result<ExecuteResponse, ContractError>)
    ensures
        match execute_outcome(config, old(liquidity), info, msg, host) {
            Ok((ledger, response)) => r is Ok && r->Ok_0@ == response && final(liquidity)@
                == ledger,
            Err(e) => r is Err && r->Err_0 == e && final(liquidity)@ == old(liquidity)@,
        },
{
    match msg {
        ExecuteMsg::ProvideLiquidity { assets } => {
            let response = execute_provide_liquidity(
                config,
                liquidity,
                info,
                &assets,
                host.addresses_ok,
                host.lp_token_supply,
            )?;
            Ok(ExecuteResponse::ProvideLiquidity(response))
        },
        ExecuteMsg::Swap { offer_asset, min_output_amount, max_spread, to } => {
            let response = execute_swap(
                config,
                liquidity,
                info,
                offer_asset,
                min_output_amount,
                max_spread,
                to,
                host.recipient_ok,
            )?;
            Ok(ExecuteResponse::Swap(response))
        },
        ExecuteMsg::RemoveLiquidity { amount } => {
            let response = execute_remove_liquidity(
                config,
                liquidity,
                info,
                amount,
                host.lp_token_balance,
                host.lp_token_supply,
            )?;
            Ok(ExecuteResponse::RemoveLiquidity(response))
        },
    }
}

/// The answer to a query.
#[derive(Debug)]
pub enum QueryResponse {
    PairInfo(PairInfoResponse),
    Liquidity(LiquidityResponse),
}

/// The pair's identity as the configuration holds it.
pub fn query_pair_info(config: &Config) -> (r: PairInfoResponse)
    ensures
        r@ == (PairInfoResponseView {
            assets: config.pair_info@.asset_infos,
            contract_addr: config.pair_info.contract_addr@,
            liquidity_token: config.pair_info.liquidity_token@,
        }),
{
    PairInfoResponse {
        assets: [config.pair_info.asset_infos[0].clone(), config.pair_info.asset_infos[1].clone()],
        contract_addr: config.pair_info.contract_addr.clone(),
        liquidity_token: config.pair_info.liquidity_token.clone(),
    }
}

/// The two reserves as the ledger holds them.
pub fn query_liquidity(liquidity: &Liquidity) -> (r: LiquidityResponse)
    ensures
        r@ == (LiquidityResponseView { liquidity: seq![liquidity.token_a@, liquidity.token_b@] }),
{
    LiquidityResponse { liquidity: [liquidity.token_a.clone(), liquidity.token_b.clone()] }
}

/// Answers a query from the stored records.
pub fn query(config: &Config, liquidity: &Liquidity, msg: QueryMsg) -> (r: QueryResponse)
    ensures
        match msg {
            QueryMsg::PairInfo {  } => r matches QueryResponse::PairInfo(p) && p@
                == (PairInfoResponseView {
                assets: config.pair_info@.asset_infos,
                contract_addr: config.pair_info.contract_addr@,
                liquidity_token: config.pair_info.liquidity_token@,
            }),
            QueryMsg::Liquidity {  } => r matches QueryResponse::Liquidity(l) && l@
                == (LiquidityResponseView {
                liquidity: seq![liquidity.token_a@, liquidity.token_b@],
            }),
        },
{
    match msg {
        QueryMsg::PairInfo {  } => QueryResponse::PairInfo(query_pair_info(config)),
        QueryMsg::Liquidity {  } => QueryResponse::Liquidity(query_liquidity(liquidity)),
    }
}

} // verus!
