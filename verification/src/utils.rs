use crate::asset::{Asset, AssetInfo, AssetInfoView, AssetView, Coin, CoinView};
use vstd::prelude::*;

verus! {

/// Who sent a message and what native funds came with it.
#[derive(Debug)]
pub struct MessageInfo {
    pub sender: String,
    pub funds: Vec<Coin>,
}

/// A request that an operation hands to the host for delivery. Each variant
/// holds as plain values what the host needs to build the message.
#[derive(Debug)]
pub enum CosmosMsg {
    /// Ask the token at `contract_addr` to move `amount` from `owner` to
    /// `recipient`, on the allowance that `owner` gave the pool.
    Cw20TransferFrom { contract_addr: String, owner: String, recipient: String, amount: u128 },
    /// Ask the token at `contract_addr` to move `amount` of the sender's own
    /// balance to `recipient`.
    Cw20Transfer { contract_addr: String, recipient: String, amount: u128 },
    /// Ask the token at `contract_addr` to mint `amount` to `recipient`.
    Cw20Mint { contract_addr: String, recipient: String, amount: u128 },
    /// Ask the token at `contract_addr` to burn `amount` of `owner`'s balance.
    Cw20BurnFrom { contract_addr: String, owner: String, amount: u128 },
    /// Ask the token at `contract_addr` to let `spender` draw `amount` more.
    Cw20IncreaseAllowance { contract_addr: String, spender: String, amount: u128 },
    /// Send `amount` of the native coin `denom` to `to_address`.
    BankSend { to_address: String, denom: String, amount: u128 },
    /// Ask the pool at `contract_addr` to take a deposit of `assets`.
    ProvideLiquidity { contract_addr: String, assets: [Asset; 2], funds: Vec<Coin> },
}

/// The mathematical value of a [`CosmosMsg`].
pub enum CosmosMsgView {
    Cw20TransferFrom {
        contract_addr: Seq<char>,
        owner: Seq<char>,
        recipient: Seq<char>,
        amount: u128,
    },
    Cw20Transfer { contract_addr: Seq<char>, recipient: Seq<char>, amount: u128 },
    Cw20Mint { contract_addr: Seq<char>, recipient: Seq<char>, amount: u128 },
    Cw20BurnFrom { contract_addr: Seq<char>, owner: Seq<char>, amount: u128 },
    Cw20IncreaseAllowance { contract_addr: Seq<char>, spender: Seq<char>, amount: u128 },
    BankSend { to_address: Seq<char>, denom: Seq<char>, amount: u128 },
    ProvideLiquidity { contract_addr: Seq<char>, assets: Seq<AssetView>, funds: Seq<CoinView> },
}

impl View for CosmosMsg {
    type V = CosmosMsgView;

    open spec fn view(&self) -> CosmosMsgView {
        match self {
            CosmosMsg::Cw20TransferFrom {
                contract_addr,
                owner,
                recipient,
                amount,
            } => CosmosMsgView::Cw20TransferFrom {
                contract_addr: contract_addr@,
                owner: owner@,
                recipient: recipient@,
                amount: *amount,
            },
            CosmosMsg::Cw20Transfer { contract_addr, recipient, amount } => CosmosMsgView::Cw20Transfer {
                contract_addr: contract_addr@,
                recipient: recipient@,
                amount: *amount,
            },
            CosmosMsg::Cw20Mint { contract_addr, recipient, amount } => CosmosMsgView::Cw20Mint {
                contract_addr: contract_addr@,
                recipient: recipient@,
                amount: *amount,
            },
            CosmosMsg::Cw20BurnFrom { contract_addr, owner, amount } => CosmosMsgView::Cw20BurnFrom {
                contract_addr: contract_addr@,
                owner: owner@,
                amount: *amount,
            },
            CosmosMsg::Cw20IncreaseAllowance {
                contract_addr,
                spender,
                amount,
            } => CosmosMsgView::Cw20IncreaseAllowance {
                contract_addr: contract_addr@,
                spender: spender@,
                amount: *amount,
            },
            CosmosMsg::BankSend { to_address, denom, amount } => CosmosMsgView::BankSend {
                to_address: to_address@,
                denom: denom@,
                amount: *amount,
            },
            CosmosMsg::ProvideLiquidity {
                contract_addr,
                assets,
                funds,
            } => CosmosMsgView::ProvideLiquidity {
                contract_addr: contract_addr@,
                assets: seq![assets[0]@, assets[1]@],
                funds: funds@.map_values(|c: Coin| c@),
            },
        }
    }
}

/// The values of a list of messages, in order.
pub open spec fn msg_views(msgs: Seq<CosmosMsg>) -> Seq<CosmosMsgView> {
    msgs.map_values(|m: CosmosMsg| m@)
}

/// A request to draw `token_amount` of the token at `token_addr` from
/// `owner` into `recipient`.
pub fn get_cw20_transfer_from_msg(
    owner: &String,
    recipient: &String,
    token_addr: &String,
    token_amount: u128,
) -> (r: CosmosMsg)
    ensures
        r@ == (CosmosMsgView::Cw20TransferFrom {
            contract_addr: token_addr@,
            owner: owner@,
            recipient: recipient@,
            amount: token_amount,
        }),
{
    CosmosMsg::Cw20TransferFrom {
        contract_addr: token_addr.clone(),
        owner: owner.clone(),
        recipient: recipient.clone(),
        amount: token_amount,
    }
}

/// A request to pay `token_amount` of the token at `token_addr` to
/// `recipient` out of the pool's own balance.
pub fn get_cw20_transfer_msg(recipient: &String, token_addr: &String, token_amount: u128) -> (r:
    CosmosMsg)
    ensures
        r@ == (CosmosMsgView::Cw20Transfer {
            contract_addr: token_addr@,
            recipient: recipient@,
            amount: token_amount,
        }),
{
    CosmosMsg::Cw20Transfer {
        contract_addr: token_addr.clone(),
        recipient: recipient.clone(),
        amount: token_amount,
    }
}

/// A request to send `native_amount` of `denom` to `recipient`.
pub fn get_bank_transfer_to_msg(recipient: &String, denom: &String, native_amount: u128) -> (r:
    CosmosMsg)
    ensures
        r@ == (CosmosMsgView::BankSend {
            to_address: recipient@,
            denom: denom@,
            amount: native_amount,
        }),
{
    CosmosMsg::BankSend {
        to_address: recipient.clone(),
        denom: denom.clone(),
        amount: native_amount,
    }
}

/// A request to mint `amount` of the token at `contract_addr` to
/// `recipient`.
pub fn get_cw20_mint_msg(recipient: &String, amount: u128, contract_addr: &String) -> (r:
    CosmosMsg)
    ensures
        r@ == (CosmosMsgView::Cw20Mint {
            contract_addr: contract_addr@,
            recipient: recipient@,
            amount,
        }),
{
    CosmosMsg::Cw20Mint { contract_addr: contract_addr.clone(), recipient: recipient.clone(), amount }
}

/// A request to burn `amount` of the token at `contract_addr` held by
/// `owner`.
pub fn get_burn_from_msg(contract_addr: &String, owner: &String, amount: u128) -> (r: CosmosMsg)
    ensures
        r@ == (CosmosMsgView::Cw20BurnFrom {
            contract_addr: contract_addr@,
            owner: owner@,
            amount,
        }),
{
    CosmosMsg::Cw20BurnFrom { contract_addr: contract_addr.clone(), owner: owner.clone(), amount }
}

/// A request to let `spender` draw `amount` more of the token at
/// `contract_addr`.
pub fn get_increase_allowance_msg(contract_addr: &String, spender: &String, amount: u128) -> (r:
    CosmosMsg)
    ensures
        r@ == (CosmosMsgView::Cw20IncreaseAllowance {
            contract_addr: contract_addr@,
            spender: spender@,
            amount,
        }),
{
    CosmosMsg::Cw20IncreaseAllowance {
        contract_addr: contract_addr.clone(),
        spender: spender.clone(),
        amount,
    }
}

/// The message that pays `amount` of the asset `info` to `recipient`: a
/// token transfer out of the pool's balance, or a native send.
pub open spec fn payment_msg(info: AssetInfoView, recipient: Seq<char>, amount: u128) -> CosmosMsgView {
    match info {
        AssetInfoView::Token { contract_addr } => CosmosMsgView::Cw20Transfer {
            contract_addr,
            recipient,
            amount,
        },
        AssetInfoView::NativeToken { denom } => CosmosMsgView::BankSend {
            to_address: recipient,
            denom,
            amount,
        },
    }
}

/// A request to pay `amount` of the asset `info` to `recipient`.
pub fn get_payment_msg(info: &AssetInfo, recipient: &String, amount: u128) -> (r: CosmosMsg)
    ensures
        r@ == payment_msg(info@, recipient@, amount),
{
    match info {
        AssetInfo::Token { contract_addr } => get_cw20_transfer_msg(recipient, contract_addr, amount),
        AssetInfo::NativeToken { denom } => get_bank_transfer_to_msg(recipient, denom, amount),
    }
}

/// A request to forward the fee `fee` to `recipient`, in the fee's own
/// asset and out of what the pool holds.
pub fn get_fee_transfer_msg(recipient: &String, fee: &Asset) -> (r: CosmosMsg)
    ensures
        r@ == payment_msg(fee.info@, recipient@, fee.amount),
{
    get_payment_msg(&fee.info, recipient, fee.amount)
}

/// A request to the pool at `contract_addr` to take a deposit of the two
/// fee amounts, each in the asset of its side of a swap, with `funds`
/// attached.
pub fn get_provide_liquidity_msg(
    offer_pool: Asset,
    input_token_fee_amount: u128,
    ask_pool: Asset,
    output_token_fee_amount: u128,
    contract_addr: &String,
    funds: Vec<Coin>,
) -> (r: CosmosMsg)
    ensures
        r@ == (CosmosMsgView::ProvideLiquidity {
            contract_addr: contract_addr@,
            assets: seq![
                AssetView { info: offer_pool.info@, amount: input_token_fee_amount },
                AssetView { info: ask_pool.info@, amount: output_token_fee_amount },
            ],
            funds: funds@.map_values(|c: Coin| c@),
        }),
{
    CosmosMsg::ProvideLiquidity {
        contract_addr: contract_addr.clone(),
        assets: [
            Asset { info: offer_pool.info, amount: input_token_fee_amount },
            Asset { info: ask_pool.info, amount: output_token_fee_amount },
        ],
        funds,
    }
}

} // verus!
