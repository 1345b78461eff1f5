use crate::ico::error::ContractError;
use crate::ico::execute::{
    allocation, allocation_outcome, end_funding, end_funding_outcome, fund_channel_token,
    fund_outcome, instantiation_views, refund, refund_outcome, transfer_fund,
    transfer_fund_outcome, FundResponse, FundResponseView, RefundResponse, RefundResponseView,
    TokenHolder, TransferFundResponse, TransferFundResponseView, END_FUNDING_REPLAY_ID,
};
use crate::ico::msg::{
    ExecuteMsg, FundingAmountResponse, IcoInfoResponse, IcoInfoResponseView, InstantiateMsg,
    IsFundingFinishedResponse, QueryMsg, TokenAddressResponse, TotalFundingAmountResponse,
};
use crate::ico::query::{
    funding_amount, funding_amount_of, funding_finished, ico_info, token_address, total_of,
    total_funding_amount,
};
use crate::ico::state::{Config, ConfigView, Funding};
use crate::pool::contract::{TokenInstantiation, TokenInstantiationView};
use crate::pool::math::{checked_multiply_ratio, mul_ratio};
use crate::utils::{
    get_cw20_mint_msg, get_cw20_transfer_msg, msg_views, CosmosMsg, CosmosMsgView, MessageInfo,
};
use vstd::prelude::*;

verus! {

/// What `instantiate` does: a fundraising in its first state, run by the
/// sender, unless the host rejected the recipient's address.
pub open spec fn instantiate_outcome(sender: Seq<char>, msg: &InstantiateMsg, recipient_ok: bool) -> Result<
    ConfigView,
    ContractError,
> {
    if !recipient_ok {
        Err(ContractError::Generic)
    } else {
        Ok(
            ConfigView {
                admin: sender,
                token_code_id: msg.token_code_id,
                token_name: msg.token_name@,
                token_symbol: msg.token_symbol@,
                target_funding_amount: msg.target_funding,
                current_funding_amount: 0,
                channel_token_amount: msg.channel_token_amount,
                deadline: msg.deadline,
                finished: false,
                token_contract: Seq::empty(),
                pair_contract: Seq::empty(),
                recipient: msg.recipient@,
                is_token_distributed: false,
            },
        )
    }
}

/// Creates a fundraising run by `sender`. `recipient_ok` is the host's
/// verdict on the recipient's address.
pub fn instantiate(sender: &String, msg: &InstantiateMsg, recipient_ok: bool) -> (r: Result<
    Config,
    ContractError,
>)
    ensures
        match instantiate_outcome(sender@, msg, recipient_ok) {
            Ok(state) => r is Ok && r->Ok_0@ == state,
            Err(e) => r is Err && r->Err_0 == e,
        },
{
    if !recipient_ok {
        return Err(ContractError::Generic);
    }
    Ok(
        Config {
            admin: sender.clone(),
            token_code_id: msg.token_code_id,
            token_name: msg.token_name.clone(),
            token_symbol: msg.token_symbol.clone(),
            target_funding_amount: msg.target_funding,
            current_funding_amount: 0,
            channel_token_amount: msg.channel_token_amount,
            deadline: msg.deadline,
            token_contract: String::new(),
            pair_contract: String::new(),
            recipient: msg.recipient.clone(),
            finished: false,
            is_token_distributed: false,
        },
    )
}

/// What the host supplied for one operation.
#[derive(Debug)]
pub struct HostAnswers {
    /// The height of the current block.
    pub block_height: u64,
    /// The fundraising contract's own address.
    pub contract_addr: String,
    /// What is stored under the sender's address, if anything.
    pub funded: Option<u128>,
    /// The channel token's accounts with their balances.
    pub holders: Vec<TokenHolder>,
    /// The channel token's total supply.
    pub total_supply: u128,
}

/// What an operation returns to the host.
#[derive(Debug)]
pub enum ExecuteResponse {
    FundChannelToken(FundResponse),
    EndFunding(Vec<TokenInstantiation>),
    Refund(RefundResponse),
    TransferFund(TransferFundResponse),
    Allocation(Vec<CosmosMsg>),
}

/// The mathematical value of an [`ExecuteResponse`].
pub enum ExecuteResponseView {
    FundChannelToken(FundResponseView),
    EndFunding(Seq<TokenInstantiationView>),
    Refund(RefundResponseView),
    TransferFund(TransferFundResponseView),
    Allocation(Seq<CosmosMsgView>),
}

impl View for ExecuteResponse {
    type V = ExecuteResponseView;

    open spec fn view(&self) -> ExecuteResponseView {
        match self {
            ExecuteResponse::FundChannelToken(r) => ExecuteResponseView::FundChannelToken(r@),
            ExecuteResponse::EndFunding(m) => ExecuteResponseView::EndFunding(
                instantiation_views(m@),
            ),
            ExecuteResponse::Refund(r) => ExecuteResponseView::Refund(r@),
            ExecuteResponse::TransferFund(r) => ExecuteResponseView::TransferFund(r@),
            ExecuteResponse::Allocation(m) => ExecuteResponseView::Allocation(msg_views(m@)),
        }
    }
}

/// What `execute` does: the outcome of the operation that the message
/// names.
pub open spec fn execute_outcome(
    config: ConfigView,
    info: &MessageInfo,
    msg: ExecuteMsg,
    host: &HostAnswers,
) -> Result<(ConfigView, ExecuteResponseView), ContractError> {
    match msg {
        ExecuteMsg::FundChannelToken {  } => match fund_outcome(
            config,
            host.block_height,
            info,
            host.funded,
        ) {
            Ok((state, response)) => Ok((state, ExecuteResponseView::FundChannelToken(response))),
            Err(e) => Err(e),
        },
        ExecuteMsg::EndFunding {  } => match end_funding_outcome(
            config,
            host.block_height,
            info.sender@,
            host.contract_addr@,
        ) {
            Ok((state, sub_msgs)) => Ok((state, ExecuteResponseView::EndFunding(sub_msgs))),
            Err(e) => Err(e),
        },
        ExecuteMsg::Refund {  } => match refund_outcome(
            config,
            host.block_height,
            info.sender@,
            host.funded,
        ) {
            Ok(response) => Ok((config, ExecuteResponseView::Refund(response))),
            Err(e) => Err(e),
        },
        ExecuteMsg::TransferFund { amount } => match transfer_fund_outcome(
            config,
            info.sender@,
            amount,
        ) {
            Ok(response) => Ok((config, ExecuteResponseView::TransferFund(response))),
            Err(e) => Err(e),
        },
        ExecuteMsg::Allocation { amount } => match allocation_outcome(
            info,
            amount,
            host.holders@,
            host.total_supply,
        ) {
            Ok(msgs) => Ok((config, ExecuteResponseView::Allocation(msgs))),
            Err(e) => Err(e),
        },
    }
}

/// Carries out the operation that a message names. On an error the state
/// is left as it was.
pub fn execute(config: &mut Config, info: &MessageInfo, msg: ExecuteMsg, host: &HostAnswers) -> (r:
    Result<ExecuteResponse, ContractError>)
    ensures
        match execute_outcome(old(config)@, info, msg, host) {
            Ok((state, response)) => r is Ok && r->Ok_0@ == response && final(config)@ == state,
            Err(e) => r is Err && r->Err_0 == e && final(config)@ == old(config)@,
        },
{
    match msg {
        ExecuteMsg::FundChannelToken {  } => {
            let response = fund_channel_token(config, host.block_height, info, host.funded)?;
            Ok(ExecuteResponse::FundChannelToken(response))
        },
        ExecuteMsg::EndFunding {  } => {
            let sub_msgs = end_funding(
                config,
                host.block_height,
                &info.sender,
                &host.contract_addr,
            )?;
            Ok(ExecuteResponse::EndFunding(sub_msgs))
        },
        ExecuteMsg::Refund {  } => {
            let response = refund(config, host.block_height, &info.sender, host.funded)?;
            Ok(ExecuteResponse::Refund(response))
        },
        ExecuteMsg::TransferFund { amount } => {
            let response = transfer_fund(config, &info.sender, amount)?;
            Ok(ExecuteResponse::TransferFund(response))
        },
        ExecuteMsg::Allocation { amount } => {
            let msgs = allocation(info, amount, &host.holders, host.total_supply)?;
            Ok(ExecuteResponse::Allocation(msgs))
        },
    }
}

/// The answer to a query.
#[derive(Debug)]
pub enum QueryResponse {
    IcoInfo(IcoInfoResponse),
    FundingAmount(FundingAmountResponse),
    TotalFundingAmount(TotalFundingAmountResponse),
    IsFundingFinished(IsFundingFinishedResponse),
    TokenAddress(TokenAddressResponse),
}

/// Answers a query from the stored state. `address_ok` is the host's
/// verdict on the address in a question about one funder and `funded` what
/// is stored under it; `funding` holds all contributions.
pub fn query(
    config: &Config,
    block_height: u64,
    msg: &QueryMsg,
    address_ok: bool,
    funded: Option<u128>,
    funding: &Vec<Funding>,
) -> (r: Result<QueryResponse, ContractError>)
    ensures
        match msg {
            QueryMsg::IcoInfo {  } => r matches Ok(QueryResponse::IcoInfo(i)) && i@
                == (IcoInfoResponseView {
                admin: config.admin@,
                token_name: config.token_name@,
                token_symbol: config.token_symbol@,
                target_funding_amount: config.target_funding_amount,
                deadline: config.deadline,
            }),
            QueryMsg::FundingAmount { .. } => match funding_amount_of(
                address_ok,
                funded,
            ) {
                Ok(amount) => r matches Ok(QueryResponse::FundingAmount(a)) && a == amount,
                Err(e) => r is Err && r->Err_0 == e,
            },
            QueryMsg::TotalFundingAmount {  } => if total_of(funding@)
                <= u128::MAX {
                r matches Ok(QueryResponse::TotalFundingAmount(t)) && t.amount
                    == total_of(funding@)
            } else {
                r is Err && r->Err_0 == ContractError::Overflow
            },
            QueryMsg::IsFundingFinished {  } => r matches Ok(QueryResponse::IsFundingFinished(f))
                && f.status == (config.finished || block_height > config.deadline),
            QueryMsg::TokenAddress {  } => r matches Ok(QueryResponse::TokenAddress(t))
                && t.address@ == config.token_contract@,
        },
{
    match msg {
        QueryMsg::IcoInfo {  } => Ok(QueryResponse::IcoInfo(ico_info(config))),
        QueryMsg::FundingAmount { .. } => {
            let amount = funding_amount(address_ok, funded)?;
            Ok(QueryResponse::FundingAmount(amount))
        },
        QueryMsg::TotalFundingAmount {  } => {
            let total = total_funding_amount(funding)?;
            Ok(QueryResponse::TotalFundingAmount(total))
        },
        QueryMsg::IsFundingFinished {  } => Ok(
            QueryResponse::IsFundingFinished(funding_finished(config, block_height)),
        ),
        QueryMsg::TokenAddress {  } => Ok(QueryResponse::TokenAddress(token_address(config))),
    }
}

/// The transfers that hand `channel_token_amount` of the token out to the
/// funders in proportion to what each paid in,
/// `floor(channel_token_amount * amount / current_funding_amount)` each;
/// `None` where a share cannot be computed.
pub open spec fn distribution_msgs(
    funding: Seq<Funding>,
    token: Seq<char>,
    channel_token_amount: u128,
    current_funding_amount: u128,
) -> Option<Seq<CosmosMsgView>>
    decreases funding.len(),
{
    if funding.len() == 0 {
        Some(Seq::empty())
    } else {
        let last = funding.last();
        match (
            distribution_msgs(
                funding.drop_last(),
                token,
                channel_token_amount,
                current_funding_amount,
            ),
            mul_ratio(channel_token_amount, last.amount, current_funding_amount),
        ) {
            (Some(msgs), Some(share)) => Some(
                msgs.push(
                    CosmosMsgView::Cw20Transfer {
                        contract_addr: token,
                        recipient: last.addr@,
                        amount: share,
                    },
                ),
            ),
            _ => None,
        }
    }
}

/// Where the shares of some first funders cannot be computed, those of all
/// cannot.
pub proof fn lemma_distribution_fails_on(
    funding: Seq<Funding>,
    token: Seq<char>,
    channel_token_amount: u128,
    current_funding_amount: u128,
    n: int,
)
    requires
        0 <= n <= funding.len(),
        distribution_msgs(funding.take(n), token, channel_token_amount, current_funding_amount)
            is None,
    ensures
        distribution_msgs(funding, token, channel_token_amount, current_funding_amount) is None,
    decreases funding.len() - n,
{
    if n < funding.len() {
        assert(funding.take(n + 1).drop_last() == funding.take(n));
        lemma_distribution_fails_on(
            funding,
            token,
            channel_token_amount,
            current_funding_amount,
            n + 1,
        );
    } else {
        assert(funding.take(n) == funding);
    }
}

/// What the channel token's instantiation returns to the host: the
/// requests to emit, the token's address and the amount minted.
#[derive(Debug)]
pub struct ReplyResponse {
    pub messages: Vec<CosmosMsg>,
    pub channel_token_instantiate: String,
    pub channel_token_mint: u128,
}

/// The mathematical value of a [`ReplyResponse`].
pub struct ReplyResponseView {
    pub messages: Seq<CosmosMsgView>,
    pub channel_token_instantiate: Seq<char>,
    pub channel_token_mint: u128,
}

impl View for ReplyResponse {
    type V = ReplyResponseView;

    open spec fn view(&self) -> ReplyResponseView {
        ReplyResponseView {
            messages: msg_views(self.messages@),
            channel_token_instantiate: self.channel_token_instantiate@,
            channel_token_mint: self.channel_token_mint,
        }
    }
}

/// What `reply` does: it stores the token's address, mints the whole
/// amount to the fundraising contract and hands it out to the funders.
pub open spec fn reply_outcome(
    config: ConfigView,
    reply_id: u64,
    token: Seq<char>,
    contract_addr: Seq<char>,
    funding: Seq<Funding>,
) -> Result<(ConfigView, ReplyResponseView), ContractError> {
    if reply_id != END_FUNDING_REPLAY_ID {
        Err(ContractError::NotFound)
    } else {
        match distribution_msgs(
            funding,
            token,
            config.channel_token_amount,
            config.current_funding_amount,
        ) {
            None => Err(ContractError::Generic),
            Some(transfers) => Ok(
                (
                    ConfigView { token_contract: token, ..config },
                    ReplyResponseView {
                        messages: seq![
                            CosmosMsgView::Cw20Mint {
                                contract_addr: token,
                                recipient: contract_addr,
                                amount: config.channel_token_amount,
                            },
                        ] + transfers,
                        channel_token_instantiate: token,
                        channel_token_mint: config.channel_token_amount,
                    },
                ),
            ),
        }
    }
}

/// Takes the report of the channel token's instantiation. `token` is the
/// address of the new token contract, `contract_addr` the fundraising
/// contract's own address and `funding` all contributions, in the order of
/// their addresses. On an error the state is left as it was.
pub fn reply(
    config: &mut Config,
    reply_id: u64,
    token: &String,
    contract_addr: &String,
    funding: &Vec<Funding>,
) -> (r: Result<ReplyResponse, ContractError>)
    ensures
        match reply_outcome(old(config)@, reply_id, token@, contract_addr@, funding@) {
            Ok((state, response)) => r is Ok && r->Ok_0@ == response && final(config)@ == state,
            Err(e) => r is Err && r->Err_0 == e && final(config)@ == old(config)@,
        },
{
    if reply_id != END_FUNDING_REPLAY_ID {
        return Err(ContractError::NotFound);
    }
    let mint_msg = get_cw20_mint_msg(contract_addr, config.channel_token_amount, token);
    let mut messages: Vec<CosmosMsg> = Vec::new();
    messages.push(mint_msg);
    let ghost minted = seq![mint_msg@];
    assert(msg_views(messages@) == minted + Seq::<CosmosMsgView>::empty());
    assert(funding@.take(0) == Seq::<Funding>::empty());
    let mut i: usize = 0;
    while i < funding.len()
        invariant
            i <= funding.len(),
            reply_id == END_FUNDING_REPLAY_ID,
            *config == *old(config),
            distribution_msgs(
                funding@.take(i as int),
                token@,
                config.channel_token_amount,
                config.current_funding_amount,
            ) is Some,
            msg_views(messages@) == minted + distribution_msgs(
                funding@.take(i as int),
                token@,
                config.channel_token_amount,
                config.current_funding_amount,
            )->Some_0,
        decreases funding.len() - i,
    {
        let ghost before = msg_views(messages@);
        assert(funding@.take(i + 1).drop_last() == funding@.take(i as int));
        assert(funding@.take(i + 1).last() == funding@[i as int]);
        match checked_multiply_ratio(
            config.channel_token_amount,
            funding[i].amount,
            config.current_funding_amount,
        ) {
            Some(share) => {
                let msg = get_cw20_transfer_msg(&funding[i].addr, token, share);
                messages.push(msg);
                assert(msg_views(messages@) == before.push(msg@));
            },
            None => {
                proof {
                    lemma_distribution_fails_on(
                        funding@,
                        token@,
                        config.channel_token_amount,
                        config.current_funding_amount,
                        i + 1,
                    );
                }
                return Err(ContractError::Generic);
            },
        }
        i += 1;
    }
    assert(funding@.take(i as int) == funding@);
    config.token_contract = token.clone();
    Ok(
        ReplyResponse {
            messages,
            channel_token_instantiate: token.clone(),
            channel_token_mint: config.channel_token_amount,
        },
    )
}

} // verus!
