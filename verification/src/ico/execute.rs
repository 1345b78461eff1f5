use crate::asset::{find_sent_amount, sent_amount};
use crate::ico::error::ContractError;
use crate::ico::state::{Config, ConfigView};
use crate::pool::contract::{TokenInstantiation, TokenInstantiationView};
use crate::pool::math::{checked_multiply_ratio, mul_ratio};
use crate::utils::{
    get_bank_transfer_to_msg, msg_views, CosmosMsg, CosmosMsgView, MessageInfo,
};
use vstd::prelude::*;
use vstd::string::StringExecFns;

verus! {

/// The reply id under which the channel token's instantiation reports
/// back.
pub const END_FUNDING_REPLAY_ID: u64 = 1;

/// What a contribution returns to the host: the requests to emit, the part
/// of the attached coins that went into the funding, and what the sender
/// has paid in altogether, to be stored under the sender's address.
#[derive(Debug)]
pub struct FundResponse {
    pub messages: Vec<CosmosMsg>,
    pub amount: u128,
    pub funding: u128,
}

/// The mathematical value of a [`FundResponse`].
pub struct FundResponseView {
    pub messages: Seq<CosmosMsgView>,
    pub amount: u128,
    pub funding: u128,
}

impl View for FundResponse {
    type V = FundResponseView;

    open spec fn view(&self) -> FundResponseView {
        FundResponseView {
            messages: msg_views(self.messages@),
            amount: self.amount,
            funding: self.funding,
        }
    }
}

/// The request that hands back what a contribution brings beyond the
/// target, if anything.
pub open spec fn excess_msgs(to: Seq<char>, refund_amount: u128) -> Seq<CosmosMsgView> {
    if refund_amount != 0 {
        seq![CosmosMsgView::BankSend { to_address: to, denom: "ukrw"@, amount: refund_amount }]
    } else {
        Seq::empty()
    }
}

/// What `fund_channel_token` does: the new state and the response, or the
/// error. The funding takes of the attached coins what is missing to the
/// target and hands the rest back; it is finished once the target is
/// reached.
pub open spec fn fund_outcome(
    config: ConfigView,
    block_height: u64,
    info: &MessageInfo,
    funded_so_far: Option<u128>,
) -> Result<(ConfigView, FundResponseView), ContractError> {
    if block_height > config.deadline || config.finished {
        Err(ContractError::FundingFinished)
    } else if config.target_funding_amount < config.current_funding_amount {
        Err(ContractError::Overflow)
    } else {
        let missing = (config.target_funding_amount - config.current_funding_amount) as u128;
        match sent_amount(info.funds@, "ukrw"@) {
            None => Err(ContractError::InvalidCoinAmount),
            Some(sent) => if sent == 0 {
                Err(ContractError::InvalidCoinAmount)
            } else {
                let fund_amount = if missing < sent {
                    missing
                } else {
                    sent
                };
                let before = match funded_so_far {
                    Some(amount) => amount,
                    None => 0,
                };
                if before + fund_amount > u128::MAX {
                    Err(ContractError::Overflow)
                } else {
                    Ok(
                        (
                            ConfigView {
                                current_funding_amount: (config.current_funding_amount
                                    + fund_amount) as u128,
                                finished: config.current_funding_amount + fund_amount
                                    >= config.target_funding_amount,
                                ..config
                            },
                            FundResponseView {
                                messages: excess_msgs(info.sender@, (sent - fund_amount) as u128),
                                amount: fund_amount,
                                funding: (before + fund_amount) as u128,
                            },
                        ),
                    )
                }
            },
        }
    }
}

/// Pays the attached coins into the funding. `funded_so_far` is what is
/// stored under the sender's address, if anything. On an error the state
/// is left as it was.
pub fn fund_channel_token(
    config: &mut Config,
    block_height: u64,
    info: &MessageInfo,
    funded_so_far: Option<u128>,
) -> (r: Result<FundResponse, ContractError>)
    ensures
        match fund_outcome(old(config)@, block_height, info, funded_so_far) {
            Ok((state, response)) => r is Ok && r->Ok_0@ == response && final(config)@ == state,
            Err(e) => r is Err && r->Err_0 == e && final(config)@ == old(config)@,
        },
{
    if block_height > config.deadline {
        return Err(ContractError::FundingFinished);
    }
    if config.is_finished() {
        return Err(ContractError::FundingFinished);
    }
    let max_fund_available_amount = match config.target_funding_amount.checked_sub(
        config.current_funding_amount,
    ) {
        Some(amount) => amount,
        None => { return Err(ContractError::Overflow); },
    };
    let denom = String::from_str("ukrw");
    let input_amount = match find_sent_amount(&info.funds, &denom) {
        Some(amount) => amount,
        None => { return Err(ContractError::InvalidCoinAmount); },
    };
    if input_amount == 0 {
        return Err(ContractError::InvalidCoinAmount);
    }
    let (fund_amount, refund_amount) = if max_fund_available_amount < input_amount {
        (max_fund_available_amount, input_amount - max_fund_available_amount)
    } else {
        (input_amount, 0)
    };
    let new_funding = match funded_so_far {
        Some(funding) => match funding.checked_add(fund_amount) {
            Some(sum) => sum,
            None => { return Err(ContractError::Overflow); },
        },
        None => fund_amount,
    };

    let mut messages: Vec<CosmosMsg> = Vec::new();
    assert(msg_views(messages@) == Seq::<CosmosMsgView>::empty());
    if refund_amount != 0 {
        let msg = get_bank_transfer_to_msg(&info.sender, &denom, refund_amount);
        messages.push(msg);
        assert(msg_views(messages@) == seq![msg@]);
    }
    config.current_funding_amount = config.current_funding_amount + fund_amount;
    if config.current_funding_amount >= config.target_funding_amount {
        config.finished = true;
    }
    Ok(FundResponse { messages, amount: fund_amount, funding: new_funding })
}

/// The label of a channel token's contract.
pub open spec fn channel_token_label(token_name: Seq<char>) -> Seq<char> {
    token_name + " channel token"@
}

/// What `end_funding` does: the new state and the requests to emit, or the
/// error. Where the target was reached, the channel token is instantiated
/// with the fundraising contract as its minter.
pub open spec fn end_funding_outcome(
    config: ConfigView,
    block_height: u64,
    sender: Seq<char>,
    contract_addr: Seq<char>,
) -> Result<(ConfigView, Seq<TokenInstantiationView>), ContractError> {
    if config.is_token_distributed {
        Err(ContractError::TokenAlreadyDistributed)
    } else if !config.finished && block_height < config.deadline {
        Err(ContractError::FundingNotFinished)
    } else if config.admin != sender {
        Err(ContractError::Unauthorized)
    } else {
        Ok(
            (
                ConfigView { is_token_distributed: true, ..config },
                if config.finished {
                    seq![
                        TokenInstantiationView {
                            reply_id: END_FUNDING_REPLAY_ID,
                            admin: sender,
                            code_id: config.token_code_id,
                            name: config.token_name,
                            symbol: config.token_symbol,
                            decimals: 6,
                            minter: contract_addr,
                            label: channel_token_label(config.token_name),
                        },
                    ]
                } else {
                    Seq::empty()
                },
            ),
        )
    }
}

/// The values of a list of instantiation requests, in order.
pub open spec fn instantiation_views(msgs: Seq<TokenInstantiation>) -> Seq<TokenInstantiationView> {
    msgs.map_values(|m: TokenInstantiation| m@)
}

/// Closes the funding on the administrator's request, once the target is
/// reached or the deadline has come. `contract_addr` is the fundraising
/// contract's own address. On an error the state is left as it was.
pub fn end_funding(
    config: &mut Config,
    block_height: u64,
    sender: &String,
    contract_addr: &String,
) -> (r: Result<Vec<TokenInstantiation>, ContractError>)
    ensures
        match end_funding_outcome(old(config)@, block_height, sender@, contract_addr@) {
            Ok((state, sub_msgs)) => r is Ok && instantiation_views(r->Ok_0@) == sub_msgs
                && final(config)@ == state,
            Err(e) => r is Err && r->Err_0 == e && final(config)@ == old(config)@,
        },
{
    if config.is_token_distributed {
        return Err(ContractError::TokenAlreadyDistributed);
    }
    if !config.is_finished() && block_height < config.deadline {
        return Err(ContractError::FundingNotFinished);
    }
    if config.admin != *sender {
        return Err(ContractError::Unauthorized);
    }
    let mut sub_msg: Vec<TokenInstantiation> = Vec::new();
    assert(instantiation_views(sub_msg@) == Seq::<TokenInstantiationView>::empty());
    if config.is_finished() {
        let msg = TokenInstantiation {
            reply_id: END_FUNDING_REPLAY_ID,
            admin: sender.clone(),
            code_id: config.token_code_id,
            name: config.token_name.clone(),
            symbol: config.token_symbol.clone(),
            decimals: 6,
            minter: contract_addr.clone(),
            label: config.token_name.clone().concat(" channel token"),
        };
        let ghost view = msg@;
        sub_msg.push(msg);
        assert(instantiation_views(sub_msg@) == seq![view]);
    }
    config.is_token_distributed = true;
    Ok(sub_msg)
}

/// What a refund returns to the host: the request to emit and the amount
/// handed back. The sender's entry is to be removed.
#[derive(Debug)]
pub struct RefundResponse {
    pub messages: Vec<CosmosMsg>,
    pub amount: u128,
}

/// The mathematical value of a [`RefundResponse`].
pub struct RefundResponseView {
    pub messages: Seq<CosmosMsgView>,
    pub amount: u128,
}

impl View for RefundResponse {
    type V = RefundResponseView;

    open spec fn view(&self) -> RefundResponseView {
        RefundResponseView { messages: msg_views(self.messages@), amount: self.amount }
    }
}

/// What `refund` does: a funder gets the contribution back once the
/// deadline has come with the target missed.
pub open spec fn refund_outcome(
    config: ConfigView,
    block_height: u64,
    sender: Seq<char>,
    funded: Option<u128>,
) -> Result<RefundResponseView, ContractError> {
    if block_height < config.deadline {
        Err(ContractError::FundingNotFinished)
    } else if config.finished {
        Err(ContractError::FundingFinished)
    } else {
        match funded {
            None => Err(ContractError::NotFound),
            Some(amount) => Ok(
                RefundResponseView {
                    messages: seq![
                        CosmosMsgView::BankSend { to_address: sender, denom: "ukrw"@, amount },
                    ],
                    amount,
                },
            ),
        }
    }
}

/// Hands a funder's contribution back. `funded` is what is stored under
/// the sender's address, if anything.
pub fn refund(config: &Config, block_height: u64, sender: &String, funded: Option<u128>) -> (r:
    Result<RefundResponse, ContractError>)
    ensures
        match refund_outcome(config@, block_height, sender@, funded) {
            Ok(response) => r is Ok && r->Ok_0@ == response,
            Err(e) => r is Err && r->Err_0 == e,
        },
{
    if block_height < config.deadline {
        return Err(ContractError::FundingNotFinished);
    }
    if config.is_finished() {
        return Err(ContractError::FundingFinished);
    }
    let amount = match funded {
        Some(amount) => amount,
        None => { return Err(ContractError::NotFound); },
    };
    let denom = String::from_str("ukrw");
    let msg = get_bank_transfer_to_msg(sender, &denom, amount);
    let mut messages: Vec<CosmosMsg> = Vec::new();
    messages.push(msg);
    assert(msg_views(messages@) == seq![msg@]);
    Ok(RefundResponse { messages, amount })
}

/// What a transfer of funds returns to the host: the request to emit, the
/// recipient and the amount.
#[derive(Debug)]
pub struct TransferFundResponse {
    pub messages: Vec<CosmosMsg>,
    pub to: String,
    pub amount: u128,
}

/// The mathematical value of a [`TransferFundResponse`].
pub struct TransferFundResponseView {
    pub messages: Seq<CosmosMsgView>,
    pub to: Seq<char>,
    pub amount: u128,
}

impl View for TransferFundResponse {
    type V = TransferFundResponseView;

    open spec fn view(&self) -> TransferFundResponseView {
        TransferFundResponseView {
            messages: msg_views(self.messages@),
            to: self.to@,
            amount: self.amount,
        }
    }
}

/// What `transfer_fund` does: the administrator sends funds to the
/// recipient once the target is reached.
pub open spec fn transfer_fund_outcome(config: ConfigView, sender: Seq<char>, amount: u128) -> Result<
    TransferFundResponseView,
    ContractError,
> {
    if config.admin != sender {
        Err(ContractError::Unauthorized)
    } else if !config.finished {
        Err(ContractError::FundingNotFinished)
    } else {
        Ok(
            TransferFundResponseView {
                messages: seq![
                    CosmosMsgView::BankSend {
                        to_address: config.recipient,
                        denom: "ukrw"@,
                        amount,
                    },
                ],
                to: config.recipient,
                amount,
            },
        )
    }
}

/// Sends `amount` of the funds to the recipient.
pub fn transfer_fund(config: &Config, sender: &String, amount: u128) -> (r: Result<
    TransferFundResponse,
    ContractError,
>)
    ensures
        match transfer_fund_outcome(config@, sender@, amount) {
            Ok(response) => r is Ok && r->Ok_0@ == response,
            Err(e) => r is Err && r->Err_0 == e,
        },
{
    if config.admin != *sender {
        return Err(ContractError::Unauthorized);
    }
    if !config.is_finished() {
        return Err(ContractError::FundingNotFinished);
    }
    let denom = String::from_str("ukrw");
    let transfer_msg = get_bank_transfer_to_msg(&config.recipient, &denom, amount);
    let mut messages: Vec<CosmosMsg> = Vec::new();
    messages.push(transfer_msg);
    assert(msg_views(messages@) == seq![transfer_msg@]);
    Ok(TransferFundResponse { messages, to: config.recipient.clone(), amount })
}

/// A holder of the channel token and the balance held.
#[derive(Debug)]
pub struct TokenHolder {
    pub address: String,
    pub balance: u128,
}

/// The sends that hand `fund` out to `holders` in proportion to their
/// balances, `floor(fund * balance / total_supply)` each and nothing to a
/// holder of nothing; `None` where a share cannot be computed.
pub open spec fn allocation_msgs(holders: Seq<TokenHolder>, fund: u128, total_supply: u128) -> Option<
    Seq<CosmosMsgView>,
>
    decreases holders.len(),
{
    if holders.len() == 0 {
        Some(Seq::empty())
    } else {
        let last = holders.last();
        match allocation_msgs(holders.drop_last(), fund, total_supply) {
            None => None,
            Some(msgs) => if last.balance == 0 {
                Some(msgs)
            } else {
                match mul_ratio(fund, last.balance, total_supply) {
                    None => None,
                    Some(share) => Some(
                        msgs.push(
                            CosmosMsgView::BankSend {
                                to_address: last.address@,
                                denom: "ukrw"@,
                                amount: share,
                            },
                        ),
                    ),
                }
            },
        }
    }
}

/// Where the shares of some first holders cannot be computed, those of all
/// cannot.
pub proof fn lemma_allocation_fails_on(
    holders: Seq<TokenHolder>,
    fund: u128,
    total_supply: u128,
    n: int,
)
    requires
        0 <= n <= holders.len(),
        allocation_msgs(holders.take(n), fund, total_supply) is None,
    ensures
        allocation_msgs(holders, fund, total_supply) is None,
    decreases holders.len() - n,
{
    if n < holders.len() {
        assert(holders.take(n + 1).drop_last() == holders.take(n));
        lemma_allocation_fails_on(holders, fund, total_supply, n + 1);
    } else {
        assert(holders.take(n) == holders);
    }
}

/// What `allocation` does: the sends to the holders, or the error.
pub open spec fn allocation_outcome(
    info: &MessageInfo,
    amount: u128,
    holders: Seq<TokenHolder>,
    total_supply: u128,
) -> Result<Seq<CosmosMsgView>, ContractError> {
    match sent_amount(info.funds@, "ukrw"@) {
        None => Err(ContractError::InvalidCoinAmount),
        Some(sent) => if sent != amount {
            Err(ContractError::InvalidCoinAmount)
        } else {
            match allocation_msgs(holders, sent, total_supply) {
                Some(msgs) => Ok(msgs),
                None => Err(ContractError::Overflow),
            }
        },
    }
}

/// Hands the attached coins out to the holders of the channel token in
/// proportion to their balances. `holders` are the token's accounts with
/// their balances and `total_supply` its total supply, as the token
/// reported them.
pub fn allocation(
    info: &MessageInfo,
    amount: u128,
    holders: &Vec<TokenHolder>,
    total_supply: u128,
) -> (r: Result<Vec<CosmosMsg>, ContractError>)
    ensures
        match allocation_outcome(info, amount, holders@, total_supply) {
            Ok(msgs) => r is Ok && msg_views(r->Ok_0@) == msgs,
            Err(e) => r is Err && r->Err_0 == e,
        },
{
    let denom = String::from_str("ukrw");
    let fund = match find_sent_amount(&info.funds, &denom) {
        Some(fund) => fund,
        None => { return Err(ContractError::InvalidCoinAmount); },
    };
    if fund != amount {
        return Err(ContractError::InvalidCoinAmount);
    }
    let mut transfer_msgs: Vec<CosmosMsg> = Vec::new();
    let mut i: usize = 0;
    assert(holders@.take(0) == Seq::<TokenHolder>::empty());
    assert(msg_views(transfer_msgs@) == Seq::<CosmosMsgView>::empty());
    while i < holders.len()
        invariant
            i <= holders.len(),
            denom@ == "ukrw"@,
            sent_amount(info.funds@, "ukrw"@) == Some(fund),
            fund == amount,
            allocation_msgs(holders@.take(i as int), fund, total_supply) == Some(
                msg_views(transfer_msgs@),
            ),
        decreases holders.len() - i,
    {
        let ghost before = msg_views(transfer_msgs@);
        assert(holders@.take(i + 1).drop_last() == holders@.take(i as int));
        if holders[i].balance != 0 {
            match checked_multiply_ratio(fund, holders[i].balance, total_supply) {
                Some(share) => {
                    let msg = get_bank_transfer_to_msg(&holders[i].address, &denom, share);
                    transfer_msgs.push(msg);
                    assert(msg_views(transfer_msgs@) == before.push(msg@));
                },
                None => {
                    proof {
                        assert(holders@.take(i + 1).last() == holders@[i as int]);
                        lemma_allocation_fails_on(holders@, fund, total_supply, i + 1);
                    }
                    return Err(ContractError::Overflow);
                },
            }
        }
        i += 1;
    }
    assert(holders@.take(i as int) == holders@);
    Ok(transfer_msgs)
}

} // verus!
