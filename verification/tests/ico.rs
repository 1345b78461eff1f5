use ysip::asset::Coin;
use ysip::ico::contract::{
    execute, instantiate, query, reply, ExecuteResponse, HostAnswers, QueryResponse,
};
use ysip::ico::error::ContractError;
use ysip::ico::execute::{
    allocation, end_funding, fund_channel_token, refund, transfer_fund, TokenHolder,
    END_FUNDING_REPLAY_ID,
};
use ysip::ico::msg::{
    ExecuteMsg, FundingAmountResponse, InstantiateMsg, IsFundingFinishedResponse,
    PairAddressResponse, QueryMsg, TokenAddressResponse, TotalFundingAmountResponse,
};
use ysip::ico::query::{
    funding_amount, funding_finished, ico_info, token_address, total_funding_amount,
};
use ysip::ico::state::{Config, Funding};
use ysip::utils::{CosmosMsg, MessageInfo};

const ADDR: &str = "cosmos18zfp9u7zxg3gel4r3txa2jqxme7jkw7dnvfjc8";
const CONTRACT: &str = "cosmos2contract";
const HEIGHT: u64 = 12_345;

fn coin(amount: u128, denom: &str) -> Coin {
    Coin {
        denom: denom.to_string(),
        amount,
    }
}

fn mock_info(sender: &str, funds: &[Coin]) -> MessageInfo {
    MessageInfo {
        sender: sender.to_string(),
        funds: funds.to_vec(),
    }
}

fn config() -> Config {
    Config {
        admin: ADDR.to_string(),
        token_code_id: 1,
        token_name: "channel".to_string(),
        token_symbol: "CHANNEL".to_string(),
        target_funding_amount: 100,
        current_funding_amount: 0,
        channel_token_amount: 100000,
        deadline: 12_346,
        finished: false,
        token_contract: "".to_string(),
        pair_contract: "".to_string(),
        recipient: ADDR.to_string(),
        is_token_distributed: false,
    }
}

fn show(msgs: &[CosmosMsg]) -> Vec<String> {
    msgs.iter().map(|m| format!("{:?}", m)).collect()
}

fn bank_send(to: &str, amount: u128) -> String {
    format!(
        "{:?}",
        CosmosMsg::BankSend {
            to_address: to.to_string(),
            denom: "ukrw".to_string(),
            amount,
        }
    )
}

#[test]
fn test_fund_channel_token() {
    let mut config = Config {
        admin: ADDR.to_string(),
        token_code_id: 1,
        token_name: "channel".to_string(),
        token_symbol: "CHANNEL".to_string(),
        target_funding_amount: 100,
        current_funding_amount: 0,
        channel_token_amount: 100000,
        deadline: 12_346,
        finished: false,
        token_contract: "".to_string(),
        pair_contract: "".to_string(),
        recipient: ADDR.to_string(),
        is_token_distributed: false,
    };

    let res = fund_channel_token(
        &mut config,
        HEIGHT,
        &mock_info(ADDR, &[coin(10000, "ukrw")]),
        None,
    )
    .unwrap();
    let funding = res.funding;
    assert_eq!(funding, 100);
    assert_eq!(res.amount, 100);
    assert_eq!(show(&res.messages), vec![bank_send(ADDR, 9900)]);
    assert_eq!(config.current_funding_amount, 100);
    assert!(config.is_finished());

    let res = end_funding(&mut config, HEIGHT, &ADDR.to_string(), &CONTRACT.to_string()).unwrap();
    assert_eq!(res.len(), 1);
    assert_eq!(res[0].reply_id, END_FUNDING_REPLAY_ID);
    assert_eq!(res[0].admin, ADDR);
    assert_eq!(res[0].code_id, 1);
    assert_eq!(res[0].name, "channel");
    assert_eq!(res[0].symbol, "CHANNEL");
    assert_eq!(res[0].decimals, 6);
    assert_eq!(res[0].minter, CONTRACT);
    assert_eq!(res[0].label, "channel channel token");
    assert!(config.is_token_distributed);
}

#[test]
fn funding_adds_up_per_funder() {
    let mut config = config();
    let res = fund_channel_token(&mut config, HEIGHT, &mock_info("a", &[coin(30, "ukrw")]), None)
        .unwrap();
    assert_eq!((res.amount, res.funding, res.messages.len()), (30, 30, 0));
    assert!(!config.is_finished());
    let res = fund_channel_token(
        &mut config,
        12_346,
        &mock_info("a", &[coin(5, "uusd"), coin(70, "ukrw")]),
        Some(30),
    )
    .unwrap();
    assert_eq!((res.amount, res.funding, res.messages.len()), (70, 100, 0));
    assert_eq!(config.current_funding_amount, 100);
    assert!(config.is_finished());
}

#[test]
fn funding_refused() {
    let mut c = config();
    let paid = mock_info("a", &[coin(30, "ukrw")]);
    assert_eq!(
        fund_channel_token(&mut c, 12_347, &paid, None).unwrap_err(),
        ContractError::FundingFinished
    );
    c.finished = true;
    assert_eq!(
        fund_channel_token(&mut c, HEIGHT, &paid, None).unwrap_err(),
        ContractError::FundingFinished
    );
    let mut c = config();
    c.current_funding_amount = 101;
    assert_eq!(
        fund_channel_token(&mut c, HEIGHT, &paid, None).unwrap_err(),
        ContractError::Overflow
    );
    let mut c = config();
    assert_eq!(
        fund_channel_token(&mut c, HEIGHT, &mock_info("a", &[coin(30, "uusd")]), None).unwrap_err(),
        ContractError::InvalidCoinAmount
    );
    assert_eq!(
        fund_channel_token(&mut c, HEIGHT, &mock_info("a", &[coin(0, "ukrw")]), None).unwrap_err(),
        ContractError::InvalidCoinAmount
    );
    assert_eq!(
        fund_channel_token(&mut c, HEIGHT, &paid, Some(u128::MAX)).unwrap_err(),
        ContractError::Overflow
    );
    assert_eq!(c.current_funding_amount, 0);
    assert!(!c.finished);
}

#[test]
fn end_funding_refused() {
    let sender = ADDR.to_string();
    let contract = CONTRACT.to_string();
    let mut c = config();
    assert_eq!(
        end_funding(&mut c, HEIGHT, &sender, &contract).unwrap_err(),
        ContractError::FundingNotFinished
    );
    assert_eq!(
        end_funding(&mut c, 12_346, &"someone".to_string(), &contract).unwrap_err(),
        ContractError::Unauthorized
    );
    assert!(!c.is_token_distributed);
    // the deadline has come with the target missed: closed without a token
    assert_eq!(end_funding(&mut c, 12_346, &sender, &contract).unwrap().len(), 0);
    assert!(c.is_token_distributed);
    assert_eq!(
        end_funding(&mut c, 12_346, &sender, &contract).unwrap_err(),
        ContractError::TokenAlreadyDistributed
    );
}

#[test]
fn refund_after_a_missed_target() {
    let c = config();
    let sender = "a".to_string();
    let res = refund(&c, 12_346, &sender, Some(30)).unwrap();
    assert_eq!(res.amount, 30);
    assert_eq!(show(&res.messages), vec![bank_send("a", 30)]);
    assert_eq!(
        refund(&c, HEIGHT, &sender, Some(30)).unwrap_err(),
        ContractError::FundingNotFinished
    );
    assert_eq!(
        refund(&c, 12_346, &sender, None).unwrap_err(),
        ContractError::NotFound
    );
    let mut c = config();
    c.finished = true;
    assert_eq!(
        refund(&c, 12_346, &sender, Some(30)).unwrap_err(),
        ContractError::FundingFinished
    );
}

#[test]
fn transfer_of_the_funds() {
    let mut c = config();
    c.recipient = "addr3".to_string();
    assert_eq!(
        transfer_fund(&c, &ADDR.to_string(), 500).unwrap_err(),
        ContractError::FundingNotFinished
    );
    c.finished = true;
    assert_eq!(
        transfer_fund(&c, &"someone".to_string(), 500).unwrap_err(),
        ContractError::Unauthorized
    );
    let res = transfer_fund(&c, &ADDR.to_string(), 500).unwrap();
    assert_eq!(res.to, "addr3");
    assert_eq!(res.amount, 500);
    assert_eq!(show(&res.messages), vec![bank_send("addr3", 500)]);
}

fn holder(address: &str, balance: u128) -> TokenHolder {
    TokenHolder {
        address: address.to_string(),
        balance,
    }
}

#[test]
fn allocation_in_proportion() {
    let holders = vec![holder("a", 500_000), holder("b", 0), holder("c", 333_333), holder("d", 166_667)];
    let paid = mock_info(ADDR, &[coin(100_000, "ukrw")]);
    let msgs = allocation(&paid, 100_000, &holders, 1_000_000).unwrap();
    assert_eq!(
        show(&msgs),
        vec![bank_send("a", 50_000), bank_send("c", 33_333), bank_send("d", 16_666)]
    );
    assert_eq!(allocation(&paid, 100_000, &vec![], 0).unwrap().len(), 0);
    assert_eq!(
        allocation(&paid, 99_999, &holders, 1_000_000).unwrap_err(),
        ContractError::InvalidCoinAmount
    );
    assert_eq!(
        allocation(&mock_info(ADDR, &[]), 0, &holders, 1_000_000).unwrap_err(),
        ContractError::InvalidCoinAmount
    );
    assert_eq!(
        allocation(&paid, 100_000, &holders, 0).unwrap_err(),
        ContractError::Overflow
    );
    assert_eq!(
        allocation(
            &mock_info(ADDR, &[coin(u128::MAX, "ukrw")]),
            u128::MAX,
            &vec![holder("a", 1), holder("b", 2)],
            1
        )
        .unwrap_err(),
        ContractError::Overflow
    );
    // the product passes 128 bits, the share does not
    let msgs = allocation(
        &mock_info(ADDR, &[coin(u128::MAX, "ukrw")]),
        u128::MAX,
        &vec![holder("a", 1_000_000)],
        2_000_000,
    )
    .unwrap();
    assert_eq!(show(&msgs), vec![bank_send("a", u128::MAX / 2)]);
}

#[test]
fn instantiate_a_fundraising() {
    let msg = InstantiateMsg {
        target_funding: 500,
        deadline: 123_46,
        token_code_id: 3,
        pair_code_id: 4,
        token_name: "channel".to_string(),
        token_symbol: "CHANNEL".to_string(),
        channel_token_amount: 1000000,
        recipient: "addr3".to_string(),
    };
    let c = instantiate(&ADDR.to_string(), &msg, true).unwrap();
    assert_eq!(c.admin, ADDR);
    assert_eq!(c.token_code_id, 3);
    assert_eq!(c.token_name, "channel");
    assert_eq!(c.token_symbol, "CHANNEL");
    assert_eq!(c.target_funding_amount, 500);
    assert_eq!(c.current_funding_amount, 0);
    assert_eq!(c.channel_token_amount, 1000000);
    assert_eq!(c.deadline, 12346);
    assert!(!c.finished);
    assert_eq!(c.token_contract, "");
    assert_eq!(c.pair_contract, "");
    assert_eq!(c.recipient, "addr3");
    assert!(!c.is_token_distributed);
    assert_eq!(c.clone().recipient, "addr3");
    assert_eq!(
        instantiate(&ADDR.to_string(), &msg, false).unwrap_err(),
        ContractError::Generic
    );
}

fn funding(addr: &str, amount: u128) -> Funding {
    Funding {
        addr: addr.to_string(),
        amount,
    }
}

#[test]
fn reply_mints_and_hands_out() {
    let mut c = config();
    c.current_funding_amount = 500;
    c.channel_token_amount = 1_000_000;
    let entries = vec![funding("addr1", 250), funding("addr2", 249), funding("addr3", 1)];
    let res = reply(
        &mut c,
        END_FUNDING_REPLAY_ID,
        &"token".to_string(),
        &CONTRACT.to_string(),
        &entries,
    )
    .unwrap();
    assert_eq!(res.channel_token_instantiate, "token");
    assert_eq!(res.channel_token_mint, 1_000_000);
    let transfer = |to: &str, amount: u128| {
        format!(
            "{:?}",
            CosmosMsg::Cw20Transfer {
                contract_addr: "token".to_string(),
                recipient: to.to_string(),
                amount,
            }
        )
    };
    assert_eq!(
        show(&res.messages),
        vec![
            format!(
                "{:?}",
                CosmosMsg::Cw20Mint {
                    contract_addr: "token".to_string(),
                    recipient: CONTRACT.to_string(),
                    amount: 1_000_000,
                }
            ),
            transfer("addr1", 500_000),
            transfer("addr2", 498_000),
            transfer("addr3", 2_000),
        ]
    );
    assert_eq!(c.token_contract, "token");
}

#[test]
fn reply_refused() {
    let mut c = config();
    let entries = vec![funding("addr1", 250)];
    assert_eq!(
        reply(&mut c, 2, &"token".to_string(), &CONTRACT.to_string(), &entries).unwrap_err(),
        ContractError::NotFound
    );
    // nothing was funded: the shares cannot be computed
    assert_eq!(
        reply(&mut c, 1, &"token".to_string(), &CONTRACT.to_string(), &entries).unwrap_err(),
        ContractError::Generic
    );
    assert_eq!(c.token_contract, "");
    c.current_funding_amount = 1;
    c.channel_token_amount = u128::MAX;
    assert_eq!(
        reply(
            &mut c,
            1,
            &"token".to_string(),
            &CONTRACT.to_string(),
            &vec![funding("addr1", 1), funding("addr2", 2)]
        )
        .unwrap_err(),
        ContractError::Generic
    );
    assert_eq!(c.token_contract, "");
}

#[test]
fn fundraising_execute_carries_out_the_named_operation() {
    let mut c = config();
    let mut host = HostAnswers {
        block_height: HEIGHT,
        contract_addr: CONTRACT.to_string(),
        funded: None,
        holders: vec![holder("a", 1), holder("b", 3)],
        total_supply: 4,
    };
    let paid = mock_info(ADDR, &[coin(250, "ukrw")]);
    match execute(&mut c, &paid, ExecuteMsg::FundChannelToken {}, &host).unwrap() {
        ExecuteResponse::FundChannelToken(r) => {
            assert_eq!(r.amount, 100);
            assert_eq!(show(&r.messages), vec![bank_send(ADDR, 150)]);
        }
        _ => panic!("another operation answered"),
    }
    assert_eq!(
        execute(&mut c, &paid, ExecuteMsg::Refund {}, &host).unwrap_err(),
        ContractError::FundingNotFinished
    );
    host.block_height = 12_346;
    host.funded = Some(100);
    assert_eq!(
        execute(&mut c, &paid, ExecuteMsg::Refund {}, &host).unwrap_err(),
        ContractError::FundingFinished
    );
    match execute(&mut c, &paid, ExecuteMsg::EndFunding {}, &host).unwrap() {
        ExecuteResponse::EndFunding(m) => assert_eq!(m.len(), 1),
        _ => panic!("another operation answered"),
    }
    match execute(&mut c, &paid, ExecuteMsg::TransferFund { amount: 100 }, &host).unwrap() {
        ExecuteResponse::TransferFund(r) => assert_eq!(r.amount, 100),
        _ => panic!("another operation answered"),
    }
    match execute(&mut c, &paid, ExecuteMsg::Allocation { amount: 250 }, &host).unwrap() {
        ExecuteResponse::Allocation(m) => {
            assert_eq!(show(&m), vec![bank_send("a", 62), bank_send("b", 187)])
        }
        _ => panic!("another operation answered"),
    }
    let mut c = config();
    host.funded = Some(30);
    match execute(&mut c, &mock_info("a", &[]), ExecuteMsg::Refund {}, &host).unwrap() {
        ExecuteResponse::Refund(r) => assert_eq!(r.amount, 30),
        _ => panic!("another operation answered"),
    }
}

#[test]
fn queries() {
    let mut c = config();
    c.token_contract = "token".to_string();
    let info = ico_info(&c);
    assert_eq!(info.admin, ADDR);
    assert_eq!(info.token_name, "channel");
    assert_eq!(info.token_symbol, "CHANNEL");
    assert_eq!(info.target_funding_amount, 100);
    assert_eq!(info.deadline, 12_346);

    assert_eq!(funding_amount(true, Some(7)), Ok(FundingAmountResponse { amount: 7 }));
    assert_eq!(funding_amount(true, None), Err(ContractError::NotFound));
    assert_eq!(funding_amount(false, Some(7)), Err(ContractError::Generic));

    let entries = vec![funding("addr1", 250), funding("addr2", 249), funding("addr3", 1)];
    assert_eq!(
        total_funding_amount(&entries),
        Ok(TotalFundingAmountResponse { amount: 500 })
    );
    assert_eq!(
        total_funding_amount(&vec![]),
        Ok(TotalFundingAmountResponse { amount: 0 })
    );
    assert_eq!(
        total_funding_amount(&vec![funding("a", u128::MAX), funding("b", 1)]),
        Err(ContractError::Overflow)
    );

    assert_eq!(funding_finished(&c, 12_346), IsFundingFinishedResponse { status: false });
    assert_eq!(funding_finished(&c, 12_347), IsFundingFinishedResponse { status: true });
    assert_eq!(token_address(&c).address, "token");
    let pair = PairAddressResponse { address: "pair".to_string() };
    assert_eq!(pair.address, "pair");
    let token = TokenAddressResponse { address: "token".to_string() };
    assert_eq!(token.address, "token");

    c.finished = true;
    assert_eq!(funding_finished(&c, 1), IsFundingFinishedResponse { status: true });

    match query(&c, 1, &QueryMsg::IcoInfo {}, true, None, &entries).unwrap() {
        QueryResponse::IcoInfo(i) => assert_eq!(i.deadline, 12_346),
        _ => panic!("another query answered"),
    }
    match query(&c, 1, &QueryMsg::FundingAmount { addr: "addr1".to_string() }, true, Some(250), &entries).unwrap() {
        QueryResponse::FundingAmount(a) => assert_eq!(a.amount, 250),
        _ => panic!("another query answered"),
    }
    assert_eq!(
        query(&c, 1, &QueryMsg::FundingAmount { addr: "?".to_string() }, false, None, &entries)
            .unwrap_err(),
        ContractError::Generic
    );
    match query(&c, 1, &QueryMsg::TotalFundingAmount {}, true, None, &entries).unwrap() {
        QueryResponse::TotalFundingAmount(t) => assert_eq!(t.amount, 500),
        _ => panic!("another query answered"),
    }
    match query(&c, 1, &QueryMsg::IsFundingFinished {}, true, None, &entries).unwrap() {
        QueryResponse::IsFundingFinished(f) => assert!(f.status),
        _ => panic!("another query answered"),
    }
    match query(&c, 1, &QueryMsg::TokenAddress {}, true, None, &entries).unwrap() {
        QueryResponse::TokenAddress(t) => assert_eq!(t.address, "token"),
        _ => panic!("another query answered"),
    }
}
