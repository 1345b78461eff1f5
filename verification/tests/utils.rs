use ysip::asset::{Asset, AssetInfo, Coin};
use ysip::utils::{
    get_bank_transfer_to_msg, get_burn_from_msg, get_cw20_mint_msg, get_cw20_transfer_from_msg,
    get_cw20_transfer_msg, get_fee_transfer_msg, get_increase_allowance_msg, get_payment_msg,
    get_provide_liquidity_msg, CosmosMsg,
};

fn s(text: &str) -> String {
    text.to_string()
}

#[test]
fn token_requests() {
    match get_cw20_transfer_from_msg(&s("owner"), &s("pool"), &s("token"), 7) {
        CosmosMsg::Cw20TransferFrom { contract_addr, owner, recipient, amount } => {
            assert_eq!(contract_addr, "token");
            assert_eq!(owner, "owner");
            assert_eq!(recipient, "pool");
            assert_eq!(amount, 7);
        }
        other => panic!("{:?}", other),
    }
    match get_cw20_transfer_msg(&s("to"), &s("token"), 8) {
        CosmosMsg::Cw20Transfer { contract_addr, recipient, amount } => {
            assert_eq!(contract_addr, "token");
            assert_eq!(recipient, "to");
            assert_eq!(amount, 8);
        }
        other => panic!("{:?}", other),
    }
    match get_cw20_mint_msg(&s("to"), 9, &s("token")) {
        CosmosMsg::Cw20Mint { contract_addr, recipient, amount } => {
            assert_eq!(contract_addr, "token");
            assert_eq!(recipient, "to");
            assert_eq!(amount, 9);
        }
        other => panic!("{:?}", other),
    }
    match get_burn_from_msg(&s("token"), &s("owner"), 10) {
        CosmosMsg::Cw20BurnFrom { contract_addr, owner, amount } => {
            assert_eq!(contract_addr, "token");
            assert_eq!(owner, "owner");
            assert_eq!(amount, 10);
        }
        other => panic!("{:?}", other),
    }
    match get_increase_allowance_msg(&s("token"), &s("spender"), 11) {
        CosmosMsg::Cw20IncreaseAllowance { contract_addr, spender, amount } => {
            assert_eq!(contract_addr, "token");
            assert_eq!(spender, "spender");
            assert_eq!(amount, 11);
        }
        other => panic!("{:?}", other),
    }
}

#[test]
fn native_send() {
    match get_bank_transfer_to_msg(&s("to"), &s("ukrw"), 12) {
        CosmosMsg::BankSend { to_address, denom, amount } => {
            assert_eq!(to_address, "to");
            assert_eq!(denom, "ukrw");
            assert_eq!(amount, 12);
        }
        other => panic!("{:?}", other),
    }
}

#[test]
fn payment_in_the_assets_own_form() {
    let token = AssetInfo::Token { contract_addr: s("token") };
    let native = AssetInfo::NativeToken { denom: s("ukrw") };
    assert!(matches!(
        get_payment_msg(&token, &s("to"), 5),
        CosmosMsg::Cw20Transfer { contract_addr, recipient, amount: 5 }
            if contract_addr == "token" && recipient == "to"
    ));
    assert!(matches!(
        get_payment_msg(&native, &s("to"), 5),
        CosmosMsg::BankSend { to_address, denom, amount: 5 }
            if to_address == "to" && denom == "ukrw"
    ));
    assert!(matches!(
        get_fee_transfer_msg(&s("treasury"), &Asset { info: token, amount: 45 }),
        CosmosMsg::Cw20Transfer { contract_addr, recipient, amount: 45 }
            if contract_addr == "token" && recipient == "treasury"
    ));
    assert!(matches!(
        get_fee_transfer_msg(&s("treasury"), &Asset { info: native, amount: 45 }),
        CosmosMsg::BankSend { to_address, denom, amount: 45 }
            if to_address == "treasury" && denom == "ukrw"
    ));
}

#[test]
fn deposit_request() {
    let token = AssetInfo::Token { contract_addr: s("token") };
    let native = AssetInfo::NativeToken { denom: s("ukrw") };
    let msg = get_provide_liquidity_msg(
        Asset { info: token.clone(), amount: 1_000 },
        44,
        Asset { info: native.clone(), amount: 2_000 },
        19,
        &s("pool"),
        vec![Coin { denom: s("ukrw"), amount: 19 }],
    );
    match msg {
        CosmosMsg::ProvideLiquidity { contract_addr, assets, funds } => {
            assert_eq!(contract_addr, "pool");
            assert_eq!(assets[0], Asset { info: token, amount: 44 });
            assert_eq!(assets[1], Asset { info: native, amount: 19 });
            assert_eq!(funds.len(), 1);
            assert_eq!(funds[0].denom, "ukrw");
            assert_eq!(funds[0].amount, 19);
            assert_eq!(funds[0].clone().amount, 19);
        }
        other => panic!("{:?}", other),
    }
}
