#![allow(deprecated)]
use cosmwasm_std::{to_binary, Uint128};
use cw20::Cw20ExecuteMsg;
use presale::contract::{
    execute, instantiate, query, query_check_user, query_get_users, query_state_info,
    query_user_info, Contract,
};
use presale::error::{ContractError, StdError};
use presale::msg::{
    Coin, Env, ExecuteMsg, InstantiateMsg, MessageInfo, OutMsg, QueryAnswer, QueryMsg,
};
use presale::state::{State, UserInfo};

/// The block time of the host's test environment, in seconds.
const NOW: u64 = 1_571_797_419;

fn mock_env() -> Env {
    Env { block_time: NOW, contract_address: "cosmos2contract".to_string() }
}

fn env_at(time: u64) -> Env {
    Env { block_time: time, contract_address: "cosmos2contract".to_string() }
}

fn mock_info(sender: &str, funds: &[Coin]) -> MessageInfo {
    MessageInfo { sender: sender.to_string(), funds: funds.to_vec() }
}

fn coin(amount: u128, denom: &str) -> Coin {
    Coin { denom: denom.to_string(), amount }
}

fn run(store: &mut Contract, env: &Env, sender: &str, funds: &[Coin], msg: ExecuteMsg) -> Result<presale::msg::Response, ContractError> {
    execute(store, env, &mock_info(sender, funds), msg, Ok(()))
}

fn open_sale(msg: InstantiateMsg) -> Contract {
    let (store, res) = instantiate(&mock_env(), &mock_info("creator", &[]), msg).unwrap();
    assert_eq!(0, res.messages.len());
    store
}

fn future_sale() -> InstantiateMsg {
    InstantiateMsg {
        presale_start: NOW + 120,
        presale_end: NOW + 420,
        total_supply: 1000,
        vesting_period: 600,
        vesting_step_period: 120,
        token_price: 1,
        denom: "uusd".to_string(),
        admin_wallet: "admin".to_string(),
    }
}

fn ended_sale() -> InstantiateMsg {
    InstantiateMsg {
        presale_start: NOW - 240,
        presale_end: NOW - 10,
        total_supply: 1000,
        vesting_period: 500,
        vesting_step_period: 125,
        token_price: 1,
        denom: "uusd".to_string(),
        admin_wallet: "admin".to_string(),
    }
}

#[test]
fn set_token_address() {
    let mut store = open_sale(future_sale());
    let state = query_state_info(&store);
    assert_eq!(state.owner, "creator".to_string());

    let msg = ExecuteMsg::SetTokenAddress { address: "token_address1".to_string() };
    run(&mut store, &mock_env(), "creator", &[], msg).unwrap();
    let state = query_state_info(&store);
    assert_eq!(state.token_address, "token_address1".to_string());
}

#[test]
fn change_owner() {
    let env = mock_env();
    let mut store = open_sale(future_sale());
    let state = query_state_info(&store);
    assert_eq!(state.owner, "creator".to_string());
    assert_eq!(
        state,
        State {
            presale_start: env.block_time + 120,
            presale_end: env.block_time + 420,
            total_supply: 1000,
            vesting_period: 600,
            vesting_step_period: 120,
            token_price: 1,
            owner: "creator".to_string(),
            token_address: "token_address".to_string(),
            token_sold_amount: 0,
            denom: "uusd".to_string(),
            admin_wallet: "admin".to_string(),
            can_send: true,
        }
    );

    let msg = ExecuteMsg::ChangeOwner { address: "owner".to_string() };
    run(&mut store, &env, "creator", &[], msg).unwrap();
    let state = query_state_info(&store);
    assert_eq!(state.owner, "owner".to_string());
}

#[test]
fn send_token_contract() {
    let mut store = open_sale(future_sale());
    let state = query_state_info(&store);
    assert_eq!(state.owner, "creator".to_string());

    let msg = ExecuteMsg::SetTokenAddress { address: "token_address1".to_string() };
    run(&mut store, &mock_env(), "creator", &[], msg).unwrap();
    let state = query_state_info(&store);
    assert_eq!(state.token_address, "token_address1".to_string());

    let res = run(&mut store, &mock_env(), "creator", &[], ExecuteMsg::SendTokenContract {}).unwrap();
    assert_eq!(res.messages.len(), 1);
}

#[test]
fn buy_token() {
    let env = mock_env();
    let mut store = open_sale(InstantiateMsg {
        presale_start: env.block_time,
        presale_end: env.block_time + 240,
        total_supply: 10000000,
        vesting_period: 500,
        vesting_step_period: 125,
        token_price: 10000,
        denom: "uusd".to_string(),
        admin_wallet: "admin".to_string(),
    });
    let state = query_state_info(&store);
    assert_eq!(state.owner, "creator".to_string());

    let msg = ExecuteMsg::SetTokenAddress { address: "token_address1".to_string() };
    run(&mut store, &env, "creator", &[], msg).unwrap();
    let state = query_state_info(&store);
    assert_eq!(state.token_address, "token_address1".to_string());

    let msg = ExecuteMsg::BuyToken { amount: 1000000 };
    run(&mut store, &env, "buyer1", &[coin(10000, "uusd")], msg).unwrap();
    let user_info = query_user_info(&store, "buyer1".to_string()).unwrap();
    assert_eq!(
        user_info,
        UserInfo {
            address: "buyer1".to_string(),
            total_token: 1000000,
            received_token: 0,
            last_received_time: env.block_time + 115,
        }
    );

    let msg = ExecuteMsg::BuyToken { amount: 3000000 };
    run(&mut store, &env, "buyer1", &[coin(30000, "uusd")], msg).unwrap();
    let user_info = query_user_info(&store, "buyer1".to_string()).unwrap();
    assert_eq!(
        user_info,
        UserInfo {
            address: "buyer1".to_string(),
            total_token: 4000000,
            received_token: 0,
            last_received_time: env.block_time + 115,
        }
    );

    let msg = ExecuteMsg::BuyToken { amount: 5000000 };
    let res = run(&mut store, &env, "buyer2", &[coin(50000, "uusd")], msg).unwrap();

    let user_info = query_user_info(&store, "buyer1".to_string()).unwrap();
    assert_eq!(
        user_info,
        UserInfo {
            address: "buyer1".to_string(),
            total_token: 4000000,
            received_token: 0,
            last_received_time: env.block_time + 115,
        }
    );
    let user_info = query_user_info(&store, "buyer2".to_string()).unwrap();
    assert_eq!(
        user_info,
        UserInfo {
            address: "buyer2".to_string(),
            total_token: 5000000,
            received_token: 0,
            last_received_time: env.block_time + 115,
        }
    );

    let state = query_state_info(&store);
    assert_eq!(state.token_sold_amount, 9000000);

    assert_eq!(res.messages.len(), 1);
    assert_eq!(
        res.messages[0],
        OutMsg::BankSend {
            to_address: "admin".to_string(),
            amount: vec![Coin { denom: "uusd".to_string(), amount: 50000 }],
        }
    );

    let users = query_get_users(&store).unwrap();
    assert_eq!(users, vec!["buyer1", "buyer2"]);
}

#[test]
fn withdraw_token() {
    let env = mock_env();
    let mut store = open_sale(ended_sale());
    let state = query_state_info(&store);
    assert_eq!(state.owner, "creator".to_string());

    let msg = ExecuteMsg::SetTokenAddress { address: "token_address1".to_string() };
    run(&mut store, &env, "creator", &[], msg).unwrap();
    let state = query_state_info(&store);
    assert_eq!(state.token_address, "token_address1".to_string());

    let msg = ExecuteMsg::BuyToken { amount: 100 };
    run(&mut store, &env, "buyer1", &[coin(100, "uusd")], msg).unwrap();

    let res = run(&mut store, &env, "buyer1", &[], ExecuteMsg::WithdrawToken {}).unwrap();
    assert_eq!(
        res.messages[0],
        OutMsg::WasmExecute {
            contract_addr: state.token_address.to_string(),
            msg: to_binary(&Cw20ExecuteMsg::Transfer {
                recipient: "buyer1".to_string(),
                amount: Uint128::new(20),
            })
            .unwrap()
            .to_vec(),
            funds: vec![],
        }
    );

    let user_info = query_user_info(&store, "buyer1".to_string()).unwrap();
    assert_eq!(
        user_info,
        UserInfo {
            address: "buyer1".to_string(),
            total_token: 100,
            received_token: 20,
            last_received_time: env.block_time - 10,
        }
    );
}

#[test]
fn withdraw_admin_token() {
    let env = mock_env();
    let mut store = open_sale(ended_sale());
    let state = query_state_info(&store);
    assert_eq!(state.owner, "creator".to_string());

    let msg = ExecuteMsg::SetTokenAddress { address: "token_address1".to_string() };
    run(&mut store, &env, "creator", &[], msg).unwrap();
    let state = query_state_info(&store);
    assert_eq!(state.token_address, "token_address1".to_string());

    let msg = ExecuteMsg::BuyToken { amount: 100 };
    run(&mut store, &env, "buyer1", &[coin(100, "uusd")], msg).unwrap();

    let res = run(&mut store, &env, "admin", &[], ExecuteMsg::WithdrawAdminToken {}).unwrap();
    assert_eq!(
        res.messages[0],
        OutMsg::WasmExecute {
            contract_addr: state.token_address.to_string(),
            msg: to_binary(&Cw20ExecuteMsg::Transfer {
                recipient: "admin".to_string(),
                amount: Uint128::new(900),
            })
            .unwrap()
            .to_vec(),
            funds: vec![],
        }
    );
}
