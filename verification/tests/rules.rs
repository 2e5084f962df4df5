use presale::contract::{
    execute, instantiate, query, query_check_user, query_get_users, query_state_info,
    query_user_info, Contract,
};
use presale::error::{ContractError, StdError};
use presale::msg::{
    Coin, Env, ExecuteMsg, InstantiateMsg, MessageInfo, OutMsg, QueryAnswer, QueryMsg, Response,
};
use presale::sale::{
    deposit_amount, execute_withdraw_token, instantiate_state, record_buyer, token_message,
};
use presale::state::{State, UserInfo};

const T0: u64 = 1_571_797_419;

#[allow(deprecated)]
fn transfer(token: &str, recipient: &str, amount: u128) -> OutMsg {
    let call = cw20::Cw20ExecuteMsg::Transfer {
        recipient: recipient.to_string(),
        amount: cosmwasm_std::Uint128::new(amount),
    };
    OutMsg::WasmExecute {
        contract_addr: token.to_string(),
        msg: cosmwasm_std::to_binary(&call).unwrap().to_vec(),
        funds: vec![],
    }
}

fn bank(to: &str, denom: &str, amount: u128) -> OutMsg {
    OutMsg::BankSend {
        to_address: to.to_string(),
        amount: vec![Coin { denom: denom.to_string(), amount }],
    }
}

#[allow(deprecated)]
fn mint(token: &str, recipient: &str, amount: u128) -> OutMsg {
    let call = cw20::Cw20ExecuteMsg::Mint {
        recipient: recipient.to_string(),
        amount: cosmwasm_std::Uint128::new(amount),
    };
    OutMsg::WasmExecute {
        contract_addr: token.to_string(),
        msg: cosmwasm_std::to_binary(&call).unwrap().to_vec(),
        funds: vec![],
    }
}

fn at(time: u64) -> Env {
    Env { block_time: time, contract_address: "cosmos2contract".to_string() }
}

fn from(sender: &str, funds: &[Coin]) -> MessageInfo {
    MessageInfo { sender: sender.to_string(), funds: funds.to_vec() }
}

fn uusd(amount: u128) -> Coin {
    Coin { denom: "uusd".to_string(), amount }
}

fn sale(start: u64, end: u64, supply: u128, price: u128, period: u64, step: u64) -> InstantiateMsg {
    InstantiateMsg {
        total_supply: supply,
        presale_start: start,
        presale_end: end,
        vesting_period: period,
        vesting_step_period: step,
        token_price: price,
        denom: "uusd".to_string(),
        admin_wallet: "admin".to_string(),
    }
}

fn open(msg: InstantiateMsg) -> Contract {
    instantiate(&at(T0), &from("creator", &[]), msg).unwrap().0
}

fn run(store: &mut Contract, time: u64, sender: &str, funds: &[Coin], msg: ExecuteMsg) -> Result<Response, ContractError> {
    execute(store, &at(time), &from(sender, funds), msg, Ok(()))
}

fn refused_address() -> StdError {
    StdError::GenericErr { msg: "Invalid input: address not normalized".to_string() }
}

#[test]
fn opening_refused_when_end_precedes_start() {
    let res = instantiate(&at(T0), &from("creator", &[]), sale(T0 + 2, T0 + 1, 10, 1, 10, 5));
    assert!(matches!(res, Err(ContractError::WrongSetTime {})));
    let state = instantiate_state(&from("creator", &[]), sale(T0 + 1, T0 + 1, 10, 1, 10, 5)).unwrap();
    assert_eq!(state.presale_start, state.presale_end);
    assert_eq!(state.token_address, "token_address");
    assert!(state.can_send);
}

#[test]
fn opening_starts_with_no_buyers() {
    let store = open(sale(T0, T0 + 10, 10, 1, 10, 5));
    assert_eq!(
        query_get_users(&store),
        Err(StdError::NotFound { kind: "alloc::vec::Vec<alloc::string::String>".to_string() })
    );
    assert_eq!(
        query_user_info(&store, "buyer1".to_string()),
        Err(StdError::NotFound { kind: "presale::state::UserInfo".to_string() })
    );
    assert_eq!(query_state_info(&store).token_sold_amount, 0);
}

#[test]
fn change_owner_by_stranger_is_refused_and_changes_nothing() {
    let mut store = open(sale(T0, T0 + 10, 10, 1, 10, 5));
    let before = query_state_info(&store);
    let res = run(&mut store, T0, "stranger", &[], ExecuteMsg::ChangeOwner { address: "stranger".to_string() });
    assert!(matches!(res, Err(ContractError::Unauthorized {})));
    assert_eq!(query_state_info(&store), before);
    // The sender is checked before the address.
    let res = execute(&mut store, &at(T0), &from("stranger", &[]), ExecuteMsg::ChangeOwner { address: "X".to_string() }, Err(refused_address()));
    assert!(matches!(res, Err(ContractError::Unauthorized {})));
}

#[test]
fn change_owner_to_refused_address_reports_the_host_error() {
    let mut store = open(sale(T0, T0 + 10, 10, 1, 10, 5));
    let res = execute(&mut store, &at(T0), &from("creator", &[]), ExecuteMsg::ChangeOwner { address: "X".to_string() }, Err(refused_address()));
    assert_eq!(res, Err(ContractError::Std(refused_address())));
    assert_eq!(query_state_info(&store).owner, "creator");
}

#[test]
fn new_owner_takes_over() {
    let mut store = open(sale(T0, T0 + 10, 10, 1, 10, 5));
    run(&mut store, T0, "creator", &[], ExecuteMsg::ChangeOwner { address: "owner".to_string() }).unwrap();
    let res = run(&mut store, T0, "creator", &[], ExecuteMsg::SetTokenAddress { address: "tok".to_string() });
    assert!(matches!(res, Err(ContractError::Unauthorized {})));
    run(&mut store, T0, "owner", &[], ExecuteMsg::SetTokenAddress { address: "tok".to_string() }).unwrap();
    assert_eq!(query_state_info(&store).token_address, "tok");
}

#[test]
fn token_address_is_checked_before_the_sender() {
    let mut store = open(sale(T0, T0 + 10, 10, 1, 10, 5));
    let res = execute(&mut store, &at(T0), &from("stranger", &[]), ExecuteMsg::SetTokenAddress { address: "X".to_string() }, Err(refused_address()));
    assert_eq!(res, Err(ContractError::Std(refused_address())));
    let res = run(&mut store, T0, "stranger", &[], ExecuteMsg::SetTokenAddress { address: "tok".to_string() });
    assert!(matches!(res, Err(ContractError::Unauthorized {})));
    assert_eq!(query_state_info(&store).token_address, "token_address");
}

#[test]
fn supply_is_minted_once() {
    let mut store = open(sale(T0, T0 + 10, 777, 1, 10, 5));
    let res = run(&mut store, T0, "stranger", &[], ExecuteMsg::SendTokenContract {});
    assert!(matches!(res, Err(ContractError::Unauthorized {})));
    let res = run(&mut store, T0, "creator", &[], ExecuteMsg::SendTokenContract {}).unwrap();
    assert_eq!(
        res.messages,
        vec![mint("token_address", "cosmos2contract", 777)]
    );
    assert!(!query_state_info(&store).can_send);
    let res = run(&mut store, T0, "creator", &[], ExecuteMsg::SendTokenContract {});
    assert!(matches!(res, Err(ContractError::AlreadySent {})));
    // Once minted, even a stranger is told so first.
    let res = run(&mut store, T0, "stranger", &[], ExecuteMsg::SendTokenContract {});
    assert!(matches!(res, Err(ContractError::AlreadySent {})));
}

#[test]
fn purchase_before_opening_is_refused() {
    let mut store = open(sale(T0 + 5, T0 + 10, 10, 1_000_000, 10, 5));
    let res = run(&mut store, T0 + 4, "buyer1", &[uusd(1)], ExecuteMsg::BuyToken { amount: 1 });
    assert!(matches!(res, Err(ContractError::PresaleNotStarted {})));
    run(&mut store, T0 + 5, "buyer1", &[uusd(1)], ExecuteMsg::BuyToken { amount: 1 }).unwrap();
}

#[test]
fn purchase_never_exceeds_supply() {
    let mut store = open(sale(T0, T0 + 10, 10, 1_000_000, 10, 5));
    run(&mut store, T0, "buyer1", &[uusd(7)], ExecuteMsg::BuyToken { amount: 7 }).unwrap();
    let res = run(&mut store, T0, "buyer2", &[uusd(4)], ExecuteMsg::BuyToken { amount: 4 });
    assert!(matches!(res, Err(ContractError::InsufficientRemainingToken {})));
    assert_eq!(query_state_info(&store).token_sold_amount, 7);
    assert_eq!(query_get_users(&store).unwrap(), vec!["buyer1"]);
    run(&mut store, T0, "buyer2", &[uusd(3)], ExecuteMsg::BuyToken { amount: 3 }).unwrap();
    assert_eq!(query_state_info(&store).token_sold_amount, 10);
}

#[test]
fn underpaid_purchase_is_refused() {
    // 3 tokens at 2.5 uusd each cost 7 uusd (rounded down).
    let mut store = open(sale(T0, T0 + 10, 100, 2_500_000, 10, 5));
    let res = run(&mut store, T0, "buyer1", &[uusd(6)], ExecuteMsg::BuyToken { amount: 3 });
    assert!(matches!(res, Err(ContractError::NotEnoughFunds {})));
    // Coins of another denomination do not count.
    let other = Coin { denom: "uluna".to_string(), amount: 100 };
    let res = run(&mut store, T0, "buyer1", &[other.clone()], ExecuteMsg::BuyToken { amount: 3 });
    assert!(matches!(res, Err(ContractError::NotEnoughFunds {})));
    let res = run(&mut store, T0, "buyer1", &[other, uusd(7)], ExecuteMsg::BuyToken { amount: 3 }).unwrap();
    assert_eq!(
        res.messages,
        vec![bank("admin", "uusd", 7)]
    );
}

#[test]
fn overpayment_is_forwarded_whole() {
    let mut store = open(sale(T0, T0 + 10, 100, 1_000_000, 10, 5));
    let res = run(&mut store, T0, "buyer1", &[uusd(9)], ExecuteMsg::BuyToken { amount: 3 }).unwrap();
    assert_eq!(
        res.messages,
        vec![bank("admin", "uusd", 9)]
    );
    assert_eq!(query_user_info(&store, "buyer1".to_string()).unwrap().total_token, 3);
}

#[test]
fn only_the_first_coin_of_the_denomination_counts() {
    let funds = vec![Coin { denom: "uluna".to_string(), amount: 50 }, uusd(5), uusd(100)];
    assert_eq!(deposit_amount(&funds, &"uusd".to_string()), 5);
    assert_eq!(deposit_amount(&funds, &"uluna".to_string()), 50);
    assert_eq!(deposit_amount(&funds, &"uatom".to_string()), 0);
    assert_eq!(deposit_amount(&vec![], &"uusd".to_string()), 0);
}

#[test]
fn buyers_are_listed_once_in_order_of_first_purchase() {
    let mut store = open(sale(T0, T0 + 10, 100, 1_000_000, 10, 5));
    for who in ["b", "a", "b", "c", "a"] {
        run(&mut store, T0, who, &[uusd(2)], ExecuteMsg::BuyToken { amount: 2 }).unwrap();
    }
    assert_eq!(query_get_users(&store).unwrap(), vec!["b", "a", "c"]);
    assert_eq!(query_user_info(&store, "a".to_string()).unwrap().total_token, 4);
    assert_eq!(query_user_info(&store, "c".to_string()).unwrap().total_token, 2);
    assert_eq!(query_state_info(&store).token_sold_amount, 10);
    assert_eq!(
        query(&store, &at(T0), QueryMsg::GetAllUsers {}),
        Ok(QueryAnswer::Users(vec!["b".to_string(), "a".to_string(), "c".to_string()]))
    );
}

#[test]
fn withdrawal_before_the_end_is_refused() {
    let mut store = open(sale(T0, T0 + 10, 100, 1_000_000, 10, 5));
    run(&mut store, T0, "buyer1", &[uusd(2)], ExecuteMsg::BuyToken { amount: 2 }).unwrap();
    let res = run(&mut store, T0 + 9, "buyer1", &[], ExecuteMsg::WithdrawToken {});
    assert!(matches!(res, Err(ContractError::PresaleNotFinished {})));
    let res = run(&mut store, T0 + 10, "nobody", &[], ExecuteMsg::WithdrawToken {});
    assert!(matches!(res, Err(ContractError::NotDeposited {})));
}

#[test]
fn withdrawal_pays_the_steps_that_have_passed() {
    // Period 400, step 100: five parts. The buyer's clock starts one step
    // before the end, so 400 s after that four steps have passed.
    let end = T0 - 300;
    let mut store = open(sale(T0 - 1000, end, 10_000, 1_000_000, 400, 100));
    run(&mut store, T0 - 1000, "buyer1", &[uusd(1000)], ExecuteMsg::BuyToken { amount: 1000 }).unwrap();
    assert_eq!(query_user_info(&store, "buyer1".to_string()).unwrap().last_received_time, end - 100);
    let res = run(&mut store, T0, "buyer1", &[], ExecuteMsg::WithdrawToken {}).unwrap();
    assert_eq!(
        res.messages,
        vec![transfer("token_address", "buyer1", 800)]
    );
    let entry = query_user_info(&store, "buyer1".to_string()).unwrap();
    assert_eq!(entry, UserInfo { address: "buyer1".to_string(), total_token: 1000, received_token: 800, last_received_time: end + 300 });
    // No step has passed since.
    let res = run(&mut store, T0 + 99, "buyer1", &[], ExecuteMsg::WithdrawToken {});
    assert!(matches!(res, Err(ContractError::NotRemainingToken {})));
    assert_eq!(query_user_info(&store, "buyer1".to_string()).unwrap(), entry);
    // A step later one more step is paid, counted from the payout time, and
    // the payout time is set back to the end of the sale.
    let res = run(&mut store, T0 + 100, "buyer1", &[], ExecuteMsg::WithdrawToken {}).unwrap();
    assert_eq!(
        res.messages,
        vec![transfer("token_address", "buyer1", 200)]
    );
    let entry = query_user_info(&store, "buyer1".to_string()).unwrap();
    assert_eq!(entry.received_token, 1000);
    assert_eq!(entry.last_received_time, end);
    assert_eq!(entry.total_token, 1000);
}

#[test]
fn withdrawal_step_function_on_loaded_entry() {
    let state = State {
        owner: "creator".to_string(),
        token_address: "tok".to_string(),
        presale_start: 0,
        presale_end: 1000,
        total_supply: 100,
        vesting_period: 50,
        vesting_step_period: 10,
        token_price: 1,
        token_sold_amount: 60,
        denom: "uusd".to_string(),
        admin_wallet: "admin".to_string(),
        can_send: false,
    };
    let entry = UserInfo { address: "b".to_string(), total_token: 60, received_token: 0, last_received_time: 990 };
    // Six parts; 25 s after 990 two steps have passed: 60 / 6 * 2.
    let (after, message) = execute_withdraw_token(&state, Some(entry), &at(1015), &from("b", &[])).unwrap();
    assert_eq!(after.received_token, 20);
    assert_eq!(after.last_received_time, 1010);
    assert_eq!(message, transfer("tok", "b", 20));
    let res = execute_withdraw_token(&state, None, &at(1015), &from("b", &[]));
    assert!(matches!(res, Err(ContractError::NotDeposited {})));
}

#[test]
fn admin_withdrawal_rules() {
    let mut store = open(sale(T0 - 100, T0 - 10, 1000, 1_000_000, 10, 5));
    run(&mut store, T0 - 50, "buyer1", &[uusd(250)], ExecuteMsg::BuyToken { amount: 250 }).unwrap();
    let res = run(&mut store, T0, "buyer1", &[], ExecuteMsg::WithdrawAdminToken {});
    assert!(matches!(res, Err(ContractError::Unauthorized {})));
    let res = run(&mut store, T0 - 11, "admin", &[], ExecuteMsg::WithdrawAdminToken {});
    assert!(matches!(res, Err(ContractError::PresaleNotFinished {})));
    let res = run(&mut store, T0 - 10, "admin", &[], ExecuteMsg::WithdrawAdminToken {}).unwrap();
    assert_eq!(
        res.messages,
        vec![transfer("token_address", "admin", 750)]
    );
    assert_eq!(query_state_info(&store).token_sold_amount, 250);
}

#[test]
fn due_withdrawal_is_announced_strictly_after_a_step() {
    let end = T0 - 10;
    let mut store = open(sale(T0 - 100, end, 1000, 1_000_000, 500, 125));
    run(&mut store, T0 - 50, "buyer1", &[uusd(100)], ExecuteMsg::BuyToken { amount: 100 }).unwrap();
    // The buyer's clock starts at end - 125.
    assert!(!query_check_user(&store, &at(end - 1), "nobody".to_string()));
    assert!(!query_check_user(&store, &at(end), "buyer1".to_string()));
    assert!(query_check_user(&store, &at(end + 1), "buyer1".to_string()));
    assert_eq!(
        query(&store, &at(end + 1), QueryMsg::CheckWithdraw { address: "buyer1".to_string() }),
        Ok(QueryAnswer::CheckWithdraw(true))
    );
    // At the boundary the withdrawal goes through all the same.
    run(&mut store, end, "buyer1", &[], ExecuteMsg::WithdrawToken {}).unwrap();
}

#[test]
fn queries_answer_from_the_stored_data() {
    let mut store = open(sale(T0, T0 + 10, 10, 1_000_000, 10, 5));
    run(&mut store, T0, "buyer1", &[uusd(1)], ExecuteMsg::BuyToken { amount: 1 }).unwrap();
    let state = query_state_info(&store);
    assert_eq!(query(&store, &at(T0), QueryMsg::GetStateInfo {}), Ok(QueryAnswer::StateInfo(state)));
    assert_eq!(
        query(&store, &at(T0), QueryMsg::GetUserInfo { address: "buyer1".to_string() }),
        Ok(QueryAnswer::UserInfo(UserInfo { address: "buyer1".to_string(), total_token: 1, received_token: 0, last_received_time: T0 + 5 }))
    );
    assert!(matches!(
        query(&store, &at(T0), QueryMsg::GetUserInfo { address: "x".to_string() }),
        Err(StdError::NotFound { .. })
    ));
}

#[test]
fn payouts_are_encoded_for_the_token_contract() {
    let mut store = open(sale(T0 - 100, T0 - 10, 1000, 1_000_000, 10, 5));
    let res = run(&mut store, T0, "admin", &[], ExecuteMsg::WithdrawAdminToken {}).unwrap();
    match &res.messages[0] {
        OutMsg::WasmExecute { contract_addr, msg, funds } => {
            assert_eq!(contract_addr, "token_address");
            assert_eq!(msg.as_slice(), br#"{"transfer":{"recipient":"admin","amount":"1000"}}"#);
            assert!(funds.is_empty());
        }
        other => panic!("unexpected message {:?}", other),
    }
    let res = run(&mut store, T0, "creator", &[], ExecuteMsg::SendTokenContract {}).unwrap();
    match &res.messages[0] {
        OutMsg::WasmExecute { msg, .. } => {
            assert_eq!(msg.as_slice(), br#"{"mint":{"recipient":"cosmos2contract","amount":"1000"}}"#);
        }
        other => panic!("unexpected message {:?}", other),
    }
}

#[test]
fn token_messages_carry_the_encoding_or_its_failure() {
    assert_eq!(
        token_message("tok".to_string(), Ok(vec![1, 2, 3])),
        Ok(OutMsg::WasmExecute { contract_addr: "tok".to_string(), msg: vec![1, 2, 3], funds: vec![] })
    );
    assert_eq!(
        token_message("tok".to_string(), Err("cannot encode".to_string())),
        Err(ContractError::Std(StdError::GenericErr { msg: "cannot encode".to_string() }))
    );
}

#[test]
fn first_purchases_are_appended_to_the_stored_buyer_list() {
    assert_eq!(record_buyer(None, "a".to_string()), vec!["a"]);
    assert_eq!(record_buyer(Some(vec!["a".to_string()]), "b".to_string()), vec!["a", "b"]);
    assert_eq!(record_buyer(Some(vec![]), "c".to_string()), vec!["c"]);
}
