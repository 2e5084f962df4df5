//! The sale's rules, one request at a time.
//!
//! Each `execute_*` function takes what the request reads from storage
//! and returns what it writes back and sends out; it stores nothing
//! itself.
use vstd::prelude::*;
use crate::error::{refused_as, ContractError, Refusal, StdError};
use crate::msg::{
    coins_view, Coin, CoinView, Cw20Call, Cw20CallView, Env, InstantiateMsg, MessageInfo, OutMsg,
    OutMsgView,
};
use crate::token::{cw20_encoding, encode_cw20};
use crate::state::{State, UserInfo};

verus! {

/// The tokens' price is quoted per million base units.
pub const PRICE_DENOMINATOR: u128 = 1_000_000;

/// What a purchase pays for `amount` tokens.
pub open spec fn purchase_cost(state: State, amount: u128) -> int {
    (state.token_price as int) * (amount as int) / (PRICE_DENOMINATOR as int)
}

/// The amount of the first coin in `funds` whose denomination is `denom`,
/// or 0 where there is none.
pub open spec fn deposit_in(funds: Seq<Coin>, denom: Seq<char>) -> u128
    decreases funds.len(),
{
    if funds.len() == 0 {
        0
    } else if funds[0].denom@ == denom {
        funds[0].amount
    } else {
        deposit_in(funds.drop_first(), denom)
    }
}

/// The amount of the first coin in `funds` whose denomination is `denom`,
/// or 0 where there is none.
pub fn deposit_amount(funds: &Vec<Coin>, denom: &String) -> (amount: u128)
    ensures
        amount == deposit_in(funds@, denom@),
{
    let mut i: usize = 0;
    assert(funds@.skip(0) =~= funds@);
    while i < funds.len()
        invariant
            i <= funds.len(),
            deposit_in(funds@.skip(i as int), denom@) == deposit_in(funds@, denom@),
        decreases funds.len() - i,
    {
        assert(funds@.skip(i as int)[0] == funds@[i as int]);
        if funds[i].denom == *denom {
            return funds[i].amount;
        }
        assert(funds@.skip(i as int).drop_first() =~= funds@.skip(i + 1));
        i = i + 1;
    }
    assert(funds@.skip(i as int).len() == 0);
    0
}

/// The state with which a sale opens, for `sender` as its owner.
pub open spec fn opening_state_is(state: State, sender: String, msg: InstantiateMsg) -> bool {
    &&& state.owner == sender
    &&& state.token_address@ == "token_address"@
    &&& state.presale_start == msg.presale_start
    &&& state.presale_end == msg.presale_end
    &&& state.total_supply == msg.total_supply
    &&& state.vesting_period == msg.vesting_period
    &&& state.vesting_step_period == msg.vesting_step_period
    &&& state.token_price == msg.token_price
    &&& state.token_sold_amount == 0
    &&& state.denom == msg.denom
    &&& state.admin_wallet == msg.admin_wallet
    &&& state.can_send
}

/// Opens a sale owned by the sender; refused where it would end before it
/// starts.
pub fn instantiate_state(info: &MessageInfo, msg: InstantiateMsg) -> (res: Result<State, ContractError>)
    ensures
        msg.presale_start > msg.presale_end ==> res == Err::<State, ContractError>(
            ContractError::WrongSetTime {},
        ),
        msg.presale_start <= msg.presale_end ==> (res matches Ok(state) && opening_state_is(
            state,
            info.sender,
            msg,
        )),
{
    if msg.presale_start > msg.presale_end {
        return Err(ContractError::WrongSetTime {});
    }
    let token_address = String::from_str("token_address");
    Ok(
        State {
            owner: info.sender.clone(),
            token_address,
            presale_start: msg.presale_start,
            presale_end: msg.presale_end,
            total_supply: msg.total_supply,
            vesting_period: msg.vesting_period,
            vesting_step_period: msg.vesting_step_period,
            token_price: msg.token_price,
            token_sold_amount: 0,
            denom: msg.denom,
            admin_wallet: msg.admin_wallet,
            can_send: true,
        },
    )
}

/// What a successful purchase writes back and sends out.
#[derive(Debug)]
pub struct Purchase {
    /// The configuration with the purchase counted.
    pub state: State,
    /// The buyer's ledger entry with the purchase counted.
    pub user: UserInfo,
    /// Whether the buyer had no ledger entry before.
    pub new_user: bool,
    /// The payment forwarded to the admin wallet.
    pub message: OutMsg,
}

/// What a successful purchase writes back and sends out, seen as
/// mathematical values.
pub struct PurchaseView {
    pub state: State,
    pub user: UserInfo,
    pub new_user: bool,
    pub message: OutMsgView,
}

impl View for Purchase {
    type V = PurchaseView;

    open spec fn view(&self) -> PurchaseView {
        PurchaseView {
            state: self.state,
            user: self.user,
            new_user: self.new_user,
            message: self.message@,
        }
    }
}

/// A payment of `amount` of `denom` to `to_address`.
pub open spec fn bank_send_view(to_address: Seq<char>, denom: Seq<char>, amount: u128) -> OutMsgView {
    OutMsgView::BankSend { to_address, amount: seq![CoinView { denom, amount }] }
}

/// A call on the token contract `token` with the encoded message `msg`,
/// with no funds sent along.
pub open spec fn token_call_view(token: Seq<char>, msg: Seq<u8>) -> OutMsgView {
    OutMsgView::WasmExecute { contract_addr: token, msg, funds: Seq::empty() }
}

/// The message to the token contract `token` for a call that was encoded
/// as `encoded`, or the refusal that a failed encoding gives.
pub open spec fn token_message_outcome(token: Seq<char>, encoded: Result<Seq<u8>, Seq<char>>) -> Result<
    OutMsgView,
    Refusal,
> {
    match encoded {
        Ok(bytes) => Ok(token_call_view(token, bytes)),
        Err(text) => Err(Refusal::Encoding(text)),
    }
}

/// The message to the token contract `token` for a call that was encoded as
/// `encoded`; a failed encoding is reported as a host error with its text.
pub fn token_message(token: String, encoded: Result<Vec<u8>, String>) -> (res: Result<
    OutMsg,
    ContractError,
>)
    ensures
        match encoded {
            Ok(bytes) => res matches Ok(m) && m@ == token_call_view(token@, bytes@),
            Err(text) => res == Err::<OutMsg, ContractError>(
                ContractError::Std(StdError::GenericErr { msg: text }),
            ),
        },
{
    match encoded {
        Ok(bytes) => {
            let funds: Vec<Coin> = Vec::new();
            proof {
                assert(coins_view(funds@) =~= Seq::<CoinView>::empty());
            }
            Ok(OutMsg::WasmExecute { contract_addr: token, msg: bytes, funds })
        },
        Err(text) => Err(ContractError::Std(StdError::GenericErr { msg: text })),
    }
}

/// Encodes `call` and addresses it to the token contract `token`.
fn call_token(token: String, call: Cw20Call) -> (res: Result<OutMsg, ContractError>)
    ensures
        cw20_encoding(call@) is Ok,
        match token_message_outcome(token@, cw20_encoding(call@)) {
            Ok(m) => res matches Ok(out) && out@ == m,
            Err(r) => refused_as(res, r),
        },
{
    let encoded = encode_cw20(&call);
    token_message(token, encoded)
}

/// The inputs on which a purchase runs to its end: those on which no
/// amount it computes leaves its integer type.
pub open spec fn buy_token_defined(
    state: State,
    user: Option<UserInfo>,
    info: MessageInfo,
    now: u64,
    amount: u128,
) -> bool {
    now >= state.presale_start ==> {
        &&& state.token_sold_amount + amount <= u128::MAX
        &&& state.token_sold_amount + amount <= state.total_supply ==> {
            &&& state.token_price * amount <= u128::MAX
            &&& deposit_in(info.funds@, state.denom@) >= purchase_cost(state, amount) ==> match user {
                None => state.vesting_step_period <= state.presale_end,
                Some(u) => u.total_token + amount <= u128::MAX,
            }
        }
    }
}

/// The ledger entry of a buyer after a purchase of `amount` tokens.
pub open spec fn bought_entry(
    state: State,
    user: Option<UserInfo>,
    sender: String,
    amount: u128,
) -> UserInfo {
    match user {
        None => UserInfo {
            address: sender,
            total_token: amount,
            received_token: 0,
            last_received_time: (state.presale_end - state.vesting_step_period) as u64,
        },
        Some(u) => UserInfo { total_token: (u.total_token + amount) as u128, ..u },
    }
}

/// The outcome of buying `amount` tokens at time `now`, for a buyer whose
/// ledger entry is `user`.
pub open spec fn buy_token_outcome(
    state: State,
    user: Option<UserInfo>,
    info: MessageInfo,
    now: u64,
    amount: u128,
) -> Result<PurchaseView, Refusal> {
    if now < state.presale_start {
        Err(Refusal::Rule(ContractError::PresaleNotStarted {}))
    } else if state.token_sold_amount + amount > state.total_supply {
        Err(Refusal::Rule(ContractError::InsufficientRemainingToken {}))
    } else if deposit_in(info.funds@, state.denom@) < purchase_cost(state, amount) {
        Err(Refusal::Rule(ContractError::NotEnoughFunds {}))
    } else {
        Ok(
            PurchaseView {
                state: State {
                    token_sold_amount: (state.token_sold_amount + amount) as u128,
                    ..state
                },
                user: bought_entry(state, user, info.sender, amount),
                new_user: user is None,
                message: bank_send_view(
                    state.admin_wallet@,
                    state.denom@,
                    deposit_in(info.funds@, state.denom@),
                ),
            },
        )
    }
}

/// Sells `amount` tokens to the sender, who pays with the coins sent
/// along; `user` is the sender's ledger entry, where there is one.
pub fn execute_buy_token(
    state: State,
    user: Option<UserInfo>,
    env: &Env,
    info: &MessageInfo,
    amount: u128,
) -> (res: Result<Purchase, ContractError>)
    requires
        buy_token_defined(state, user, *info, env.block_time, amount),
    ensures
        match buy_token_outcome(state, user, *info, env.block_time, amount) {
            Ok(p) => res matches Ok(q) && q@ == p,
            Err(r) => refused_as(res, r),
        },
{
    let now = env.block_time;
    if now < state.presale_start {
        return Err(ContractError::PresaleNotStarted {});
    }
    if state.token_sold_amount + amount > state.total_supply {
        return Err(ContractError::InsufficientRemainingToken {});
    }
    let deposit = deposit_amount(&info.funds, &state.denom);
    if deposit < state.token_price * amount / PRICE_DENOMINATOR {
        return Err(ContractError::NotEnoughFunds {});
    }
    let new_user = user.is_none();
    let entry = match user {
        None => UserInfo {
            address: info.sender.clone(),
            total_token: amount,
            received_token: 0,
            last_received_time: state.presale_end - state.vesting_step_period,
        },
        Some(u) => {
            let mut u = u;
            u.total_token = u.total_token + amount;
            u
        },
    };
    let coins = vec![Coin { denom: state.denom.clone(), amount: deposit }];
    proof {
        assert(coins_view(coins@) =~= seq![CoinView { denom: state.denom@, amount: deposit }]);
    }
    let message = OutMsg::BankSend { to_address: state.admin_wallet.clone(), amount: coins };
    let mut state = state;
    state.token_sold_amount = state.token_sold_amount + amount;
    Ok(Purchase { state, user: entry, new_user, message })
}

/// The number of parts into which a buyer's tokens are divided for
/// vesting: one more than the number of whole steps in the vesting
/// period, or none where the period is shorter than a step.
pub open spec fn vesting_steps(state: State) -> int {
    let whole = (state.vesting_period as int) / (state.vesting_step_period as int);
    if whole != 0 {
        whole + 1
    } else {
        0
    }
}

/// The whole vesting steps that have passed at `now` since the buyer's
/// last payout time.
pub open spec fn elapsed_steps(state: State, user: UserInfo, now: u64) -> int {
    (now - user.last_received_time) / (state.vesting_step_period as int)
}

/// The tokens that a withdrawal at `now` pays out.
pub open spec fn released_amount(state: State, user: UserInfo, now: u64) -> int {
    (user.total_token as int) / vesting_steps(state) * elapsed_steps(state, user, now)
}

/// Whether a vesting step has passed at `now` since the buyer's last
/// payout time.
pub open spec fn step_passed(state: State, user: UserInfo, now: u64) -> bool {
    now >= state.vesting_step_period + user.last_received_time
}

/// The inputs on which a withdrawal runs to its end: those on which no
/// division is by zero and no amount it computes leaves its integer type.
pub open spec fn withdraw_token_defined(state: State, user: Option<UserInfo>, now: u64) -> bool {
    now >= state.presale_end ==> match user {
        None => true,
        Some(u) => {
            &&& state.vesting_step_period + u.last_received_time <= u64::MAX
            &&& step_passed(state, u, now) ==> {
                &&& state.vesting_step_period != 0
                &&& state.vesting_period / state.vesting_step_period < u64::MAX
                &&& vesting_steps(state) != 0
                &&& released_amount(state, u, now) <= u128::MAX
                &&& state.presale_end + (elapsed_steps(state, u, now) - 1)
                    * state.vesting_step_period <= u64::MAX
                &&& u.received_token + released_amount(state, u, now) <= u128::MAX
            }
        },
    }
}

/// The ledger entry of a buyer after a withdrawal at `now`.
pub open spec fn withdrawn_entry(state: State, u: UserInfo, now: u64) -> UserInfo {
    UserInfo {
        last_received_time: (state.presale_end + (elapsed_steps(state, u, now) - 1)
            * state.vesting_step_period) as u64,
        received_token: (u.received_token + released_amount(state, u, now)) as u128,
        ..u
    }
}

/// The call on the token contract that pays out a withdrawal at `now`.
pub open spec fn withdrawal_call(state: State, u: UserInfo, sender: String, now: u64) -> Cw20CallView {
    Cw20CallView::Transfer { recipient: sender@, amount: released_amount(state, u, now) as u128 }
}

/// The outcome of a withdrawal at `now` by `sender`, whose ledger entry is
/// `user`: the new entry and the payout.
pub open spec fn withdraw_token_outcome(
    state: State,
    user: Option<UserInfo>,
    sender: String,
    now: u64,
) -> Result<(UserInfo, OutMsgView), Refusal> {
    if now < state.presale_end {
        Err(Refusal::Rule(ContractError::PresaleNotFinished {}))
    } else {
        match user {
            None => Err(Refusal::Rule(ContractError::NotDeposited {})),
            Some(u) => if !step_passed(state, u, now) {
                Err(Refusal::Rule(ContractError::NotRemainingToken {}))
            } else {
                match token_message_outcome(
                    state.token_address@,
                    cw20_encoding(withdrawal_call(state, u, sender, now)),
                ) {
                    Ok(m) => Ok((withdrawn_entry(state, u, now), m)),
                    Err(r) => Err(r),
                }
            },
        }
    }
}

/// Pays out to the sender the tokens that have vested since the last
/// payout; `user` is the sender's ledger entry, where there is one.
pub fn execute_withdraw_token(
    state: &State,
    user: Option<UserInfo>,
    env: &Env,
    info: &MessageInfo,
) -> (res: Result<(UserInfo, OutMsg), ContractError>)
    requires
        withdraw_token_defined(*state, user, env.block_time),
    ensures
        match withdraw_token_outcome(*state, user, info.sender, env.block_time) {
            Ok((entry, m)) => res matches Ok((e, out)) && e == entry && out@ == m,
            Err(r) => refused_as(res, r),
        },
        !(withdraw_token_outcome(*state, user, info.sender, env.block_time) matches Err(
            Refusal::Encoding(_),
        )),
{
    let now = env.block_time;
    if now < state.presale_end {
        return Err(ContractError::PresaleNotFinished {});
    }
    let u = match user {
        None => {
            return Err(ContractError::NotDeposited {});
        },
        Some(u) => u,
    };
    if now < state.vesting_step_period + u.last_received_time {
        return Err(ContractError::NotRemainingToken {});
    }
    let mut steps = state.vesting_period / state.vesting_step_period;
    if steps != 0 {
        steps = steps + 1;
    }
    let current_step = (now - u.last_received_time) / state.vesting_step_period;
    assert(current_step >= 1) by (nonlinear_arith)
        requires
            current_step == (now - u.last_received_time) / (state.vesting_step_period as int),
            now - u.last_received_time >= state.vesting_step_period,
            state.vesting_step_period > 0,
    ;
    let released = u.total_token / (steps as u128) * (current_step as u128);
    let mut entry = u;
    entry.last_received_time = state.presale_end + (current_step - 1) * state.vesting_step_period;
    entry.received_token = entry.received_token + released;
    let call = Cw20Call::Transfer { recipient: info.sender.clone(), amount: released };
    match call_token(state.token_address.clone(), call) {
        Ok(message) => Ok((entry, message)),
        Err(e) => Err(e),
    }
}

/// The outcome of the admin's withdrawal of the unsold tokens at `now`.
pub open spec fn withdraw_admin_token_outcome(state: State, sender: String, now: u64) -> Result<
    OutMsgView,
    Refusal,
> {
    if sender@ != state.admin_wallet@ {
        Err(Refusal::Rule(ContractError::Unauthorized {}))
    } else if now < state.presale_end {
        Err(Refusal::Rule(ContractError::PresaleNotFinished {}))
    } else {
        token_message_outcome(
            state.token_address@,
            cw20_encoding(
                Cw20CallView::Transfer {
                    recipient: sender@,
                    amount: (state.total_supply - state.token_sold_amount) as u128,
                },
            ),
        )
    }
}

/// Pays out the unsold tokens to the admin wallet once the sale is over.
pub fn execute_withdraw_admin_token(state: &State, env: &Env, info: &MessageInfo) -> (res: Result<
    OutMsg,
    ContractError,
>)
    requires
        info.sender@ == state.admin_wallet@ && env.block_time >= state.presale_end
            ==> state.token_sold_amount <= state.total_supply,
    ensures
        match withdraw_admin_token_outcome(*state, info.sender, env.block_time) {
            Ok(m) => res matches Ok(out) && out@ == m,
            Err(r) => refused_as(res, r),
        },
        !(withdraw_admin_token_outcome(*state, info.sender, env.block_time) matches Err(
            Refusal::Encoding(_),
        )),
{
    if info.sender != state.admin_wallet {
        return Err(ContractError::Unauthorized {});
    }
    if env.block_time < state.presale_end {
        return Err(ContractError::PresaleNotFinished {});
    }
    let call = Cw20Call::Transfer {
        recipient: info.sender.clone(),
        amount: state.total_supply - state.token_sold_amount,
    };
    call_token(state.token_address.clone(), call)
}

/// The outcome of the owner's request to mint the supply to the sale.
pub open spec fn send_token_contract_outcome(state: State, sender: String, contract: String) -> Result<
    (State, OutMsgView),
    Refusal,
> {
    if !state.can_send {
        Err(Refusal::Rule(ContractError::AlreadySent {}))
    } else if sender@ != state.owner@ {
        Err(Refusal::Rule(ContractError::Unauthorized {}))
    } else {
        match token_message_outcome(
            state.token_address@,
            cw20_encoding(Cw20CallView::Mint { recipient: contract@, amount: state.total_supply }),
        ) {
            Ok(m) => Ok((State { can_send: false, ..state }, m)),
            Err(r) => Err(r),
        }
    }
}

/// Has the token contract mint the whole supply to the sale, once.
pub fn execute_send_token_contract(state: State, env: &Env, info: &MessageInfo) -> (res: Result<
    (State, OutMsg),
    ContractError,
>)
    ensures
        match send_token_contract_outcome(state, info.sender, env.contract_address) {
            Ok((s, m)) => res matches Ok((s2, out)) && s2 == s && out@ == m,
            Err(r) => refused_as(res, r),
        },
        !(send_token_contract_outcome(state, info.sender, env.contract_address) matches Err(
            Refusal::Encoding(_),
        )),
{
    if !state.can_send {
        return Err(ContractError::AlreadySent {});
    }
    if info.sender != state.owner {
        return Err(ContractError::Unauthorized {});
    }
    let call = Cw20Call::Mint { recipient: env.contract_address.clone(), amount: state.total_supply };
    match call_token(state.token_address.clone(), call) {
        Ok(message) => {
            let mut state = state;
            state.can_send = false;
            Ok((state, message))
        },
        Err(e) => Err(e),
    }
}

/// The outcome of pointing the sale at the token contract `address`,
/// which the host has judged by `verdict`.
pub open spec fn token_address_outcome(
    state: State,
    sender: String,
    address: String,
    verdict: Result<(), StdError>,
) -> Result<State, ContractError> {
    match verdict {
        Err(e) => Err(ContractError::Std(e)),
        Ok(_) => if state.owner@ != sender@ {
            Err(ContractError::Unauthorized {})
        } else {
            Ok(State { token_address: address, ..state })
        },
    }
}

/// Points the sale at the token contract `address`. `verdict` is the
/// host's judgement of the address; it is heeded before the sender is.
pub fn execute_token_address(
    state: State,
    info: &MessageInfo,
    address: String,
    verdict: Result<(), StdError>,
) -> (res: Result<State, ContractError>)
    ensures
        res == token_address_outcome(state, info.sender, address, verdict),
{
    if let Err(e) = verdict {
        return Err(ContractError::Std(e));
    }
    if state.owner != info.sender {
        return Err(ContractError::Unauthorized {});
    }
    let mut state = state;
    state.token_address = address;
    Ok(state)
}

/// The outcome of handing the sale over to `address`, which the host has
/// judged by `verdict`.
pub open spec fn change_owner_outcome(
    state: State,
    sender: String,
    address: String,
    verdict: Result<(), StdError>,
) -> Result<State, ContractError> {
    if state.owner@ != sender@ {
        Err(ContractError::Unauthorized {})
    } else {
        match verdict {
            Err(e) => Err(ContractError::Std(e)),
            Ok(_) => Ok(State { owner: address, ..state }),
        }
    }
}

/// Hands the sale over to `address`. `verdict` is the host's judgement of
/// the address; it is heeded after the sender is.
pub fn execute_change_owner(
    state: State,
    info: &MessageInfo,
    address: String,
    verdict: Result<(), StdError>,
) -> (res: Result<State, ContractError>)
    ensures
        res == change_owner_outcome(state, info.sender, address, verdict),
{
    if state.owner != info.sender {
        return Err(ContractError::Unauthorized {});
    }
    if let Err(e) = verdict {
        return Err(ContractError::Std(e));
    }
    let mut state = state;
    state.owner = address;
    Ok(state)
}

/// Whether a buyer whose ledger entry is `user` is told at `now` that a
/// withdrawal is due: strictly more than one step after the last payout
/// time.
pub open spec fn withdraw_due(state: State, user: Option<UserInfo>, now: u64) -> bool {
    match user {
        None => false,
        Some(u) => now > state.vesting_step_period + u.last_received_time,
    }
}

/// Whether a buyer whose ledger entry is `user` is told at `now` that a
/// withdrawal is due.
pub fn check_withdraw(state: &State, user: &Option<UserInfo>, env: &Env) -> (due: bool)
    requires
        user matches Some(u) ==> state.vesting_step_period + u.last_received_time <= u64::MAX,
    ensures
        due == withdraw_due(*state, *user, env.block_time),
{
    match user {
        None => false,
        Some(u) => env.block_time > state.vesting_step_period + u.last_received_time,
    }
}

/// Whether a purchase runs to its end on these inputs, rather than
/// overflowing.
pub fn buy_token_runs(
    state: &State,
    user: &Option<UserInfo>,
    env: &Env,
    info: &MessageInfo,
    amount: u128,
) -> (runs: bool)
    ensures
        runs == buy_token_defined(*state, *user, *info, env.block_time, amount),
{
    if env.block_time < state.presale_start {
        return true;
    }
    let sold = match state.token_sold_amount.checked_add(amount) {
        None => {
            return false;
        },
        Some(sold) => sold,
    };
    if sold > state.total_supply {
        return true;
    }
    let price = match state.token_price.checked_mul(amount) {
        None => {
            return false;
        },
        Some(price) => price,
    };
    if deposit_amount(&info.funds, &state.denom) < price / PRICE_DENOMINATOR {
        return true;
    }
    match user {
        None => state.vesting_step_period <= state.presale_end,
        Some(u) => u.total_token.checked_add(amount).is_some(),
    }
}

/// Whether a withdrawal runs to its end on these inputs, rather than
/// dividing by zero or overflowing.
pub fn withdraw_token_runs(state: &State, user: &Option<UserInfo>, env: &Env) -> (runs: bool)
    ensures
        runs == withdraw_token_defined(*state, *user, env.block_time),
{
    let now = env.block_time;
    if now < state.presale_end {
        return true;
    }
    let u = match user {
        None => {
            return true;
        },
        Some(u) => u,
    };
    let due = match state.vesting_step_period.checked_add(u.last_received_time) {
        None => {
            return false;
        },
        Some(due) => due,
    };
    if now < due {
        return true;
    }
    if state.vesting_step_period == 0 {
        return false;
    }
    let whole = state.vesting_period / state.vesting_step_period;
    if whole == u64::MAX {
        return false;
    }
    let steps = if whole != 0 {
        whole + 1
    } else {
        0
    };
    if steps == 0 {
        return false;
    }
    let current_step = (now - u.last_received_time) / state.vesting_step_period;
    assert(current_step >= 1) by (nonlinear_arith)
        requires
            current_step == (now - u.last_received_time) / (state.vesting_step_period as int),
            now - u.last_received_time >= state.vesting_step_period,
            state.vesting_step_period > 0,
    ;
    let released = match (u.total_token / (steps as u128)).checked_mul(current_step as u128) {
        None => {
            return false;
        },
        Some(released) => released,
    };
    let offset = match (current_step - 1).checked_mul(state.vesting_step_period) {
        None => {
            assert(state.presale_end + (current_step - 1) * state.vesting_step_period > u64::MAX);
            return false;
        },
        Some(offset) => offset,
    };
    if state.presale_end.checked_add(offset).is_none() {
        return false;
    }
    u.received_token.checked_add(released).is_some()
}

/// The stored buyer list after a first purchase by `sender`: the sender
/// appended to the list, or a list of the sender alone where none is
/// stored yet.
pub fn record_buyer(users: Option<Vec<String>>, sender: String) -> (list: Vec<String>)
    ensures
        list@ == match users {
            None => seq![sender],
            Some(stored) => stored@.push(sender),
        },
{
    match users {
        None => {
            let list = vec![sender];
            assert(list@ =~= seq![sender]);
            list
        },
        Some(stored) => {
            let mut list = stored;
            list.push(sender);
            list
        },
    }
}

} // verus!
