//! A sale together with its stored data: the configuration and the
//! buyers' ledger, and the requests that read and change them.
use vstd::prelude::*;
use crate::error::{refused_as, ContractError, Refusal, StdError};
use crate::ledger::{
    addresses, has_user, lemma_entry_within_sum, lemma_index_is_unique, lemma_store_keeps_unique,
    lemma_sum_push, lemma_sum_update, lookup, store_entry, sum_bought, unique_addresses, user_index,
};
use crate::msg::{
    Env, ExecuteMsg, InstantiateMsg, MessageInfo, OutMsg, OutMsgView, QueryAnswer, QueryMsg,
    Response,
};
use crate::sale::{
    buy_token_outcome, buy_token_runs, change_owner_outcome, check_withdraw, deposit_in,
    execute_buy_token, execute_change_owner, execute_send_token_contract, execute_token_address,
    execute_withdraw_admin_token, execute_withdraw_token, instantiate_state, opening_state_is,
    purchase_cost, send_token_contract_outcome, token_address_outcome, withdraw_admin_token_outcome,
    withdraw_due, withdraw_token_defined, withdraw_token_outcome, withdraw_token_runs,
};
use crate::state::{State, UserInfo};

verus! {

/// What a sale holds, seen as mathematical values.
pub struct ContractView {
    /// The configuration.
    pub config: State,
    /// The buyers' entries, in the order of each buyer's first purchase.
    pub users: Seq<UserInfo>,
}

/// What every sale keeps: no more tokens sold than offered, the tokens
/// sold are exactly those that the buyers' entries count, and no buyer
/// has two entries.
pub open spec fn ledger_consistent(v: ContractView) -> bool {
    &&& v.config.token_sold_amount <= v.config.total_supply
    &&& sum_bought(v.users) == v.config.token_sold_amount
    &&& unique_addresses(v.users)
}

/// The requests that run to their end on `v`: those on which no amount
/// computed leaves its integer type and no division is by zero.
pub open spec fn execute_defined(v: ContractView, env: Env, info: MessageInfo, msg: ExecuteMsg) -> bool {
    match msg {
        ExecuteMsg::BuyToken { amount } => env.block_time >= v.config.presale_start ==> {
            &&& v.config.token_sold_amount + amount <= u128::MAX
            &&& v.config.token_sold_amount + amount <= v.config.total_supply ==> {
                &&& v.config.token_price * amount <= u128::MAX
                &&& deposit_in(info.funds@, v.config.denom@) >= purchase_cost(v.config, amount)
                    && !has_user(v.users, info.sender@) ==> v.config.vesting_step_period
                    <= v.config.presale_end
            }
        },
        ExecuteMsg::WithdrawToken {} => withdraw_token_defined(
            v.config,
            lookup(v.users, info.sender@),
            env.block_time,
        ),
        _ => true,
    }
}

/// What a request does to a sale: the sale afterwards and the messages
/// sent out, or why it is refused. `verdict` is the host's judgement of
/// the address that the request carries, where it carries one.
pub open spec fn execute_outcome(
    v: ContractView,
    env: Env,
    info: MessageInfo,
    msg: ExecuteMsg,
    verdict: Result<(), StdError>,
) -> Result<(ContractView, Seq<OutMsgView>), Refusal> {
    match msg {
        ExecuteMsg::ChangeOwner { address } => match change_owner_outcome(
            v.config,
            info.sender,
            address,
            verdict,
        ) {
            Ok(config) => Ok((ContractView { config, users: v.users }, Seq::empty())),
            Err(e) => Err(Refusal::Rule(e)),
        },
        ExecuteMsg::SetTokenAddress { address } => match token_address_outcome(
            v.config,
            info.sender,
            address,
            verdict,
        ) {
            Ok(config) => Ok((ContractView { config, users: v.users }, Seq::empty())),
            Err(e) => Err(Refusal::Rule(e)),
        },
        ExecuteMsg::SendTokenContract {} => match send_token_contract_outcome(
            v.config,
            info.sender,
            env.contract_address,
        ) {
            Ok((config, m)) => Ok((ContractView { config, users: v.users }, seq![m])),
            Err(e) => Err(e),
        },
        ExecuteMsg::WithdrawToken {} => match withdraw_token_outcome(
            v.config,
            lookup(v.users, info.sender@),
            info.sender,
            env.block_time,
        ) {
            Ok((entry, m)) => Ok(
                (
                    ContractView {
                        config: v.config,
                        users: store_entry(v.users, info.sender@, entry),
                    },
                    seq![m],
                ),
            ),
            Err(e) => Err(e),
        },
        ExecuteMsg::WithdrawAdminToken {} => match withdraw_admin_token_outcome(
            v.config,
            info.sender,
            env.block_time,
        ) {
            Ok(m) => Ok((v, seq![m])),
            Err(e) => Err(e),
        },
        ExecuteMsg::BuyToken { amount } => match buy_token_outcome(
            v.config,
            lookup(v.users, info.sender@),
            info,
            env.block_time,
            amount,
        ) {
            Ok(p) => Ok(
                (
                    ContractView {
                        config: p.state,
                        users: store_entry(v.users, info.sender@, p.user),
                    },
                    seq![p.message],
                ),
            ),
            Err(e) => Err(e),
        },
    }
}

/// The answer that sends out `message`.
fn respond(message: OutMsg) -> (response: Response)
    ensures
        response@ == seq![message@],
{
    let response = Response { messages: vec![message] };
    assert(response@ =~= seq![message@]);
    response
}

/// The answer that sends out nothing.
fn respond_empty() -> (response: Response)
    ensures
        response@ == Seq::<OutMsgView>::empty(),
{
    let response = Response { messages: Vec::new() };
    assert(response@ =~= Seq::<OutMsgView>::empty());
    response
}

/// A sale with its stored data.
pub struct Contract {
    config: State,
    users: Vec<UserInfo>,
}

impl View for Contract {
    type V = ContractView;

    closed spec fn view(&self) -> ContractView {
        ContractView { config: self.config, users: self.users@ }
    }
}

fn copy_state(s: &State) -> (r: State)
    ensures
        r == *s,
{
    State {
        owner: s.owner.clone(),
        token_address: s.token_address.clone(),
        presale_start: s.presale_start,
        presale_end: s.presale_end,
        total_supply: s.total_supply,
        vesting_period: s.vesting_period,
        vesting_step_period: s.vesting_step_period,
        token_price: s.token_price,
        token_sold_amount: s.token_sold_amount,
        denom: s.denom.clone(),
        admin_wallet: s.admin_wallet.clone(),
        can_send: s.can_send,
    }
}

fn copy_user(u: &UserInfo) -> (r: UserInfo)
    ensures
        r == *u,
{
    UserInfo {
        address: u.address.clone(),
        total_token: u.total_token,
        received_token: u.received_token,
        last_received_time: u.last_received_time,
    }
}

/// The position of the entry of `addr`, where there is one.
fn find_user(users: &Vec<UserInfo>, addr: &String) -> (idx: Option<usize>)
    requires
        unique_addresses(users@),
    ensures
        match idx {
            Some(i) => i < users.len() && has_user(users@, addr@) && i == user_index(users@, addr@)
                && lookup(users@, addr@) == Some(users@[i as int]),
            None => !has_user(users@, addr@) && lookup(users@, addr@) == None::<UserInfo>,
        },
{
    let mut i: usize = 0;
    while i < users.len()
        invariant
            i <= users.len(),
            unique_addresses(users@),
            forall|j: int| 0 <= j < i ==> #[trigger] users@[j].address@ != addr@,
        decreases users.len() - i,
    {
        if users[i].address == *addr {
            proof {
                lemma_index_is_unique(users@, addr@, i as int);
            }
            return Some(i);
        }
        i = i + 1;
    }
    None
}

/// The entry of `addr`, copied out of the ledger, with its position.
fn load_user(users: &Vec<UserInfo>, addr: &String) -> (res: (Option<usize>, Option<UserInfo>))
    requires
        unique_addresses(users@),
    ensures
        res.1 == lookup(users@, addr@),
        res.0 matches Some(i) ==> i < users.len() && has_user(users@, addr@) && i == user_index(
            users@,
            addr@,
        ),
        res.0 is None ==> !has_user(users@, addr@),
{
    let idx = find_user(users, addr);
    match idx {
        Some(i) => (idx, Some(copy_user(&users[i]))),
        None => (idx, None),
    }
}

impl Contract {
    /// Stores `entry` for the address whose position `idx` is, or appends
    /// it where there is none.
    fn save_user(&mut self, idx: Option<usize>, addr: &String, entry: UserInfo)
        requires
            unique_addresses(old(self).users@),
            idx matches Some(i) ==> i < old(self).users.len() && has_user(old(self).users@, addr@)
                && i == user_index(old(self).users@, addr@),
            idx is None ==> !has_user(old(self).users@, addr@),
        ensures
            final(self).users@ == store_entry(old(self).users@, addr@, entry),
            final(self).config == old(self).config,
    {
        match idx {
            Some(i) => {
                self.users.set(i, entry);
            },
            None => {
                self.users.push(entry);
            },
        }
    }
}

/// Opens a sale owned by the sender, with no buyers; refused where it
/// would end before it starts.
pub fn instantiate(env: &Env, info: &MessageInfo, msg: InstantiateMsg) -> (res: Result<
    (Contract, Response),
    ContractError,
>)
    ensures
        msg.presale_start > msg.presale_end ==> res == Err::<(Contract, Response), ContractError>(
            ContractError::WrongSetTime {},
        ),
        msg.presale_start <= msg.presale_end ==> (res matches Ok((store, response)) && {
            &&& opening_state_is(store@.config, info.sender, msg)
            &&& store@.users.len() == 0
            &&& response.messages@.len() == 0
            &&& ledger_consistent(store@)
        }),
{
    match instantiate_state(info, msg) {
        Err(e) => Err(e),
        Ok(config) => {
            let store = Contract { config, users: Vec::new() };
            Ok((store, Response { messages: Vec::new() }))
        },
    }
}

/// Runs a request against the sale. `verdict` is the host's judgement of
/// the address that the request carries, where it carries one. A refused
/// request leaves the sale as it was.
pub fn execute(
    store: &mut Contract,
    env: &Env,
    info: &MessageInfo,
    msg: ExecuteMsg,
    verdict: Result<(), StdError>,
) -> (res: Result<Response, ContractError>)
    requires
        ledger_consistent(old(store)@),
        execute_defined(old(store)@, *env, *info, msg),
    ensures
        match execute_outcome(old(store)@, *env, *info, msg, verdict) {
            Ok((v, messages)) => res matches Ok(response) && response@ == messages && final(store)@
                == v,
            Err(r) => refused_as(res, r) && final(store)@ == old(store)@,
        },
        !(execute_outcome(old(store)@, *env, *info, msg, verdict) matches Err(
            Refusal::Encoding(_),
        )),
        ledger_consistent(final(store)@),
{
    match msg {
        ExecuteMsg::ChangeOwner { address } => {
            let state = copy_state(&store.config);
            match execute_change_owner(state, info, address, verdict) {
                Err(e) => Err(e),
                Ok(config) => {
                    store.config = config;
                    Ok(respond_empty())
                },
            }
        },
        ExecuteMsg::SetTokenAddress { address } => {
            let state = copy_state(&store.config);
            match execute_token_address(state, info, address, verdict) {
                Err(e) => Err(e),
                Ok(config) => {
                    store.config = config;
                    Ok(respond_empty())
                },
            }
        },
        ExecuteMsg::SendTokenContract {} => {
            let state = copy_state(&store.config);
            match execute_send_token_contract(state, env, info) {
                Err(e) => Err(e),
                Ok((config, message)) => {
                    store.config = config;
                    Ok(respond(message))
                },
            }
        },
        ExecuteMsg::WithdrawToken {} => store.withdraw_token(env, info),
        ExecuteMsg::WithdrawAdminToken {} => {
            match execute_withdraw_admin_token(&store.config, env, info) {
                Err(e) => Err(e),
                Ok(message) => Ok(respond(message)),
            }
        },
        ExecuteMsg::BuyToken { amount } => store.buy_token(env, info, amount),
    }
}

impl Contract {
    fn withdraw_token(&mut self, env: &Env, info: &MessageInfo) -> (res: Result<
        Response,
        ContractError,
    >)
        requires
            ledger_consistent(old(self)@),
            withdraw_token_defined(
                old(self)@.config,
                lookup(old(self)@.users, info.sender@),
                env.block_time,
            ),
        ensures
            match execute_outcome(
                old(self)@,
                *env,
                *info,
                ExecuteMsg::WithdrawToken {},
                Ok(()),
            ) {
                Ok((v, messages)) => res matches Ok(response) && response@ == messages
                    && final(self)@ == v,
                Err(r) => refused_as(res, r) && final(self)@ == old(self)@,
            },
            ledger_consistent(final(self)@),
            !(execute_outcome(old(self)@, *env, *info, ExecuteMsg::WithdrawToken {}, Ok(()))
                matches Err(Refusal::Encoding(_))),
    {
        let (idx, user) = load_user(&self.users, &info.sender);
        match execute_withdraw_token(&self.config, user, env, info) {
            Err(e) => Err(e),
            Ok((entry, message)) => {
                proof {
                    let i = user_index(self.users@, info.sender@);
                    lemma_sum_update(self.users@, i, entry);
                    lemma_store_keeps_unique(self.users@, info.sender@, entry);
                }
                self.save_user(idx, &info.sender, entry);
                Ok(respond(message))
            },
        }
    }

    fn buy_token(&mut self, env: &Env, info: &MessageInfo, amount: u128) -> (res: Result<
        Response,
        ContractError,
    >)
        requires
            ledger_consistent(old(self)@),
            execute_defined(old(self)@, *env, *info, ExecuteMsg::BuyToken { amount }),
        ensures
            match execute_outcome(
                old(self)@,
                *env,
                *info,
                ExecuteMsg::BuyToken { amount },
                Ok(()),
            ) {
                Ok((v, messages)) => res matches Ok(response) && response@ == messages
                    && final(self)@ == v,
                Err(r) => refused_as(res, r) && final(self)@ == old(self)@,
            },
            ledger_consistent(final(self)@),
            !(execute_outcome(
                old(self)@,
                *env,
                *info,
                ExecuteMsg::BuyToken { amount },
                Ok(()),
            ) matches Err(Refusal::Encoding(_))),
    {
        let (idx, user) = load_user(&self.users, &info.sender);
        proof {
            if let Some(i) = idx {
                lemma_entry_within_sum(self.users@, i as int);
            }
        }
        let state = copy_state(&self.config);
        match execute_buy_token(state, user, env, info, amount) {
            Err(e) => Err(e),
            Ok(purchase) => {
                proof {
                    match idx {
                        Some(i) => {
                            lemma_sum_update(self.users@, i as int, purchase.user);
                        },
                        None => {
                            lemma_sum_push(self.users@, purchase.user);
                        },
                    }
                    lemma_store_keeps_unique(self.users@, info.sender@, purchase.user);
                }
                self.config = purchase.state;
                self.save_user(idx, &info.sender, purchase.user);
                Ok(respond(purchase.message))
            },
        }
    }
}

/// The name under which a missing ledger entry is reported.
pub open spec fn user_info_kind() -> Seq<char> {
    "presale::state::UserInfo"@
}

/// The name under which a missing list of buyers is reported.
pub open spec fn users_kind() -> Seq<char> {
    "alloc::vec::Vec<alloc::string::String>"@
}

/// The sale's configuration.
pub fn query_state_info(store: &Contract) -> (state: State)
    ensures
        state == store@.config,
{
    copy_state(&store.config)
}

/// The ledger entry of `address`; refused as not found where the address
/// never bought tokens.
pub fn query_user_info(store: &Contract, address: String) -> (res: Result<UserInfo, StdError>)
    requires
        ledger_consistent(store@),
    ensures
        match lookup(store@.users, address@) {
            Some(u) => res == Ok::<UserInfo, StdError>(u),
            None => res matches Err(StdError::NotFound { kind }) && kind@ == user_info_kind(),
        },
{
    let (_, user) = load_user(&store.users, &address);
    match user {
        Some(u) => Ok(u),
        None => Err(StdError::NotFound { kind: String::from_str("presale::state::UserInfo") }),
    }
}

/// The buyers' addresses in the order of their first purchase; refused as
/// not found where nobody has bought tokens yet.
pub fn query_get_users(store: &Contract) -> (res: Result<Vec<String>, StdError>)
    ensures
        store@.users.len() == 0 ==> (res matches Err(StdError::NotFound { kind }) && kind@
            == users_kind()),
        store@.users.len() > 0 ==> (res matches Ok(list) && list@ == addresses(store@.users)),
{
    if store.users.len() == 0 {
        return Err(
            StdError::NotFound { kind: String::from_str("alloc::vec::Vec<alloc::string::String>") },
        );
    }
    let mut list: Vec<String> = Vec::new();
    let mut i: usize = 0;
    while i < store.users.len()
        invariant
            i <= store.users.len(),
            list.len() == i,
            forall|j: int| 0 <= j < i ==> #[trigger] list@[j] == store.users@[j].address,
        decreases store.users.len() - i,
    {
        list.push(store.users[i].address.clone());
        i = i + 1;
    }
    assert(list@ =~= addresses(store@.users));
    Ok(list)
}

/// Whether `address` is told that a withdrawal is due: it bought tokens,
/// and more than one vesting step has passed since its last payout time.
pub fn query_check_user(store: &Contract, env: &Env, address: String) -> (due: bool)
    requires
        ledger_consistent(store@),
        lookup(store@.users, address@) matches Some(u) ==> store@.config.vesting_step_period
            + u.last_received_time <= u64::MAX,
    ensures
        due == withdraw_due(store@.config, lookup(store@.users, address@), env.block_time),
{
    let (_, user) = load_user(&store.users, &address);
    check_withdraw(&store.config, &user, env)
}

/// Answers a query.
pub fn query(store: &Contract, env: &Env, msg: QueryMsg) -> (res: Result<QueryAnswer, StdError>)
    requires
        ledger_consistent(store@),
        msg matches QueryMsg::CheckWithdraw { address } ==> (lookup(store@.users, address@) matches Some(u)
            ==> store@.config.vesting_step_period + u.last_received_time <= u64::MAX),
    ensures
        match msg {
            QueryMsg::GetStateInfo {} => res == Ok::<QueryAnswer, StdError>(
                QueryAnswer::StateInfo(store@.config),
            ),
            QueryMsg::GetUserInfo { address } => match lookup(store@.users, address@) {
                Some(u) => res == Ok::<QueryAnswer, StdError>(QueryAnswer::UserInfo(u)),
                None => res matches Err(StdError::NotFound { kind }) && kind@ == user_info_kind(),
            },
            QueryMsg::GetAllUsers {} => if store@.users.len() == 0 {
                res matches Err(StdError::NotFound { kind }) && kind@ == users_kind()
            } else {
                res matches Ok(QueryAnswer::Users(list)) && list@ == addresses(store@.users)
            },
            QueryMsg::CheckWithdraw { address } => res == Ok::<QueryAnswer, StdError>(
                QueryAnswer::CheckWithdraw(
                    withdraw_due(store@.config, lookup(store@.users, address@), env.block_time),
                ),
            ),
        },
{
    match msg {
        QueryMsg::GetStateInfo {} => Ok(QueryAnswer::StateInfo(query_state_info(store))),
        QueryMsg::GetUserInfo { address } => match query_user_info(store, address) {
            Ok(u) => Ok(QueryAnswer::UserInfo(u)),
            Err(e) => Err(e),
        },
        QueryMsg::GetAllUsers {} => match query_get_users(store) {
            Ok(list) => Ok(QueryAnswer::Users(list)),
            Err(e) => Err(e),
        },
        QueryMsg::CheckWithdraw { address } => Ok(
            QueryAnswer::CheckWithdraw(query_check_user(store, env, address)),
        ),
    }
}

/// Whether a request runs to its end on the sale, rather than overflowing
/// or dividing by zero.
pub fn execute_runs(store: &Contract, env: &Env, info: &MessageInfo, msg: &ExecuteMsg) -> (runs: bool)
    requires
        ledger_consistent(store@),
    ensures
        runs == execute_defined(store@, *env, *info, *msg),
{
    match msg {
        ExecuteMsg::BuyToken { amount } => {
            let (idx, user) = load_user(&store.users, &info.sender);
            proof {
                if let Some(i) = idx {
                    lemma_entry_within_sum(store.users@, i as int);
                }
            }
            buy_token_runs(&store.config, &user, env, info, *amount)
        },
        ExecuteMsg::WithdrawToken {} => {
            let (_, user) = load_user(&store.users, &info.sender);
            withdraw_token_runs(&store.config, &user, env)
        },
        _ => true,
    }
}

} // verus!
