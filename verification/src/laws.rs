//! What holds of the sale across requests.
use vstd::prelude::*;
use crate::contract::{execute_defined, execute_outcome, ledger_consistent, ContractView};
use crate::error::{ContractError, Refusal, StdError};
use crate::ledger::{
    addresses, has_user, lemma_entry_within_sum, lemma_listed_sum_listed, lemma_listed_sum_push,
    lemma_listed_sum_unlisted, lemma_store_keeps_others, lemma_store_keeps_unique, listed,
    listed_once, listed_sum, lookup, store_entry, sum_bought, user_index,
};
use crate::msg::{Cw20CallView, Env, ExecuteMsg, MessageInfo, OutMsgView};
use crate::sale::{
    bank_send_view, bought_entry, buy_token_defined, buy_token_outcome, change_owner_outcome,
    deposit_in, elapsed_steps, purchase_cost, released_amount, send_token_contract_outcome,
    step_passed, token_address_outcome, token_call_view, vesting_steps,
    withdraw_admin_token_outcome, withdraw_due, withdraw_token_defined, withdraw_token_outcome,
    withdrawn_entry,
};
use crate::state::{State, UserInfo};
use crate::token::cw20_encoding;

verus! {

/// Once the owner has handed the sale over to `address`, the sale's owner
/// is `address`, and nothing else about the sale has changed.
pub proof fn law_change_owner_is_read_back(
    v: ContractView,
    env: Env,
    info: MessageInfo,
    address: String,
    verdict: Result<(), StdError>,
)
    requires
        execute_outcome(v, env, info, ExecuteMsg::ChangeOwner { address }, verdict) is Ok,
    ensures
        ({
            let (after, messages) = execute_outcome(
                v,
                env,
                info,
                ExecuteMsg::ChangeOwner { address },
                verdict,
            )->Ok_0;
            &&& after.config == State { owner: address, ..v.config }
            &&& after.users == v.users
            &&& messages.len() == 0
        }),
{
}

/// Once the owner has pointed the sale at the token contract `address`,
/// the sale's token contract is `address`, and nothing else has changed.
pub proof fn law_token_address_is_read_back(
    v: ContractView,
    env: Env,
    info: MessageInfo,
    address: String,
    verdict: Result<(), StdError>,
)
    requires
        execute_outcome(v, env, info, ExecuteMsg::SetTokenAddress { address }, verdict) is Ok,
    ensures
        ({
            let (after, messages) = execute_outcome(
                v,
                env,
                info,
                ExecuteMsg::SetTokenAddress { address },
                verdict,
            )->Ok_0;
            &&& after.config == State { token_address: address, ..v.config }
            &&& after.users == v.users
            &&& messages.len() == 0
        }),
{
}

/// Nobody but the owner hands the sale over, points it at a token
/// contract or has the supply minted; nobody but the admin wallet takes
/// the unsold tokens.
pub proof fn law_only_owner_and_admin(
    v: ContractView,
    env: Env,
    info: MessageInfo,
    address: String,
    verdict: Result<(), StdError>,
)
    ensures
        info.sender@ != v.config.owner@ ==> {
            &&& execute_outcome(v, env, info, ExecuteMsg::ChangeOwner { address }, verdict)
                == Err::<(ContractView, Seq<OutMsgView>), Refusal>(
                Refusal::Rule(ContractError::Unauthorized {}),
            )
            &&& execute_outcome(v, env, info, ExecuteMsg::SetTokenAddress { address }, verdict)
                matches Err(Refusal::Rule(_))
            &&& execute_outcome(v, env, info, ExecuteMsg::SendTokenContract {}, verdict) matches Err(
                Refusal::Rule(_),
            )
        },
        info.sender@ != v.config.admin_wallet@ ==> execute_outcome(
            v,
            env,
            info,
            ExecuteMsg::WithdrawAdminToken {},
            verdict,
        ) == Err::<(ContractView, Seq<OutMsgView>), Refusal>(
            Refusal::Rule(ContractError::Unauthorized {}),
        ),
{
}

/// The supply is minted at most once: once minted, the sale stays marked
/// so whatever request succeeds, and every later request to mint is
/// refused as already sent.
pub proof fn law_supply_minted_once(
    v: ContractView,
    env: Env,
    info: MessageInfo,
    msg: ExecuteMsg,
    verdict: Result<(), StdError>,
)
    requires
        !v.config.can_send,
    ensures
        execute_outcome(v, env, info, msg, verdict) matches Ok((after, _)) ==> !after.config.can_send,
        execute_outcome(v, env, info, ExecuteMsg::SendTokenContract {}, verdict) == Err::<
            (ContractView, Seq<OutMsgView>),
            Refusal,
        >(Refusal::Rule(ContractError::AlreadySent {})),
{
}

/// A successful mint calls the token contract with the encoded request to
/// mint the whole supply to the sale itself, and marks the sale as minted.
pub proof fn law_mint_sends_supply(
    v: ContractView,
    env: Env,
    info: MessageInfo,
    verdict: Result<(), StdError>,
)
    requires
        execute_outcome(v, env, info, ExecuteMsg::SendTokenContract {}, verdict) is Ok,
    ensures
        ({
            let (after, messages) = execute_outcome(
                v,
                env,
                info,
                ExecuteMsg::SendTokenContract {},
                verdict,
            )->Ok_0;
            &&& v.config.can_send
            &&& after.config == State { can_send: false, ..v.config }
            &&& after.users == v.users
            &&& cw20_encoding(
                Cw20CallView::Mint {
                    recipient: env.contract_address@,
                    amount: v.config.total_supply,
                },
            ) matches Ok(bytes) && messages == seq![
                token_call_view(v.config.token_address@, bytes),
            ]
        }),
{
}

/// The previous purchases of `addr` in `users`.
pub open spec fn bought_before(users: Seq<UserInfo>, addr: Seq<char>) -> int {
    match lookup(users, addr) {
        Some(u) => u.total_token as int,
        None => 0,
    }
}

/// A purchase is accepted exactly when the sale has opened, the supply
/// still holds the tokens asked for, and the coins sent in the sale's
/// denomination pay at least their price.
pub proof fn law_purchase_accepted_when(
    v: ContractView,
    env: Env,
    info: MessageInfo,
    amount: u128,
    verdict: Result<(), StdError>,
)
    ensures
        execute_outcome(v, env, info, ExecuteMsg::BuyToken { amount }, verdict) is Ok <==> {
            &&& env.block_time >= v.config.presale_start
            &&& v.config.token_sold_amount + amount <= v.config.total_supply
            &&& deposit_in(info.funds@, v.config.denom@) >= purchase_cost(v.config, amount)
        },
{
}

/// A purchase of `amount` tokens counts them both in the sale's total and
/// in the buyer's entry, leaves every other buyer's entry as it was, lists
/// a first-time buyer after the others, and forwards all the coins sent in
/// the sale's denomination to the admin wallet.
pub proof fn law_purchase_accounting(
    v: ContractView,
    env: Env,
    info: MessageInfo,
    amount: u128,
    verdict: Result<(), StdError>,
)
    requires
        ledger_consistent(v),
        execute_outcome(v, env, info, ExecuteMsg::BuyToken { amount }, verdict) is Ok,
    ensures
        ({
            let (after, messages) = execute_outcome(
                v,
                env,
                info,
                ExecuteMsg::BuyToken { amount },
                verdict,
            )->Ok_0;
            &&& after.config == State {
                token_sold_amount: (v.config.token_sold_amount + amount) as u128,
                ..v.config
            }
            &&& lookup(after.users, info.sender@) == Some(
                bought_entry(v.config, lookup(v.users, info.sender@), info.sender, amount),
            )
            &&& bought_before(after.users, info.sender@) == bought_before(v.users, info.sender@)
                + amount
            &&& forall|other: Seq<char>|
                other != info.sender@ ==> #[trigger] lookup(after.users, other) == lookup(
                    v.users,
                    other,
                )
            &&& has_user(v.users, info.sender@) ==> addresses(after.users) == addresses(v.users)
            &&& !has_user(v.users, info.sender@) ==> addresses(after.users) == addresses(
                v.users,
            ).push(info.sender)
            &&& messages == seq![
                bank_send_view(
                    v.config.admin_wallet@,
                    v.config.denom@,
                    deposit_in(info.funds@, v.config.denom@),
                ),
            ]
        }),
{
    let entry = bought_entry(v.config, lookup(v.users, info.sender@), info.sender, amount);
    if has_user(v.users, info.sender@) {
        let k = user_index(v.users, info.sender@);
        assert(v.users[k].address@ == info.sender@);
        lemma_entry_within_sum(v.users, k);
    }
    lemma_store_keeps_unique(v.users, info.sender@, entry);
    assert forall|other: Seq<char>| other != info.sender@ implies #[trigger] lookup(
        store_entry(v.users, info.sender@, entry),
        other,
    ) == lookup(v.users, other) by {
        lemma_store_keeps_others(v.users, info.sender@, entry, other);
    }
    let after_users = store_entry(v.users, info.sender@, entry);
    if has_user(v.users, info.sender@) {
        assert(addresses(after_users) =~= addresses(v.users));
    } else {
        assert(addresses(after_users) =~= addresses(v.users).push(info.sender));
    }
}

/// A withdrawal pays out to the buyer the tokens released since the last
/// payout, counts them as received, moves the buyer's payout time, and
/// changes nothing else: not the buyer's purchases, not the other
/// buyers, not the configuration.
pub proof fn law_withdrawal_accounting(
    v: ContractView,
    env: Env,
    info: MessageInfo,
    verdict: Result<(), StdError>,
)
    requires
        ledger_consistent(v),
        execute_outcome(v, env, info, ExecuteMsg::WithdrawToken {}, verdict) is Ok,
    ensures
        ({
            let (after, messages) = execute_outcome(
                v,
                env,
                info,
                ExecuteMsg::WithdrawToken {},
                verdict,
            )->Ok_0;
            let u = lookup(v.users, info.sender@)->Some_0;
            let now = env.block_time;
            &&& env.block_time >= v.config.presale_end
            &&& lookup(v.users, info.sender@) is Some
            &&& step_passed(v.config, u, now)
            &&& after.config == v.config
            &&& lookup(after.users, info.sender@) == Some(withdrawn_entry(v.config, u, now))
            &&& bought_before(after.users, info.sender@) == bought_before(v.users, info.sender@)
            &&& forall|other: Seq<char>|
                other != info.sender@ ==> #[trigger] lookup(after.users, other) == lookup(
                    v.users,
                    other,
                )
            &&& addresses(after.users) == addresses(v.users)
            &&& cw20_encoding(
                Cw20CallView::Transfer {
                    recipient: info.sender@,
                    amount: released_amount(v.config, u, now) as u128,
                },
            ) matches Ok(bytes) && messages == seq![token_call_view(v.config.token_address@, bytes)]
        }),
{
    let u = lookup(v.users, info.sender@)->Some_0;
    let k = user_index(v.users, info.sender@);
    assert(v.users[k].address@ == info.sender@);
    let now = env.block_time;
    let entry = withdrawn_entry(v.config, u, now);
    lemma_store_keeps_unique(v.users, info.sender@, entry);
    assert forall|other: Seq<char>| other != info.sender@ implies #[trigger] lookup(
        store_entry(v.users, info.sender@, entry),
        other,
    ) == lookup(v.users, other) by {
        lemma_store_keeps_others(v.users, info.sender@, entry, other);
    }
    assert(addresses(store_entry(v.users, info.sender@, entry)) =~= addresses(v.users));
}

/// The admin's withdrawal pays out every unsold token and changes nothing.
pub proof fn law_admin_withdrawal(
    v: ContractView,
    env: Env,
    info: MessageInfo,
    verdict: Result<(), StdError>,
)
    requires
        execute_outcome(v, env, info, ExecuteMsg::WithdrawAdminToken {}, verdict) is Ok,
    ensures
        ({
            let (after, messages) = execute_outcome(
                v,
                env,
                info,
                ExecuteMsg::WithdrawAdminToken {},
                verdict,
            )->Ok_0;
            &&& after == v
            &&& info.sender@ == v.config.admin_wallet@
            &&& env.block_time >= v.config.presale_end
            &&& cw20_encoding(
                Cw20CallView::Transfer {
                    recipient: info.sender@,
                    amount: (v.config.total_supply - v.config.token_sold_amount) as u128,
                },
            ) matches Ok(bytes) && messages == seq![token_call_view(v.config.token_address@, bytes)]
        }),
{
}

/// A buyer who is told, after the sale has ended, that a withdrawal is due
/// is not refused by the sale's rules when withdrawing. The payout's
/// encoding never fails either (see the contract of `execute`), so the
/// withdrawal goes through.
pub proof fn law_due_withdrawal_succeeds(
    v: ContractView,
    env: Env,
    info: MessageInfo,
    verdict: Result<(), StdError>,
)
    requires
        withdraw_due(v.config, lookup(v.users, info.sender@), env.block_time),
        env.block_time >= v.config.presale_end,
    ensures
        !(execute_outcome(v, env, info, ExecuteMsg::WithdrawToken {}, verdict) matches Err(
            Refusal::Rule(_),
        )),
{
}

/// No request takes a buyer out of the ledger, lowers the tokens it
/// bought or the tokens it received, or reorders the buyers.
pub proof fn law_entries_only_grow(
    v: ContractView,
    env: Env,
    info: MessageInfo,
    msg: ExecuteMsg,
    verdict: Result<(), StdError>,
)
    requires
        ledger_consistent(v),
        execute_defined(v, env, info, msg),
        execute_outcome(v, env, info, msg, verdict) is Ok,
    ensures
        ({
            let after = execute_outcome(v, env, info, msg, verdict)->Ok_0.0;
            &&& addresses(v.users).is_prefix_of(addresses(after.users))
            &&& forall|addr: Seq<char>|
                #[trigger] has_user(v.users, addr) ==> {
                    &&& has_user(after.users, addr)
                    &&& lookup(after.users, addr)->Some_0.total_token >= lookup(
                        v.users,
                        addr,
                    )->Some_0.total_token
                    &&& lookup(after.users, addr)->Some_0.received_token >= lookup(
                        v.users,
                        addr,
                    )->Some_0.received_token
                }
        }),
{
    let after = execute_outcome(v, env, info, msg, verdict)->Ok_0.0;
    match msg {
        ExecuteMsg::BuyToken { amount } => {
            law_purchase_accounting(v, env, info, amount, verdict);
            assert forall|addr: Seq<char>| #[trigger] has_user(v.users, addr) implies {
                &&& has_user(after.users, addr)
                &&& lookup(after.users, addr)->Some_0.total_token >= lookup(
                    v.users,
                    addr,
                )->Some_0.total_token
                &&& lookup(after.users, addr)->Some_0.received_token >= lookup(
                    v.users,
                    addr,
                )->Some_0.received_token
            } by {
                if addr != info.sender@ {
                    assert(lookup(after.users, addr) == lookup(v.users, addr));
                } else {
                    assert(lookup(after.users, addr) is Some);
                }
            }
        },
        ExecuteMsg::WithdrawToken {} => {
            law_withdrawal_accounting(v, env, info, verdict);
            assert forall|addr: Seq<char>| #[trigger] has_user(v.users, addr) implies {
                &&& has_user(after.users, addr)
                &&& lookup(after.users, addr)->Some_0.total_token >= lookup(
                    v.users,
                    addr,
                )->Some_0.total_token
                &&& lookup(after.users, addr)->Some_0.received_token >= lookup(
                    v.users,
                    addr,
                )->Some_0.received_token
            } by {
                if addr != info.sender@ {
                    assert(lookup(after.users, addr) == lookup(v.users, addr));
                } else {
                    assert(lookup(after.users, addr) is Some);
                }
            }
        },
        _ => {
            assert(after.users == v.users);
        },
    }
}

/// The buyers together never have bought more tokens than the sale
/// offers, and so neither has any one of them.
pub proof fn law_sales_within_supply(v: ContractView)
    requires
        ledger_consistent(v),
    ensures
        sum_bought(v.users) <= v.config.total_supply,
        forall|i: int| 0 <= i < v.users.len() ==> #[trigger] v.users[i].total_token <= v.config.total_supply,
{
    assert forall|i: int| 0 <= i < v.users.len() implies #[trigger] v.users[i].total_token <= v.config.total_supply by {
        lemma_entry_within_sum(v.users, i);
    }
}

/// A single payout is no more than the buyer bought as long as no more
/// steps have passed since the payout time than there are vesting parts.
/// Past that, nothing caps it: a payout counts every step that has passed.
pub proof fn law_release_within_purchase(state: State, u: UserInfo, now: u64)
    requires
        state.vesting_step_period != 0,
        vesting_steps(state) != 0,
        u.last_received_time <= now,
        elapsed_steps(state, u, now) <= vesting_steps(state),
    ensures
        0 <= released_amount(state, u, now) <= u.total_token,
{
    let parts = vesting_steps(state);
    let elapsed = elapsed_steps(state, u, now);
    let total = u.total_token as int;
    assert(0 <= elapsed) by (nonlinear_arith)
        requires
            elapsed == (now - u.last_received_time) / (state.vesting_step_period as int),
            now - u.last_received_time >= 0,
            state.vesting_step_period > 0,
    ;
    assert(parts > 0);
    assert(0 <= (total / parts) * elapsed <= total) by (nonlinear_arith)
        requires
            parts > 0,
            0 <= elapsed <= parts,
            total >= 0,
    ;
}

/// What the contract's storage keeps: the buyer list names every address
/// that has an entry and no other, each once, and the entries' purchases
/// add up to the tokens sold, which stay within the supply.
pub open spec fn stored_ledger_consistent(
    list: Seq<String>,
    entries: Map<Seq<char>, UserInfo>,
    config: State,
) -> bool {
    &&& listed_once(list)
    &&& forall|k: Seq<char>| #[trigger] entries.dom().contains(k) <==> listed(list, k)
    &&& listed_sum(list, entries) == config.token_sold_amount
    &&& config.token_sold_amount <= config.total_supply
}

/// The stored entry of `key`, where there is one.
pub open spec fn stored_entry(entries: Map<Seq<char>, UserInfo>, key: Seq<char>) -> Option<UserInfo> {
    if entries.dom().contains(key) {
        Some(entries[key])
    } else {
        None
    }
}

/// A purchase written back to storage as the entry points write it (the
/// new configuration, the buyer's entry under the buyer's address, and the
/// buyer appended to the list on a first purchase only) keeps the storage
/// consistent: every buyer is listed once however many purchases it makes,
/// and the tokens sold are the sum of the buyers' purchases. A refused
/// purchase writes nothing.
pub proof fn law_stored_purchase_keeps_ledger(
    list: Seq<String>,
    entries: Map<Seq<char>, UserInfo>,
    config: State,
    env: Env,
    info: MessageInfo,
    amount: u128,
)
    requires
        stored_ledger_consistent(list, entries, config),
        buy_token_defined(
            config,
            stored_entry(entries, info.sender@),
            info,
            env.block_time,
            amount,
        ),
    ensures
        buy_token_outcome(config, stored_entry(entries, info.sender@), info, env.block_time, amount)
            matches Ok(p) ==> stored_ledger_consistent(
            if p.new_user {
                list.push(info.sender)
            } else {
                list
            },
            entries.insert(info.sender@, p.user),
            p.state,
        ),
{
    let key = info.sender@;
    let user = stored_entry(entries, key);
    if let Ok(p) = buy_token_outcome(config, user, info, env.block_time, amount) {
        let after = entries.insert(key, p.user);
        if p.new_user {
            let pushed = list.push(info.sender);
            assert(!listed(list, key));
            assert(listed_once(pushed)) by {
                assert forall|a: int, b: int|
                    0 <= a < pushed.len() && 0 <= b < pushed.len() && a != b implies #[trigger] pushed[a]@
                    != #[trigger] pushed[b]@ by {
                    if a == list.len() as int {
                        assert(list[b]@ != key);
                    } else if b == list.len() as int {
                        assert(list[a]@ != key);
                    } else {
                        assert(pushed[a] == list[a] && pushed[b] == list[b]);
                    }
                }
            }
            assert forall|k: Seq<char>| #[trigger] after.dom().contains(k) <==> listed(pushed, k) by {
                if listed(list, k) {
                    let i = choose|i: int| 0 <= i < list.len() && #[trigger] list[i]@ == k;
                    assert(pushed[i]@ == k);
                }
                if listed(pushed, k) && k != key {
                    let i = choose|i: int| 0 <= i < pushed.len() && #[trigger] pushed[i]@ == k;
                    assert(list[i]@ == k);
                }
                assert(pushed[list.len() as int]@ == key);
            }
            lemma_listed_sum_push(list, after, info.sender);
            lemma_listed_sum_unlisted(list, entries, key, p.user);
        } else {
            assert(listed(list, key));
            lemma_listed_sum_listed(list, entries, key, p.user);
        }
    }
}

/// A withdrawal written back to storage as the entry points write it (the
/// buyer's new entry under the buyer's address, nothing else) keeps the
/// storage consistent.
pub proof fn law_stored_withdrawal_keeps_ledger(
    list: Seq<String>,
    entries: Map<Seq<char>, UserInfo>,
    config: State,
    env: Env,
    info: MessageInfo,
)
    requires
        stored_ledger_consistent(list, entries, config),
        withdraw_token_defined(config, stored_entry(entries, info.sender@), env.block_time),
    ensures
        withdraw_token_outcome(config, stored_entry(entries, info.sender@), info.sender, env.block_time)
            matches Ok((entry, _)) ==> stored_ledger_consistent(
            list,
            entries.insert(info.sender@, entry),
            config,
        ),
{
    let key = info.sender@;
    if let Ok((entry, _)) = withdraw_token_outcome(
        config,
        stored_entry(entries, key),
        info.sender,
        env.block_time,
    ) {
        assert(listed(list, key));
        lemma_listed_sum_listed(list, entries, key, entry);
        let after = entries.insert(key, entry);
        assert forall|k: Seq<char>| #[trigger] after.dom().contains(k) <==> listed(list, k) by {
            assert(entries.dom().contains(k) <==> listed(list, k));
        }
    }
}

/// The admin wallet takes the unsold tokens whenever it asks at or after
/// the end of the sale, whatever else the sale holds (minted or not, sold
/// out or not): the sale's rules refuse the request exactly when the
/// sender is not the admin wallet or the sale has not ended, and the
/// payout is a transfer of the unsold tokens, `total_supply` less
/// `token_sold_amount`, to the sender on the token contract.
pub proof fn law_admin_withdrawal_owed(state: State, sender: String, now: u64)
    ensures
        withdraw_admin_token_outcome(state, sender, now) matches Err(Refusal::Rule(_)) <==> !(
        sender@ == state.admin_wallet@ && now >= state.presale_end),
        withdraw_admin_token_outcome(state, sender, now) matches Ok(
            OutMsgView::WasmExecute { contract_addr, msg, funds },
        ) ==> {
            &&& contract_addr == state.token_address@
            &&& funds.len() == 0
            &&& cw20_encoding(
                Cw20CallView::Transfer {
                    recipient: sender@,
                    amount: (state.total_supply - state.token_sold_amount) as u128,
                },
            ) == Ok::<Seq<u8>, Seq<char>>(msg)
        },
        !(withdraw_admin_token_outcome(state, sender, now) matches Ok(OutMsgView::BankSend { .. })),
{
}

/// The owner has the supply minted whenever the sale has not minted it
/// yet, whatever has been sold: the sale's rules refuse the request
/// exactly when the supply was minted already or the sender is not the
/// owner, and a mint asks the token contract for `total_supply` tokens for
/// the sale's own account and marks the sale as minted, changing nothing
/// else.
pub proof fn law_mint_owed(state: State, sender: String, contract: String)
    ensures
        send_token_contract_outcome(state, sender, contract) matches Err(Refusal::Rule(_)) <==> (
        !state.can_send || sender@ != state.owner@),
        send_token_contract_outcome(state, sender, contract) matches Ok((after, m)) ==> {
            &&& !after.can_send
            &&& after.token_sold_amount == state.token_sold_amount
            &&& after.owner == state.owner
            &&& after.token_address == state.token_address
            &&& after.total_supply == state.total_supply
            &&& after == State { can_send: after.can_send, ..state }
            &&& m matches OutMsgView::WasmExecute { contract_addr, msg, funds }
            &&& contract_addr == state.token_address@
            &&& funds.len() == 0
            &&& cw20_encoding(
                Cw20CallView::Mint { recipient: contract@, amount: state.total_supply },
            ) == Ok::<Seq<u8>, Seq<char>>(msg)
        },
{
}

/// Pointing the sale at a token contract succeeds exactly when the host
/// accepts the address and the owner asks, whatever the sale holds; it
/// then sets the token contract to that address and nothing else. A host
/// refusal is reported as the host gave it, and otherwise a stranger is
/// refused as unauthorized.
pub proof fn law_token_address_owed(
    state: State,
    sender: String,
    address: String,
    verdict: Result<(), StdError>,
)
    ensures
        token_address_outcome(state, sender, address, verdict) is Ok <==> (verdict is Ok
            && sender@ == state.owner@),
        token_address_outcome(state, sender, address, verdict) matches Ok(after) ==> {
            &&& after.token_address == address
            &&& after == State { token_address: after.token_address, ..state }
        },
        verdict matches Err(e) ==> token_address_outcome(state, sender, address, verdict) == Err::<
            State,
            ContractError,
        >(ContractError::Std(e)),
        verdict is Ok && sender@ != state.owner@ ==> token_address_outcome(
            state,
            sender,
            address,
            verdict,
        ) == Err::<State, ContractError>(ContractError::Unauthorized {}),
{
}

/// Handing the sale over succeeds exactly when the owner asks and the host
/// accepts the address, whatever the sale holds (minted or not, sold or
/// not); it then makes that address the owner and changes nothing else. A
/// stranger is refused as unauthorized before the address is judged.
pub proof fn law_change_owner_owed(
    state: State,
    sender: String,
    address: String,
    verdict: Result<(), StdError>,
)
    ensures
        change_owner_outcome(state, sender, address, verdict) is Ok <==> (sender@ == state.owner@
            && verdict is Ok),
        change_owner_outcome(state, sender, address, verdict) matches Ok(after) ==> {
            &&& after.owner == address
            &&& after == State { owner: after.owner, ..state }
        },
        sender@ != state.owner@ ==> change_owner_outcome(state, sender, address, verdict) == Err::<
            State,
            ContractError,
        >(ContractError::Unauthorized {}),
        sender@ == state.owner@ ==> (verdict matches Err(e) ==> change_owner_outcome(
            state,
            sender,
            address,
            verdict,
        ) == Err::<State, ContractError>(ContractError::Std(e))),
{
}

/// A buyer is told that a withdrawal is due exactly when more than one
/// vesting step has passed since its payout time, at any time however
/// late; once due, a withdrawal stays due at every later time, and nobody
/// without a ledger entry is told one is due.
pub proof fn law_withdraw_due_exactly(state: State, u: UserInfo, now: u64, later: u64)
    ensures
        withdraw_due(state, Some(u), now) <==> now > state.vesting_step_period
            + u.last_received_time,
        withdraw_due(state, Some(u), now) && now <= later ==> withdraw_due(state, Some(u), later),
        !withdraw_due(state, None, now),
{
}

/// A withdrawal by a buyer with a ledger entry `u` at `now` is refused by
/// the sale's rules exactly when the sale has not ended or no vesting step
/// has passed since the payout time. It then pays the buyer's purchase
/// divided into one more part than the whole steps in the vesting period,
/// times the whole steps passed since the payout time; it counts that
/// payout as received, sets the payout time to the end of the sale plus
/// all but one of those steps, and keeps the purchase and the address.
pub proof fn law_withdrawal_amounts(state: State, u: UserInfo, sender: String, now: u64)
    requires
        withdraw_token_defined(state, Some(u), now),
    ensures
        withdraw_token_outcome(state, Some(u), sender, now) matches Err(Refusal::Rule(_)) <==> (now
            < state.presale_end || now < state.vesting_step_period + u.last_received_time),
        withdraw_token_outcome(state, Some(u), sender, now) matches Ok((e, m)) ==> {
            let step = state.vesting_step_period as int;
            let parts = (state.vesting_period as int) / step + 1;
            let passed = (now - u.last_received_time) / step;
            let paid = (u.total_token as int) / parts * passed;
            &&& e.address == u.address
            &&& e.total_token == u.total_token
            &&& e.received_token == u.received_token + paid
            &&& e.last_received_time == state.presale_end + (passed - 1) * step
            &&& m matches OutMsgView::WasmExecute { contract_addr, msg, funds }
            &&& contract_addr == state.token_address@
            &&& funds.len() == 0
            &&& cw20_encoding(Cw20CallView::Transfer { recipient: sender@, amount: paid as u128 })
                == Ok::<Seq<u8>, Seq<char>>(msg)
        },
        withdraw_token_outcome(state, None, sender, now) matches Err(Refusal::Rule(e)) && (e
            == ContractError::PresaleNotFinished {} || e == ContractError::NotDeposited {}),
{
    if withdraw_token_outcome(state, Some(u), sender, now) is Ok {
        let step = state.vesting_step_period as int;
        let whole = (state.vesting_period as int) / step;
        assert(step_passed(state, u, now));
        assert(vesting_steps(state) != 0);
        assert(whole != 0);
        assert(vesting_steps(state) == whole + 1);
        assert(released_amount(state, u, now) == (u.total_token as int) / (whole + 1) * ((now
            - u.last_received_time) / step));
        let passed = (now - u.last_received_time) / step;
        assert(elapsed_steps(state, u, now) == passed);
        assert(state.presale_end + (passed - 1) * step <= u64::MAX);
        assert(passed >= 1) by (nonlinear_arith)
            requires
                passed == (now - u.last_received_time) / step,
                now - u.last_received_time >= step,
                step > 0,
        ;
        assert((passed - 1) * step >= 0) by (nonlinear_arith)
            requires
                passed >= 1,
                step > 0,
        ;
    }
}

/// A purchase of `amount` tokens at `now` is refused by the sale's rules
/// exactly when the sale has not opened, the supply does not hold the
/// tokens, or the first coin sent in the sale's denomination pays less than
/// the price times the amount, in millionths. Otherwise it adds the amount
/// to the tokens sold and to the buyer's purchases (a first-time buyer
/// starts with nothing received and its payout time one step before the
/// end), and sends that coin on to the admin wallet.
pub proof fn law_purchase_amounts(
    state: State,
    user: Option<UserInfo>,
    info: MessageInfo,
    now: u64,
    amount: u128,
)
    requires
        buy_token_defined(state, user, info, now, amount),
    ensures
        buy_token_outcome(state, user, info, now, amount) is Err <==> (now < state.presale_start
            || state.token_sold_amount + amount > state.total_supply || deposit_in(
            info.funds@,
            state.denom@,
        ) < (state.token_price as int) * (amount as int) / 1_000_000),
        buy_token_outcome(state, user, info, now, amount) matches Ok(p) ==> {
            &&& p.state.token_sold_amount == state.token_sold_amount + amount
            &&& p.state == State { token_sold_amount: p.state.token_sold_amount, ..state }
            &&& p.new_user == (user is None)
            &&& match user {
                None => p.user.address == info.sender && p.user.total_token == amount
                    && p.user.received_token == 0 && p.user.last_received_time
                    == state.presale_end - state.vesting_step_period,
                Some(u) => p.user.address == u.address && p.user.total_token == u.total_token
                    + amount && p.user.received_token == u.received_token
                    && p.user.last_received_time == u.last_received_time,
            }
            &&& p.message == OutMsgView::BankSend {
                to_address: state.admin_wallet@,
                amount: seq![
                    crate::msg::CoinView {
                        denom: state.denom@,
                        amount: deposit_in(info.funds@, state.denom@),
                    },
                ],
            }
        },
{
}

} // verus!
