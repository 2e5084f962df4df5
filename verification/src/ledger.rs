//! The buyers' ledger as a sequence of entries, one per address, in the
//! order of each buyer's first purchase.
use vstd::prelude::*;
use crate::state::UserInfo;

verus! {

/// Whether some entry of `users` belongs to `addr`.
pub open spec fn has_user(users: Seq<UserInfo>, addr: Seq<char>) -> bool {
    exists|i: int| 0 <= i < users.len() && #[trigger] users[i].address@ == addr
}

/// The position of the entry of `addr` in `users`, where there is one.
pub open spec fn user_index(users: Seq<UserInfo>, addr: Seq<char>) -> int {
    choose|i: int| 0 <= i < users.len() && #[trigger] users[i].address@ == addr
}

/// The entry of `addr` in `users`, where there is one.
pub open spec fn lookup(users: Seq<UserInfo>, addr: Seq<char>) -> Option<UserInfo> {
    if has_user(users, addr) {
        Some(users[user_index(users, addr)])
    } else {
        None
    }
}

/// No two entries belong to the same address.
pub open spec fn unique_addresses(users: Seq<UserInfo>) -> bool {
    forall|i: int, j: int|
        0 <= i < users.len() && 0 <= j < users.len() && i != j ==> #[trigger] users[i].address@
            != #[trigger] users[j].address@
}

/// The tokens bought by all the buyers together.
pub open spec fn sum_bought(users: Seq<UserInfo>) -> int
    decreases users.len(),
{
    if users.len() == 0 {
        0
    } else {
        sum_bought(users.drop_last()) + users.last().total_token
    }
}

/// `users` with `entry` stored for `addr`: in place of the entry of
/// `addr` where there is one, else appended.
pub open spec fn store_entry(users: Seq<UserInfo>, addr: Seq<char>, entry: UserInfo) -> Seq<
    UserInfo,
> {
    if has_user(users, addr) {
        users.update(user_index(users, addr), entry)
    } else {
        users.push(entry)
    }
}

/// The buyers' addresses, in ledger order.
pub open spec fn addresses(users: Seq<UserInfo>) -> Seq<String> {
    users.map_values(|u: UserInfo| u.address)
}

/// Where addresses are unique, the entry found at a position holding
/// `addr` is the one `lookup` gives.
pub proof fn lemma_index_is_unique(users: Seq<UserInfo>, addr: Seq<char>, i: int)
    requires
        unique_addresses(users),
        0 <= i < users.len(),
        users[i].address@ == addr,
    ensures
        has_user(users, addr),
        user_index(users, addr) == i,
        lookup(users, addr) == Some(users[i]),
{
    assert(has_user(users, addr));
    let k = user_index(users, addr);
    assert(users[k].address@ == addr);
}

/// An entry's purchases are part of the total.
pub proof fn lemma_entry_within_sum(users: Seq<UserInfo>, i: int)
    requires
        0 <= i < users.len(),
    ensures
        users[i].total_token <= sum_bought(users),
        0 <= sum_bought(users),
    decreases users.len(),
{
    lemma_sum_nonnegative(users.drop_last());
    if i < users.len() - 1 {
        lemma_entry_within_sum(users.drop_last(), i);
    }
}

/// The total is never negative.
pub proof fn lemma_sum_nonnegative(users: Seq<UserInfo>)
    ensures
        0 <= sum_bought(users),
    decreases users.len(),
{
    if users.len() > 0 {
        lemma_sum_nonnegative(users.drop_last());
    }
}

/// Appending an entry adds its purchases to the total.
pub proof fn lemma_sum_push(users: Seq<UserInfo>, entry: UserInfo)
    ensures
        sum_bought(users.push(entry)) == sum_bought(users) + entry.total_token,
{
    assert(users.push(entry).drop_last() =~= users);
}

/// Replacing an entry replaces its purchases in the total.
pub proof fn lemma_sum_update(users: Seq<UserInfo>, i: int, entry: UserInfo)
    requires
        0 <= i < users.len(),
    ensures
        sum_bought(users.update(i, entry)) == sum_bought(users) - users[i].total_token
            + entry.total_token,
    decreases users.len(),
{
    let updated = users.update(i, entry);
    if i == users.len() - 1 {
        assert(updated.drop_last() =~= users.drop_last());
    } else {
        lemma_sum_update(users.drop_last(), i, entry);
        assert(updated.drop_last() =~= users.drop_last().update(i, entry));
    }
}

/// Storing an entry for an address keeps the addresses unique, where the
/// entry belongs to that address.
pub proof fn lemma_store_keeps_unique(users: Seq<UserInfo>, addr: Seq<char>, entry: UserInfo)
    requires
        unique_addresses(users),
        entry.address@ == addr,
    ensures
        unique_addresses(store_entry(users, addr, entry)),
        has_user(store_entry(users, addr, entry), addr),
        lookup(store_entry(users, addr, entry), addr) == Some(entry),
{
    let stored = store_entry(users, addr, entry);
    if has_user(users, addr) {
        let k = user_index(users, addr);
        assert(users[k].address@ == addr);
        assert(unique_addresses(stored));
        lemma_index_is_unique(stored, addr, k);
    } else {
        assert forall|i: int, j: int|
            0 <= i < stored.len() && 0 <= j < stored.len() && i != j implies #[trigger] stored[i].address@
            != #[trigger] stored[j].address@ by {
            if i == users.len() as int {
                assert(users[j].address@ != addr);
            } else if j == users.len() as int {
                assert(users[i].address@ != addr);
            }
        }
        lemma_index_is_unique(stored, addr, users.len() as int);
    }
}

/// Storing an entry for an address leaves the other addresses' entries.
pub proof fn lemma_store_keeps_others(
    users: Seq<UserInfo>,
    addr: Seq<char>,
    entry: UserInfo,
    other: Seq<char>,
)
    requires
        unique_addresses(users),
        entry.address@ == addr,
        other != addr,
    ensures
        lookup(store_entry(users, addr, entry), other) == lookup(users, other),
{
    let stored = store_entry(users, addr, entry);
    lemma_store_keeps_unique(users, addr, entry);
    if has_user(users, other) {
        let k = user_index(users, other);
        assert(users[k].address@ == other);
        assert(stored[k] == users[k]);
        lemma_index_is_unique(stored, other, k);
    } else {
        if has_user(stored, other) {
            let k = user_index(stored, other);
            assert(stored[k].address@ == other);
            assert(users[k].address@ == other);
        }
    }
}

/// Whether `key` is one of the addresses in the stored buyer list.
pub open spec fn listed(list: Seq<String>, key: Seq<char>) -> bool {
    exists|i: int| 0 <= i < list.len() && #[trigger] list[i]@ == key
}

/// No address occurs twice in the stored buyer list.
pub open spec fn listed_once(list: Seq<String>) -> bool {
    forall|i: int, j: int|
        0 <= i < list.len() && 0 <= j < list.len() && i != j ==> #[trigger] list[i]@
            != #[trigger] list[j]@
}

/// The tokens bought by the buyers in the stored list, by their stored
/// entries.
pub open spec fn listed_sum(list: Seq<String>, entries: Map<Seq<char>, UserInfo>) -> int
    decreases list.len(),
{
    if list.len() == 0 {
        0
    } else {
        listed_sum(list.drop_last(), entries) + entries[list.last()@].total_token
    }
}

/// Storing an entry for an address that is not listed leaves the listed
/// buyers' total.
pub proof fn lemma_listed_sum_unlisted(
    list: Seq<String>,
    entries: Map<Seq<char>, UserInfo>,
    key: Seq<char>,
    entry: UserInfo,
)
    requires
        !listed(list, key),
    ensures
        listed_sum(list, entries.insert(key, entry)) == listed_sum(list, entries),
    decreases list.len(),
{
    if list.len() > 0 {
        let rest = list.drop_last();
        if listed(rest, key) {
            let i = choose|i: int| 0 <= i < rest.len() && #[trigger] rest[i]@ == key;
            assert(list[i]@ == key);
        }
        assert(list[list.len() - 1]@ != key);
        lemma_listed_sum_unlisted(rest, entries, key, entry);
    }
}

/// Storing an entry for a listed address replaces its purchases in the
/// listed buyers' total.
pub proof fn lemma_listed_sum_listed(
    list: Seq<String>,
    entries: Map<Seq<char>, UserInfo>,
    key: Seq<char>,
    entry: UserInfo,
)
    requires
        listed(list, key),
        listed_once(list),
    ensures
        listed_sum(list, entries.insert(key, entry)) == listed_sum(list, entries)
            - entries[key].total_token + entry.total_token,
    decreases list.len(),
{
    let rest = list.drop_last();
    let last = list.len() - 1;
    if list[last]@ == key {
        if listed(rest, key) {
            let i = choose|i: int| 0 <= i < rest.len() && #[trigger] rest[i]@ == key;
            assert(list[i]@ == list[last]@);
        }
        lemma_listed_sum_unlisted(rest, entries, key, entry);
    } else {
        let i = choose|i: int| 0 <= i < list.len() && #[trigger] list[i]@ == key;
        assert(rest[i]@ == key);
        assert(listed_once(rest)) by {
            assert forall|a: int, b: int|
                0 <= a < rest.len() && 0 <= b < rest.len() && a != b implies #[trigger] rest[a]@
                != #[trigger] rest[b]@ by {
                assert(rest[a] == list[a] && rest[b] == list[b]);
            }
        }
        lemma_listed_sum_listed(rest, entries, key, entry);
    }
}

/// Appending an address adds its entry's purchases to the listed buyers'
/// total.
pub proof fn lemma_listed_sum_push(list: Seq<String>, entries: Map<Seq<char>, UserInfo>, s: String)
    ensures
        listed_sum(list.push(s), entries) == listed_sum(list, entries) + entries[s@].total_token,
{
    assert(list.push(s).drop_last() =~= list);
}

} // verus!
