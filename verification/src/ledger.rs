//! The registry's books: keeper balances kept as a list of entries with
//! distinct keepers, and the escrow held for open tasks. Each book has a
//! mathematical reading (a map, a total) and lemmas on how updates change it.
use vstd::prelude::*;
use crate::types::{Address, KeeperBalance, TaskStatus, TaskView};

verus! {

/// No keeper occurs twice in the entry list.
pub open spec fn unique_keepers(s: Seq<KeeperBalance>) -> bool {
    forall|i: int, j: int| 0 <= i < j < s.len() ==> s[i].keeper != s[j].keeper
}

/// The balances as a map from keeper to amount.
pub open spec fn balances_map(s: Seq<KeeperBalance>) -> Map<Address, i128>
    decreases s.len(),
{
    if s.len() == 0 {
        Map::empty()
    } else {
        balances_map(s.drop_last()).insert(s.last().keeper, s.last().amount)
    }
}

/// The sum of all balances.
pub open spec fn credit_sum(s: Seq<KeeperBalance>) -> int
    decreases s.len(),
{
    if s.len() == 0 {
        0
    } else {
        credit_sum(s.drop_last()) + s.last().amount
    }
}

/// The keys of the map are exactly the keepers of the list, and with
/// distinct keepers each key maps to its entry's amount.
pub proof fn lemma_balances_map_index(s: Seq<KeeperBalance>, i: int)
    requires
        unique_keepers(s),
        0 <= i < s.len(),
    ensures
        balances_map(s).contains_key(s[i].keeper),
        balances_map(s)[s[i].keeper] == s[i].amount,
    decreases s.len(),
{
    if i < s.len() - 1 {
        lemma_balances_map_index(s.drop_last(), i);
    }
}

/// A keeper absent from the list is absent from the map.
pub proof fn lemma_balances_map_absent(s: Seq<KeeperBalance>, k: Address)
    requires
        forall|i: int| 0 <= i < s.len() ==> s[i].keeper != k,
    ensures
        !balances_map(s).contains_key(k),
    decreases s.len(),
{
    if s.len() > 0 {
        lemma_balances_map_absent(s.drop_last(), k);
    }
}

/// Every key of the map is the keeper of some entry.
pub proof fn lemma_balances_map_key(s: Seq<KeeperBalance>, k: Address)
    requires
        balances_map(s).contains_key(k),
    ensures
        exists|i: int| 0 <= i < s.len() && s[i].keeper == k,
    decreases s.len(),
{
    if s.last().keeper != k {
        lemma_balances_map_key(s.drop_last(), k);
        let i = choose|i: int| 0 <= i < s.drop_last().len() && s.drop_last()[i].keeper == k;
        assert(s[i].keeper == k);
    }
}

/// Overwriting the amount of entry `i` inserts the new amount for its keeper
/// and moves the total by the difference.
pub proof fn lemma_balances_update(s: Seq<KeeperBalance>, i: int, amount: i128)
    requires
        unique_keepers(s),
        0 <= i < s.len(),
    ensures
        unique_keepers(s.update(i, KeeperBalance { keeper: s[i].keeper, amount })),
        balances_map(s.update(i, KeeperBalance { keeper: s[i].keeper, amount }))
            == balances_map(s).insert(s[i].keeper, amount),
        credit_sum(s.update(i, KeeperBalance { keeper: s[i].keeper, amount }))
            == credit_sum(s) - s[i].amount + amount,
    decreases s.len(),
{
    let e = KeeperBalance { keeper: s[i].keeper, amount };
    let t = s.update(i, e);
    if i == s.len() - 1 {
        assert(t.drop_last() =~= s.drop_last());
        lemma_balances_map_absent(s.drop_last(), s[i].keeper);
        assert(balances_map(t) =~= balances_map(s).insert(s[i].keeper, amount));
    } else {
        lemma_balances_update(s.drop_last(), i, amount);
        assert(t.drop_last() =~= s.drop_last().update(i, e));
        assert(s.last().keeper != s[i].keeper);
        assert(balances_map(t) =~= balances_map(s).insert(s[i].keeper, amount));
    }
}

/// Appending an entry for a new keeper inserts it into the map and adds its
/// amount to the total.
pub proof fn lemma_balances_push(s: Seq<KeeperBalance>, k: Address, amount: i128)
    requires
        unique_keepers(s),
        forall|i: int| 0 <= i < s.len() ==> s[i].keeper != k,
    ensures
        unique_keepers(s.push(KeeperBalance { keeper: k, amount })),
        balances_map(s.push(KeeperBalance { keeper: k, amount }))
            == balances_map(s).insert(k, amount),
        credit_sum(s.push(KeeperBalance { keeper: k, amount })) == credit_sum(s) + amount,
{
    let t = s.push(KeeperBalance { keeper: k, amount });
    assert(t.drop_last() =~= s);
}

/// Whether a task still holds its escrow.
pub open spec fn is_open(t: TaskView) -> bool {
    t.status == TaskStatus::Pending || t.status == TaskStatus::Claimed
}

/// Escrow a task contributes to the registry's obligations.
pub open spec fn escrow_of(t: TaskView) -> int {
    if is_open(t) {
        t.reward as int
    } else {
        0
    }
}

/// Total escrow held for open tasks.
pub open spec fn open_escrow(s: Seq<TaskView>) -> int
    decreases s.len(),
{
    if s.len() == 0 {
        0
    } else {
        open_escrow(s.drop_last()) + escrow_of(s.last())
    }
}

/// Replacing task `i` moves the escrow total by the difference of the two
/// tasks' contributions.
pub proof fn lemma_escrow_update(s: Seq<TaskView>, i: int, t: TaskView)
    requires
        0 <= i < s.len(),
    ensures
        open_escrow(s.update(i, t)) == open_escrow(s) - escrow_of(s[i]) + escrow_of(t),
    decreases s.len(),
{
    let u = s.update(i, t);
    if i == s.len() - 1 {
        assert(u.drop_last() =~= s.drop_last());
    } else {
        lemma_escrow_update(s.drop_last(), i, t);
        assert(u.drop_last() =~= s.drop_last().update(i, t));
    }
}

/// Appending tasks adds their escrow.
pub proof fn lemma_escrow_append(s: Seq<TaskView>, extra: Seq<TaskView>)
    ensures
        open_escrow(s + extra) == open_escrow(s) + open_escrow(extra),
    decreases extra.len(),
{
    if extra.len() == 0 {
        assert(s + extra =~= s);
    } else {
        lemma_escrow_append(s, extra.drop_last());
        assert((s + extra).drop_last() =~= s + extra.drop_last());
    }
}

} // verus!
