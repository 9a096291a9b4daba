//! Checks for the isolation property of administrative calls: they must not
//! alter task escrow or credited keeper balances (and, except a fee sweep,
//! must not move the registry's token balance).
use vstd::prelude::*;

verus! {

/// The balances relevant to isolation at one point of a run.
#[derive(Clone, Debug, PartialEq, Eq)]
pub struct IsolationSnapshot {
    /// Rewards of all tasks that were open when the snapshot was taken.
    pub open_task_rewards: Vec<(u64, i128)>,
    /// Credited balances of every keeper observed, by keeper number.
    pub keeper_balances: Vec<(u32, i128)>,
}

/// Whether two snapshots hold the same escrow and keeper credit.
pub open spec fn same_buckets(a: IsolationSnapshot, b: IsolationSnapshot) -> bool {
    &&& a.open_task_rewards@ == b.open_task_rewards@
    &&& a.keeper_balances@ == b.keeper_balances@
}

/// The `Debug` rendering of a list of `(task id, reward)` pairs.
pub uninterp spec fn debug_task_rewards(s: Seq<(u64, i128)>) -> Seq<char>;

/// The `Debug` rendering of a list of `(keeper number, balance)` pairs.
pub uninterp spec fn debug_keeper_balances(s: Seq<(u32, i128)>) -> Seq<char>;

/// The decimal digit `d` (for `0 <= d <= 9`) as a character.
pub open spec fn digit_char(d: int) -> char {
    if d == 0 {
        '0'
    } else if d == 1 {
        '1'
    } else if d == 2 {
        '2'
    } else if d == 3 {
        '3'
    } else if d == 4 {
        '4'
    } else if d == 5 {
        '5'
    } else if d == 6 {
        '6'
    } else if d == 7 {
        '7'
    } else if d == 8 {
        '8'
    } else {
        '9'
    }
}

/// The decimal digits of `n`, most significant first, with no leading zero
/// (a single `0` for zero).
pub open spec fn decimal_digits(n: nat) -> Seq<char>
    decreases n,
{
    if n < 10 {
        seq![digit_char(n as int)]
    } else {
        decimal_digits(n / 10).push(digit_char((n % 10) as int))
    }
}

/// The `Display` rendering of an `i128`: a minus sign for a negative value,
/// then the decimal digits of its magnitude.
pub open spec fn display_i128(x: i128) -> Seq<char> {
    if x < 0 {
        seq!['-'] + decimal_digits((-x) as nat)
    } else {
        decimal_digits(x as nat)
    }
}

/// The report of an escrow change.
pub open spec fn rewards_report(operation: Seq<char>, before: Seq<(u64, i128)>, after: Seq<(u64, i128)>) -> Seq<char> {
    "I-5 violated by "@ + operation + ": open task rewards changed from "@ + debug_task_rewards(
        before,
    ) + " to "@ + debug_task_rewards(after)
}

/// The report of a keeper credit change.
pub open spec fn balances_report(operation: Seq<char>, before: Seq<(u32, i128)>, after: Seq<(u32, i128)>) -> Seq<char> {
    "I-5 violated by "@ + operation + ": keeper balances changed from "@ + debug_keeper_balances(
        before,
    ) + " to "@ + debug_keeper_balances(after)
}

/// The report of a registry token balance change.
pub open spec fn token_report(operation: Seq<char>, before: i128, after: i128) -> Seq<char> {
    "I-5 violated by "@ + operation + ": registry token balance changed from "@ + display_i128(
        before,
    ) + " to "@ + display_i128(after)
}

/// Formats the escrow-change report with `format!`: the operation, then the
/// two lists rendered by `Debug`.
#[verifier::external_body]
fn format_rewards_report(operation: &str, before: &Vec<(u64, i128)>, after: &Vec<(u64, i128)>) -> (r: String)
    ensures
        r@ == "I-5 violated by "@ + operation@ + ": open task rewards changed from "@
            + debug_task_rewards(before@) + " to "@ + debug_task_rewards(after@),
{
    format!(
        "I-5 violated by {operation}: open task rewards changed from {:?} to {:?}",
        before,
        after
    )
}

/// Formats the keeper-credit-change report with `format!`: the operation,
/// then the two lists rendered by `Debug`.
#[verifier::external_body]
fn format_balances_report(operation: &str, before: &Vec<(u32, i128)>, after: &Vec<(u32, i128)>) -> (r: String)
    ensures
        r@ == "I-5 violated by "@ + operation@ + ": keeper balances changed from "@
            + debug_keeper_balances(before@) + " to "@ + debug_keeper_balances(after@),
{
    format!(
        "I-5 violated by {operation}: keeper balances changed from {:?} to {:?}",
        before,
        after
    )
}

/// Formats the token-balance-change report with `format!`: the operation,
/// then the two amounts rendered by `Display`.
#[verifier::external_body]
fn format_token_report(operation: &str, before: i128, after: i128) -> (r: String)
    ensures
        r@ == "I-5 violated by "@ + operation@ + ": registry token balance changed from "@
            + display_i128(before) + " to "@ + display_i128(after),
{
    format!("I-5 violated by {operation}: registry token balance changed from {before} to {after}")
}

/// Element-wise equality of two lists of `(id, amount)` pairs.
fn same_u64_pairs(a: &Vec<(u64, i128)>, b: &Vec<(u64, i128)>) -> (r: bool)
    ensures
        r == (a@ == b@),
{
    if a.len() != b.len() {
        return false;
    }
    let mut i: usize = 0;
    while i < a.len()
        invariant
            a@.len() == b@.len(),
            i <= a@.len(),
            forall|j: int| 0 <= j < i ==> a@[j] == b@[j],
        decreases a@.len() - i,
    {
        if a[i].0 != b[i].0 || a[i].1 != b[i].1 {
            return false;
        }
        i = i + 1;
    }
    assert(a@ =~= b@);
    true
}

/// Element-wise equality of two lists of `(number, amount)` pairs.
fn same_u32_pairs(a: &Vec<(u32, i128)>, b: &Vec<(u32, i128)>) -> (r: bool)
    ensures
        r == (a@ == b@),
{
    if a.len() != b.len() {
        return false;
    }
    let mut i: usize = 0;
    while i < a.len()
        invariant
            a@.len() == b@.len(),
            i <= a@.len(),
            forall|j: int| 0 <= j < i ==> a@[j] == b@[j],
        decreases a@.len() - i,
    {
        if a[i].0 != b[i].0 || a[i].1 != b[i].1 {
            return false;
        }
        i = i + 1;
    }
    assert(a@ =~= b@);
    true
}

/// Checks that an administrative operation changed no task escrow and no
/// keeper credit; otherwise reports the first bucket that changed.
pub fn assert_i5_isolated(operation: &str, before: &IsolationSnapshot, after: &IsolationSnapshot) -> (r: Result<(), String>)
    ensures
        r is Ok <==> same_buckets(*before, *after),
        r matches Err(m) ==> m@ == (if before.open_task_rewards@ != after.open_task_rewards@ {
            rewards_report(operation@, before.open_task_rewards@, after.open_task_rewards@)
        } else {
            balances_report(operation@, before.keeper_balances@, after.keeper_balances@)
        }),
{
    if !same_u64_pairs(&before.open_task_rewards, &after.open_task_rewards) {
        return Err(
            format_rewards_report(operation, &before.open_task_rewards, &after.open_task_rewards),
        );
    }
    if !same_u32_pairs(&before.keeper_balances, &after.keeper_balances) {
        return Err(
            format_balances_report(operation, &before.keeper_balances, &after.keeper_balances),
        );
    }
    Ok(())
}

/// Checks that an administrative operation other than a fee sweep left the
/// registry's token balance unchanged.
pub fn assert_non_sweep_token_balance_unchanged(operation: &str, before: i128, after: i128) -> (r: Result<(), String>)
    ensures
        r is Ok <==> before == after,
        r matches Err(m) ==> m@ == token_report(operation@, before, after),
{
    if before != after {
        return Err(format_token_report(operation, before, after));
    }
    Ok(())
}

/// Whether `r` is what [`assert_i5_isolated`] answers for `operation` on the
/// snapshots `before` and `after`.
pub open spec fn isolation_verdict(
    r: Result<(), String>,
    operation: Seq<char>,
    before: IsolationSnapshot,
    after: IsolationSnapshot,
) -> bool {
    match r {
        Ok(()) => same_buckets(before, after),
        Err(m) => {
            &&& !same_buckets(before, after)
            &&& m@ == (if before.open_task_rewards@ != after.open_task_rewards@ {
                rewards_report(operation, before.open_task_rewards@, after.open_task_rewards@)
            } else {
                balances_report(operation, before.keeper_balances@, after.keeper_balances@)
            })
        },
    }
}

/// Takes a snapshot, performs `call`, takes another snapshot, and checks
/// isolation between the two. A failing `call` is reported as it is.
pub fn check_admin_operation<S: Fn() -> IsolationSnapshot, F: FnOnce() -> Result<(), String>>(
    operation: &str,
    snapshot: S,
    call: F,
) -> (r: Result<(), String>)
    requires
        call_requires(snapshot, ()),
        call_requires(call, ()),
    ensures
        ({
            ||| exists|before: IsolationSnapshot, done: Result<(), String>|
                #![trigger call_ensures(snapshot, (), before), call_ensures(call, (), done)]
                {
                    &&& call_ensures(snapshot, (), before)
                    &&& call_ensures(call, (), done)
                    &&& done is Err
                    &&& r == done
                }
            ||| exists|before: IsolationSnapshot, done: Result<(), String>, after: IsolationSnapshot|
                #![trigger call_ensures(snapshot, (), before), call_ensures(call, (), done), call_ensures(snapshot, (), after)]
                {
                    &&& call_ensures(snapshot, (), before)
                    &&& call_ensures(call, (), done)
                    &&& done is Ok
                    &&& call_ensures(snapshot, (), after)
                    &&& isolation_verdict(r, operation@, before, after)
                }
        }),
{
    let before = snapshot();
    let outcome = call();
    let ghost returned = outcome;
    if let Err(m) = outcome {
        assert(call_ensures(snapshot, (), before) && call_ensures(call, (), returned));
        return Err(m);
    }
    assert(returned is Ok);
    let after = snapshot();
    let r = assert_i5_isolated(operation, &before, &after);
    assert(call_ensures(snapshot, (), before) && call_ensures(snapshot, (), after));
    assert(call_ensures(call, (), returned));
    assert(isolation_verdict(r, operation@, before, after));
    r
}

} // verus!
