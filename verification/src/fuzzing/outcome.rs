//! Judging an observed batch registration against its prediction: an
//! accepted batch must hand out one id per entry, in order, and move exactly
//! the batch total; a rejected batch must fail with the predicted error and
//! move nothing.
use vstd::prelude::*;
use crate::types::KeeperError;

verus! {

/// Token balances and task count around a batch registration.
#[derive(Clone, Copy, PartialEq, Eq, Structural, Debug)]
pub struct BatchBooks {
    pub owner_balance: i128,
    pub registry_balance: i128,
    pub task_count: u64,
}

/// How an observed batch registration disagrees with its prediction.
#[derive(Clone, Copy, PartialEq, Eq, Structural, Debug)]
pub enum BatchMismatch {
    /// Accepted, though this rejection was predicted.
    AcceptedButExpected(KeeperError),
    /// Rejected with this error, though acceptance was predicted.
    RejectedButExpectedAcceptance(KeeperError),
    /// Rejected, but with another error than the predicted one.
    WrongRejection { expected: KeeperError, actual: KeeperError },
    /// Accepted, but not one id per entry.
    WrongIdCount,
    /// Accepted, but the task counter did not advance by the batch size.
    CounterNotAdvancedByBatch,
    /// Accepted, but the registry did not receive exactly the batch total.
    WrongEscrow,
    /// Accepted, but the owner was not debited exactly the batch total.
    WrongDebit,
    /// Accepted, but the ids are not the next ones in input order.
    IdsOutOfOrder,
    /// Rejected, but the owner's balance changed.
    OwnerBalanceChanged,
    /// Rejected, but the registry's balance changed.
    RegistryBalanceChanged,
    /// Rejected, but the task counter moved.
    CounterChanged,
}

/// A predicted-valid batch the owner cannot pay for: its failure is the
/// token's business, so the case is not judged.
pub open spec fn spec_unaffordable(predicted: Option<KeeperError>, expected_total: i128, owner_before: i128) -> bool {
    predicted is None && expected_total > owner_before
}

/// Whether a predicted-valid batch cannot be paid for by its owner.
pub fn unaffordable(predicted: Option<KeeperError>, expected_total: i128, owner_before: i128) -> (r: bool)
    ensures
        r == spec_unaffordable(predicted, expected_total, owner_before),
{
    predicted.is_none() && expected_total > owner_before
}

/// Whether `ids` are the ids following `count_before`, in order.
pub open spec fn ids_in_order(ids: Seq<u64>, count_before: u64) -> bool {
    forall|i: int| 0 <= i < ids.len() ==> #[trigger] ids[i] == count_before + i + 1
}

/// The outcome as a value.
pub open spec fn outcome_view(outcome: Result<Vec<u64>, KeeperError>) -> Result<Seq<u64>, KeeperError> {
    match outcome {
        Ok(ids) => Ok(ids@),
        Err(e) => Err(e),
    }
}

/// The verdict on a batch of `n` entries worth `total`: the first
/// disagreement with the prediction, checked in a fixed order.
pub open spec fn spec_check_batch_outcome(
    n: nat,
    total: i128,
    predicted: Option<KeeperError>,
    outcome: Result<Seq<u64>, KeeperError>,
    before: BatchBooks,
    after: BatchBooks,
) -> Result<(), BatchMismatch> {
    match outcome {
        Ok(ids) => match predicted {
            Some(e) => Err(BatchMismatch::AcceptedButExpected(e)),
            None => if ids.len() != n {
                Err(BatchMismatch::WrongIdCount)
            } else if after.task_count != before.task_count + n {
                Err(BatchMismatch::CounterNotAdvancedByBatch)
            } else if after.registry_balance - before.registry_balance != total {
                Err(BatchMismatch::WrongEscrow)
            } else if before.owner_balance - after.owner_balance != total {
                Err(BatchMismatch::WrongDebit)
            } else if !ids_in_order(ids, before.task_count) {
                Err(BatchMismatch::IdsOutOfOrder)
            } else {
                Ok(())
            },
        },
        Err(actual) => match predicted {
            None => Err(BatchMismatch::RejectedButExpectedAcceptance(actual)),
            Some(expected) => if actual != expected {
                Err(BatchMismatch::WrongRejection { expected, actual })
            } else if after.owner_balance != before.owner_balance {
                Err(BatchMismatch::OwnerBalanceChanged)
            } else if after.registry_balance != before.registry_balance {
                Err(BatchMismatch::RegistryBalanceChanged)
            } else if after.task_count != before.task_count {
                Err(BatchMismatch::CounterChanged)
            } else {
                Ok(())
            },
        },
    }
}

/// Judges what registering a batch of `entry_count` entries worth
/// `expected_total` did, given the predicted outcome and the books before
/// and after the call.
pub fn check_batch_outcome(
    entry_count: usize,
    expected_total: i128,
    predicted: Option<KeeperError>,
    outcome: &Result<Vec<u64>, KeeperError>,
    before: BatchBooks,
    after: BatchBooks,
) -> (r: Result<(), BatchMismatch>)
    ensures
        r == spec_check_batch_outcome(
            entry_count as nat,
            expected_total,
            predicted,
            outcome_view(*outcome),
            before,
            after,
        ),
{
    match outcome {
        Ok(ids) => match predicted {
            Some(e) => Err(BatchMismatch::AcceptedButExpected(e)),
            None => {
                if ids.len() != entry_count {
                    return Err(BatchMismatch::WrongIdCount);
                }
                if after.task_count.checked_sub(before.task_count) != Some(entry_count as u64) {
                    return Err(BatchMismatch::CounterNotAdvancedByBatch);
                }
                if after.registry_balance.checked_sub(before.registry_balance) != Some(expected_total) {
                    return Err(BatchMismatch::WrongEscrow);
                }
                if before.owner_balance.checked_sub(after.owner_balance) != Some(expected_total) {
                    return Err(BatchMismatch::WrongDebit);
                }
                let mut i: usize = 0;
                while i < ids.len()
                    invariant
                        i <= ids@.len(),
                        predicted is None,
                        outcome_view(*outcome) == Ok::<Seq<u64>, KeeperError>(ids@),
                        ids@.len() == entry_count,
                        after.task_count == before.task_count + entry_count,
                        after.registry_balance - before.registry_balance == expected_total,
                        before.owner_balance - after.owner_balance == expected_total,
                        forall|j: int| 0 <= j < i ==> #[trigger] ids@[j] == before.task_count + j + 1,
                    decreases ids@.len() - i,
                {
                    let expected_id = before.task_count + (i as u64) + 1;
                    if ids[i] != expected_id {
                        assert(!ids_in_order(ids@, before.task_count)) by {
                            assert(ids@[i as int] != before.task_count + i + 1);
                        }
                        return Err(BatchMismatch::IdsOutOfOrder);
                    }
                    i = i + 1;
                }
                Ok(())
            },
        },
        Err(actual) => match predicted {
            None => Err(BatchMismatch::RejectedButExpectedAcceptance(*actual)),
            Some(expected) => {
                if *actual != expected {
                    Err(BatchMismatch::WrongRejection { expected, actual: *actual })
                } else if after.owner_balance != before.owner_balance {
                    Err(BatchMismatch::OwnerBalanceChanged)
                } else if after.registry_balance != before.registry_balance {
                    Err(BatchMismatch::RegistryBalanceChanged)
                } else if after.task_count != before.task_count {
                    Err(BatchMismatch::CounterChanged)
                } else {
                    Ok(())
                }
            },
        },
    }
}

} // verus!
