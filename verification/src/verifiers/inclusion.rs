//! A verifier that accepts an execution only when a cooperating target
//! recorded a marker for the same task and keeper earlier in the same
//! ledger.
use vstd::prelude::*;
use crate::types::{Address, Task, KEEPER_VERIFIER_INTERFACE_VERSION};
use crate::verifiers::identity::{spec_task_identity, task_identity};

verus! {

/// A recorded call: which task identity and keeper it was for, and when.
#[derive(Clone, PartialEq, Eq, Debug)]
pub struct Marker {
    pub task_identity: Vec<u8>,
    pub keeper: Address,
    pub ledger_sequence: u32,
}

/// The markers as a map from `(task identity, keeper)` to the ledger of the
/// latest record.
pub open spec fn markers_map(s: Seq<Marker>) -> Map<(Seq<u8>, Address), u32>
    decreases s.len(),
{
    if s.len() == 0 {
        Map::empty()
    } else {
        markers_map(s.drop_last()).insert(
            (s.last().task_identity@, s.last().keeper),
            s.last().ledger_sequence,
        )
    }
}

/// The inclusion verifier's state: the markers recorded so far.
pub struct InclusionVerifier {
    markers: Vec<Marker>,
}

impl View for InclusionVerifier {
    type V = Map<(Seq<u8>, Address), u32>;

    closed spec fn view(&self) -> Map<(Seq<u8>, Address), u32> {
        markers_map(self.markers@)
    }
}

/// Whether two byte strings are equal.
fn same_bytes(a: &Vec<u8>, b: &Vec<u8>) -> (r: bool)
    ensures
        r == (a@ == b@),
{
    if a.len() != b.len() {
        return false;
    }
    let mut i: usize = 0;
    while i < a.len()
        invariant
            a@.len() == b@.len(),
            i <= a@.len(),
            forall|j: int| 0 <= j < i ==> a@[j] == b@[j],
        decreases a@.len() - i,
    {
        if a[i] != b[i] {
            return false;
        }
        i = i + 1;
    }
    assert(a@ =~= b@);
    true
}

impl InclusionVerifier {
    /// A verifier with no markers.
    pub fn new() -> (r: InclusionVerifier)
        ensures
            r@ == Map::<(Seq<u8>, Address), u32>::empty(),
    {
        InclusionVerifier { markers: Vec::new() }
    }

    /// The calling-convention version this verifier implements.
    pub fn interface_version(&self) -> (r: u32)
        ensures
            r == KEEPER_VERIFIER_INTERFACE_VERSION,
    {
        KEEPER_VERIFIER_INTERFACE_VERSION
    }

    /// Records that the target was invoked for `task` (its owner encoded as
    /// `owner_encoding`) and `keeper` at ledger `ledger_sequence`.
    pub fn record_call(&mut self, owner_encoding: &Vec<u8>, task: &Task, keeper: Address, ledger_sequence: u32)
        ensures
            final(self)@ == old(self)@.insert(
                (spec_task_identity(owner_encoding@, *task), keeper),
                ledger_sequence,
            ),
    {
        let id = task_identity(owner_encoding, task);
        let ghost key = (id@, keeper);
        self.markers.push(Marker { task_identity: id, keeper, ledger_sequence });
        proof {
            assert(self.markers@.drop_last() =~= old(self).markers@);
        }
    }

    /// Whether a marker for `task` and `keeper` was recorded at ledger
    /// `current_sequence`.
    pub fn verify(&self, owner_encoding: &Vec<u8>, task: &Task, keeper: Address, current_sequence: u32) -> (r: bool)
        ensures
            r == (self@.contains_key((spec_task_identity(owner_encoding@, *task), keeper))
                && self@[(spec_task_identity(owner_encoding@, *task), keeper)] == current_sequence),
    {
        let id = task_identity(owner_encoding, task);
        let ghost key = (id@, keeper);
        let mut i = self.markers.len();
        proof {
            assert(self.markers@.take(i as int) =~= self.markers@);
        }
        while i > 0
            invariant
                key == (id@, keeper),
                id@ == spec_task_identity(owner_encoding@, *task),
                i <= self.markers@.len(),
                markers_map(self.markers@).contains_key(key) == markers_map(
                    self.markers@.take(i as int),
                ).contains_key(key),
                markers_map(self.markers@).contains_key(key) ==> markers_map(self.markers@)[key]
                    == markers_map(self.markers@.take(i as int))[key],
            decreases i,
        {
            let m = &self.markers[i - 1];
            proof {
                assert(self.markers@.take(i as int).drop_last() =~= self.markers@.take(i - 1));
                assert(self.markers@.take(i as int).last() == self.markers@[i - 1]);
                assert(markers_map(self.markers@.take(i as int)) == markers_map(
                    self.markers@.take(i - 1),
                ).insert((m.task_identity@, m.keeper), m.ledger_sequence));
            }
            let same_keeper = m.keeper == keeper;
            let same_id = same_bytes(&m.task_identity, &id);
            if same_keeper && same_id {
                proof {
                    assert((m.task_identity@, m.keeper) == key);
                }
                return m.ledger_sequence == current_sequence;
            }
            proof {
                assert((m.task_identity@, m.keeper) != key);
            }
            i = i - 1;
        }
        proof {
            assert(self.markers@.take(0) =~= Seq::<Marker>::empty());
        }
        false
    }
}

} // verus!
