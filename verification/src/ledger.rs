//! The ledger of attempts: the place where the driver loop and the trackers
//! leave their records, and from which the attempt statistics are read.
//!
//! The ledger is shared between the driver loop and the trackers; the caller
//! guards it with a lock. It takes at most one record per block, in the
//! order of the blocks.

use vstd::prelude::*;
use crate::attempt::{
    dispatch_status,
    AttemptStatus,
    Confirmation,
    Dispatch,
    RegistrationAttempt,
    Settlement,
};

verus! {

/// Whether every record is well formed and the records stand in the order of
/// their blocks, no two on the same block.
pub open spec fn orderly(records: Seq<RegistrationAttempt>) -> bool {
    &&& forall|i: int| 0 <= i < records.len() ==> (#[trigger] records[i]).well_formed()
    &&& forall|i: int, j: int|
        0 <= i < j < records.len() ==> records[i].block_sequence < records[j].block_sequence
}

/// Whether a record for the block numbered `block_sequence` can follow the
/// given records.
pub open spec fn takes(records: Seq<RegistrationAttempt>, block_sequence: u64) -> bool {
    records.len() == 0 || records.last().block_sequence < block_sequence
}

/// The number of records with the given status.
pub open spec fn tally(records: Seq<RegistrationAttempt>, status: AttemptStatus) -> nat
    decreases records.len(),
{
    if records.len() == 0 {
        0
    } else {
        tally(records.drop_last(), status) + if records.last().status == status {
            1nat
        } else {
            0nat
        }
    }
}

/// What the ledger hands back for a submission it has recorded.
#[derive(Clone, Copy, Debug, PartialEq, Eq)]
pub struct Recorded {
    /// The record's number, counted from zero in the order of recording.
    pub id: usize,
    /// The record's status. A tracker is started for a record that is
    /// pending, and for no other.
    pub status: AttemptStatus,
}

impl Recorded {
    /// Whether a tracker is to be started for the record: only a submission
    /// that the network accepted has an outcome to wait for.
    pub fn needs_tracker(&self) -> (r: bool)
        ensures
            r == (self.status == AttemptStatus::Pending),
    {
        self.status == AttemptStatus::Pending
    }
}

/// The records of all submissions so far.
pub struct AttemptLedger {
    attempts: Vec<RegistrationAttempt>,
}

impl View for AttemptLedger {
    type V = Seq<RegistrationAttempt>;

    closed spec fn view(&self) -> Seq<RegistrationAttempt> {
        self.attempts@
    }
}

impl AttemptLedger {
    #[verifier::type_invariant]
    spec fn valid(self) -> bool {
        orderly(self.attempts@)
    }

    /// A ledger without records.
    pub fn new() -> (r: AttemptLedger)
        ensures
            r@.len() == 0,
    {
        AttemptLedger { attempts: Vec::new() }
    }

    fn take_attempts(&mut self) -> (r: Vec<RegistrationAttempt>)
        ensures
            r@ == old(self)@,
            final(self)@.len() == 0,
    {
        let mut taken = AttemptLedger { attempts: Vec::new() };
        std::mem::swap(self, &mut taken);
        taken.attempts
    }

    /// The number of records.
    pub fn len(&self) -> (r: usize)
        ensures
            r == self@.len(),
            orderly(self@),
    {
        proof {
            use_type_invariant(self);
        }
        self.attempts.len()
    }

    /// The record with the given number, counted from zero in the order of
    /// recording.
    pub fn get(&self, id: usize) -> (r: Option<RegistrationAttempt>)
        ensures
            id < self@.len() ==> r == Some(self@[id as int]),
            id >= self@.len() ==> r is None,
    {
        if id < self.attempts.len() {
            Some(self.attempts[id])
        } else {
            None
        }
    }

    /// Records the submission made at `submitted_at` on the block numbered
    /// `block_sequence`: as pending where the network accepted it, else with
    /// the class of its failure. A block takes one record, and the records
    /// follow the blocks: where the block is not above that of the last
    /// record, nothing is recorded.
    pub fn record(&mut self, block_sequence: u64, submitted_at: u64, dispatch: &Dispatch) -> (r:
        Option<Recorded>)
        ensures
            orderly(final(self)@),
            takes(old(self)@, block_sequence) ==> final(self)@ == old(self)@.push(
                RegistrationAttempt::submitted(block_sequence, submitted_at, *dispatch),
            ),
            takes(old(self)@, block_sequence) ==> r is Some && r->0.id == old(self)@.len() && r->0.status
                == dispatch_status(*dispatch),
            !takes(old(self)@, block_sequence) ==> r is None && final(self)@ == old(self)@,
    {
        proof {
            use_type_invariant(&*self);
        }
        let n: usize = self.attempts.len();
        if n > 0 && self.attempts[n - 1].block_sequence >= block_sequence {
            return None;
        }
        let attempt = RegistrationAttempt::dispatched(block_sequence, submitted_at, dispatch);
        let mut attempts = self.take_attempts();
        attempts.push(attempt);
        *self = AttemptLedger { attempts };
        Some(Recorded { id: n, status: attempt.status })
    }

    /// Settles the record with the given number: a pending record takes the
    /// confirmation's status and digest, and the time the confirmation took
    /// is reported. Where the record is not pending, or there is no such
    /// record, nothing changes and nothing is reported.
    pub fn settle(&mut self, id: usize, confirmation: &Confirmation, now: u64) -> (r: Option<
        Settlement,
    >)
        ensures
            orderly(final(self)@),
            id < old(self)@.len() ==> final(self)@ == old(self)@.update(
                id as int,
                old(self)@[id as int].settled(*confirmation),
            ) && r == old(self)@[id as int].settlement(*confirmation, now),
            id >= old(self)@.len() ==> final(self)@ == old(self)@ && r is None,
    {
        proof {
            use_type_invariant(&*self);
        }
        if id >= self.attempts.len() {
            return None;
        }
        let mut attempt = self.attempts[id];
        let report = attempt.settle(confirmation, now);
        let mut attempts = self.take_attempts();
        attempts.set(id, attempt);
        *self = AttemptLedger { attempts };
        report
    }

    /// The number of records with the given status.
    pub fn count(&self, status: AttemptStatus) -> (r: usize)
        ensures
            r == tally(self@, status),
    {
        let mut found: usize = 0;
        let mut i: usize = 0;
        while i < self.attempts.len()
            invariant
                i <= self.attempts@.len(),
                found == tally(self.attempts@.take(i as int), status),
                found <= i,
            decreases self.attempts@.len() - i,
        {
            proof {
                let upto = self.attempts@.take(i + 1);
                assert(upto.drop_last() =~= self.attempts@.take(i as int));
                assert(upto.last() == self.attempts@[i as int]);
            }
            if self.attempts[i].status == status {
                found += 1;
            }
            i += 1;
        }
        assert(self.attempts@.take(i as int) =~= self.attempts@);
        found
    }
}

/// The tally of a status is above zero exactly when some record has it.
pub proof fn lemma_tally_positive(records: Seq<RegistrationAttempt>, status: AttemptStatus)
    ensures
        tally(records, status) > 0 <==> exists|i: int|
            0 <= i < records.len() && (#[trigger] records[i]).status == status,
        tally(records, status) <= records.len(),
    decreases records.len(),
{
    if records.len() > 0 {
        let front = records.drop_last();
        lemma_tally_positive(front, status);
        if tally(front, status) > 0 {
            let i = choose|i: int| 0 <= i < front.len() && (#[trigger] front[i]).status == status;
            assert(records[i].status == status);
        }
        if exists|i: int| 0 <= i < records.len() && (#[trigger] records[i]).status == status {
            let i = choose|i: int|
                0 <= i < records.len() && (#[trigger] records[i]).status == status;
            if i < records.len() - 1 {
                assert(front[i].status == status);
            }
        }
    }
}

/// The ledger never holds two records for one block.
pub proof fn lemma_one_record_per_block(records: Seq<RegistrationAttempt>, i: int, j: int)
    requires
        orderly(records),
        0 <= i < records.len(),
        0 <= j < records.len(),
        records[i].block_sequence == records[j].block_sequence,
    ensures
        i == j,
{
}

} // verus!
