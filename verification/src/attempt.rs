//! Registration attempts and the finalization tracker's bookkeeping.
//!
//! Every submission leaves one record. A submission that the network
//! accepted is recorded as pending, and a tracker waits for its outcome
//! beside the driver loop; when the outcome is known the tracker settles the
//! record, once. A submission that was rejected at once is recorded with the
//! class of its failure. The records are an accounting sink: nothing in them
//! feeds back into the scheduler's state.

use vstd::prelude::*;
use crate::classify::{classification, classify, ErrorClass};

verus! {

/// Where an attempt stands.
#[derive(Clone, Copy, Debug, PartialEq, Eq, Structural)]
pub enum AttemptStatus {
    /// Accepted by the network; the outcome is not known yet.
    Pending,
    /// Finalized with success.
    Finalized,
    /// Failed in a way that a later attempt is expected to get past.
    Recoverable,
    /// The identity was registered already.
    AlreadyDone,
    /// Failed for another reason.
    Fatal,
}

/// The status that records a failure of the given class.
pub open spec fn status_of(class: ErrorClass) -> AttemptStatus {
    match class {
        ErrorClass::Recoverable => AttemptStatus::Recoverable,
        ErrorClass::AlreadyDone => AttemptStatus::AlreadyDone,
        ErrorClass::Fatal => AttemptStatus::Fatal,
    }
}

/// The status that records a failure of the given class.
pub fn failure_status(class: ErrorClass) -> (r: AttemptStatus)
    ensures
        r == status_of(class),
        r != AttemptStatus::Pending,
        r != AttemptStatus::Finalized,
{
    match class {
        ErrorClass::Recoverable => AttemptStatus::Recoverable,
        ErrorClass::AlreadyDone => AttemptStatus::AlreadyDone,
        ErrorClass::Fatal => AttemptStatus::Fatal,
    }
}

/// What became of handing a transaction to the network.
#[derive(Clone, Debug, PartialEq, Eq)]
pub enum Dispatch {
    /// The network took it; its confirmation is awaited.
    Accepted,
    /// The network refused it at once, with this failure text.
    Rejected { raw_error: String },
}

/// The terminal outcome of a transaction that the network had accepted.
#[derive(Clone, Debug, PartialEq, Eq)]
pub enum Confirmation {
    /// Finalized with success, under this transaction digest.
    Finalized { digest: [u8; 32] },
    /// Finalized as failed, dropped or found invalid, with this failure text.
    Failed { raw_error: String },
}

/// The status that a dispatch leaves on a new record.
pub open spec fn dispatch_status(dispatch: Dispatch) -> AttemptStatus {
    match dispatch {
        Dispatch::Accepted => AttemptStatus::Pending,
        Dispatch::Rejected { raw_error } => status_of(classification(raw_error@)),
    }
}

/// The status that a confirmation leaves on a pending record.
pub open spec fn confirmation_status(confirmation: Confirmation) -> AttemptStatus {
    match confirmation {
        Confirmation::Finalized { .. } => AttemptStatus::Finalized,
        Confirmation::Failed { raw_error } => status_of(classification(raw_error@)),
    }
}

/// The digest that a confirmation leaves on a pending record.
pub open spec fn confirmation_digest(confirmation: Confirmation) -> Option<[u8; 32]> {
    match confirmation {
        Confirmation::Finalized { digest } => Some(digest),
        Confirmation::Failed { .. } => None,
    }
}

/// The time from `since` to `now`, in the unit of both; zero where `now`
/// lies before `since`.
pub open spec fn elapsed(since: u64, now: u64) -> u64 {
    if now >= since {
        (now - since) as u64
    } else {
        0
    }
}

/// One submission and what is known of its outcome.
#[derive(Clone, Copy, Debug, PartialEq, Eq)]
pub struct RegistrationAttempt {
    /// The sequence number of the block that triggered the submission.
    pub block_sequence: u64,
    /// When the submission was made, in milliseconds on the caller's clock.
    pub submitted_at: u64,
    /// Where the attempt stands.
    pub status: AttemptStatus,
    /// The digest of the finalized transaction; present exactly when the
    /// attempt is finalized.
    pub extrinsic_digest: Option<[u8; 32]>,
}

/// What a tracker reports when it has settled an attempt.
#[derive(Clone, Copy, Debug, PartialEq, Eq)]
pub struct Settlement {
    /// The sequence number of the block that triggered the submission.
    pub block_sequence: u64,
    /// The status the record took.
    pub status: AttemptStatus,
    /// The time from the submission to its outcome, in milliseconds.
    pub latency: u64,
    /// The digest of the finalized transaction, if it was finalized.
    pub extrinsic_digest: Option<[u8; 32]>,
}

impl RegistrationAttempt {
    /// Whether the record holds a digest exactly when it is finalized.
    pub open spec fn well_formed(self) -> bool {
        self.extrinsic_digest is Some <==> self.status == AttemptStatus::Finalized
    }

    /// The record of a submission made at `submitted_at` on the block
    /// numbered `block_sequence`: pending where the network accepted the
    /// transaction, else with the status of its failure's class.
    pub open spec fn submitted(
        block_sequence: u64,
        submitted_at: u64,
        dispatch: Dispatch,
    ) -> RegistrationAttempt {
        RegistrationAttempt {
            block_sequence,
            submitted_at,
            status: dispatch_status(dispatch),
            extrinsic_digest: None,
        }
    }

    /// The record of a submission made at `submitted_at` on the block
    /// numbered `block_sequence`.
    pub fn dispatched(block_sequence: u64, submitted_at: u64, dispatch: &Dispatch) -> (r:
        RegistrationAttempt)
        ensures
            r == RegistrationAttempt::submitted(block_sequence, submitted_at, *dispatch),
            r.well_formed(),
    {
        let status = match dispatch {
            Dispatch::Accepted => AttemptStatus::Pending,
            Dispatch::Rejected { raw_error } => failure_status(classify(raw_error.as_str())),
        };
        RegistrationAttempt { block_sequence, submitted_at, status, extrinsic_digest: None }
    }

    /// The record as it stands once `confirmation` has arrived: a pending
    /// record takes the confirmation's status and digest, any other record
    /// stays as it is.
    pub open spec fn settled(self, confirmation: Confirmation) -> RegistrationAttempt {
        if self.status == AttemptStatus::Pending {
            RegistrationAttempt {
                status: confirmation_status(confirmation),
                extrinsic_digest: confirmation_digest(confirmation),
                ..self
            }
        } else {
            self
        }
    }

    /// The report on settling this record with `confirmation` at `now`, if
    /// the record was pending.
    pub open spec fn settlement(self, confirmation: Confirmation, now: u64) -> Option<Settlement> {
        if self.status == AttemptStatus::Pending {
            Some(
                Settlement {
                    block_sequence: self.block_sequence,
                    status: confirmation_status(confirmation),
                    latency: elapsed(self.submitted_at, now),
                    extrinsic_digest: confirmation_digest(confirmation),
                },
            )
        } else {
            None
        }
    }

    /// Records the outcome of a pending attempt, with the time it took to
    /// arrive. An attempt is settled once: on a record that is not pending
    /// this changes nothing and reports nothing.
    pub fn settle(&mut self, confirmation: &Confirmation, now: u64) -> (r: Option<Settlement>)
        ensures
            *final(self) == old(self).settled(*confirmation),
            r == old(self).settlement(*confirmation, now),
            old(self).well_formed() ==> final(self).well_formed(),
            final(self).status != AttemptStatus::Pending,
    {
        if self.status != AttemptStatus::Pending {
            return None;
        }
        let (status, digest) = match confirmation {
            Confirmation::Finalized { digest } => (AttemptStatus::Finalized, Some(*digest)),
            Confirmation::Failed { raw_error } => (
                failure_status(classify(raw_error.as_str())),
                None,
            ),
        };
        let latency: u64 = if now >= self.submitted_at {
            now - self.submitted_at
        } else {
            0
        };
        self.status = status;
        self.extrinsic_digest = digest;
        Some(
            Settlement {
                block_sequence: self.block_sequence,
                status,
                latency,
                extrinsic_digest: digest,
            },
        )
    }
}

} // verus!
