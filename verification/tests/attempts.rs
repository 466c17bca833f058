use registrar::attempt::{
    failure_status, AttemptStatus, Confirmation, Dispatch, RegistrationAttempt, Settlement,
};
use registrar::classify::ErrorClass;
use registrar::ledger::{AttemptLedger, Recorded};

fn rejected(text: &str) -> Dispatch {
    Dispatch::Rejected { raw_error: text.to_string() }
}

fn failed(text: &str) -> Confirmation {
    Confirmation::Failed { raw_error: text.to_string() }
}

#[test]
fn failure_status_follows_the_class() {
    assert_eq!(failure_status(ErrorClass::Recoverable), AttemptStatus::Recoverable);
    assert_eq!(failure_status(ErrorClass::AlreadyDone), AttemptStatus::AlreadyDone);
    assert_eq!(failure_status(ErrorClass::Fatal), AttemptStatus::Fatal);
}

#[test]
fn accepted_dispatch_is_recorded_as_pending() {
    let attempt = RegistrationAttempt::dispatched(100, 1234, &Dispatch::Accepted);
    assert_eq!(
        attempt,
        RegistrationAttempt {
            block_sequence: 100,
            submitted_at: 1234,
            status: AttemptStatus::Pending,
            extrinsic_digest: None,
        }
    );
}

#[test]
fn rejected_dispatch_is_recorded_with_its_class() {
    let recoverable = RegistrationAttempt::dispatched(1, 0, &rejected("nonce"));
    assert_eq!(recoverable.status, AttemptStatus::Recoverable);
    let done = RegistrationAttempt::dispatched(1, 0, &rejected("AlreadyRegistered"));
    assert_eq!(done.status, AttemptStatus::AlreadyDone);
    let fatal = RegistrationAttempt::dispatched(1, 0, &rejected("boom"));
    assert_eq!(fatal.status, AttemptStatus::Fatal);
    assert_eq!(fatal.extrinsic_digest, None);
}

#[test]
fn settling_with_success_records_digest_and_latency() {
    let mut attempt = RegistrationAttempt::dispatched(100, 1000, &Dispatch::Accepted);
    let report = attempt.settle(&Confirmation::Finalized { digest: [0xabu8; 32] }, 13500);
    assert_eq!(
        report,
        Some(Settlement {
            block_sequence: 100,
            status: AttemptStatus::Finalized,
            latency: 12500,
            extrinsic_digest: Some([0xabu8; 32]),
        })
    );
    assert_eq!(attempt.status, AttemptStatus::Finalized);
    assert_eq!(attempt.extrinsic_digest, Some([0xabu8; 32]));
    assert_eq!(attempt.block_sequence, 100);
    assert_eq!(attempt.submitted_at, 1000);
}

#[test]
fn settling_with_failure_classifies_the_error() {
    let mut recoverable = RegistrationAttempt::dispatched(7, 10, &Dispatch::Accepted);
    let report = recoverable.settle(&failed("Transaction is outdated"), 25).unwrap();
    assert_eq!(report.status, AttemptStatus::Recoverable);
    assert_eq!(report.latency, 15);
    assert_eq!(report.extrinsic_digest, None);
    assert_eq!(recoverable.status, AttemptStatus::Recoverable);
    assert_eq!(recoverable.extrinsic_digest, None);

    let mut done = RegistrationAttempt::dispatched(8, 10, &Dispatch::Accepted);
    assert_eq!(
        done.settle(&failed("HotKeyAlreadyRegisteredInSubNet"), 10).unwrap().status,
        AttemptStatus::AlreadyDone
    );

    let mut fatal = RegistrationAttempt::dispatched(9, 10, &Dispatch::Accepted);
    assert_eq!(fatal.settle(&failed("Dropped"), 10).unwrap().status, AttemptStatus::Fatal);
}

#[test]
fn an_attempt_is_settled_once() {
    let mut attempt = RegistrationAttempt::dispatched(100, 1000, &Dispatch::Accepted);
    attempt.settle(&Confirmation::Finalized { digest: [1u8; 32] }, 2000);
    let settled = attempt;
    assert_eq!(attempt.settle(&failed("nonce"), 3000), None);
    assert_eq!(attempt, settled);
    assert_eq!(attempt.settle(&Confirmation::Finalized { digest: [2u8; 32] }, 3000), None);
    assert_eq!(attempt, settled);
}

#[test]
fn a_rejected_attempt_is_not_settled_later() {
    let mut attempt = RegistrationAttempt::dispatched(100, 1000, &rejected("boom"));
    assert_eq!(attempt.settle(&Confirmation::Finalized { digest: [1u8; 32] }, 2000), None);
    assert_eq!(attempt.status, AttemptStatus::Fatal);
    assert_eq!(attempt.extrinsic_digest, None);
}

#[test]
fn latency_is_zero_when_the_clock_went_back() {
    let mut attempt = RegistrationAttempt::dispatched(100, 1000, &Dispatch::Accepted);
    let report = attempt.settle(&Confirmation::Finalized { digest: [1u8; 32] }, 999).unwrap();
    assert_eq!(report.latency, 0);
    let mut other = RegistrationAttempt::dispatched(100, 0, &Dispatch::Accepted);
    let late = other.settle(&Confirmation::Finalized { digest: [1u8; 32] }, u64::MAX).unwrap();
    assert_eq!(late.latency, u64::MAX);
}

#[test]
fn new_ledger_is_empty() {
    let ledger = AttemptLedger::new();
    assert_eq!(ledger.len(), 0);
    assert_eq!(ledger.get(0), None);
    assert_eq!(ledger.count(AttemptStatus::Pending), 0);
}

#[test]
fn ledger_numbers_its_records_in_order() {
    let mut ledger = AttemptLedger::new();
    assert_eq!(
        ledger.record(10, 100, &Dispatch::Accepted),
        Some(Recorded { id: 0, status: AttemptStatus::Pending })
    );
    assert_eq!(
        ledger.record(12, 200, &rejected("nonce")),
        Some(Recorded { id: 1, status: AttemptStatus::Recoverable })
    );
    assert_eq!(
        ledger.record(15, 300, &Dispatch::Accepted),
        Some(Recorded { id: 2, status: AttemptStatus::Pending })
    );
    assert_eq!(ledger.len(), 3);
    assert_eq!(
        ledger.get(1),
        Some(RegistrationAttempt {
            block_sequence: 12,
            submitted_at: 200,
            status: AttemptStatus::Recoverable,
            extrinsic_digest: None,
        })
    );
    assert_eq!(ledger.get(2).unwrap().status, AttemptStatus::Pending);
    assert_eq!(ledger.get(3), None);
}

#[test]
fn ledger_takes_one_record_per_block() {
    let mut ledger = AttemptLedger::new();
    assert_eq!(
        ledger.record(10, 100, &Dispatch::Accepted),
        Some(Recorded { id: 0, status: AttemptStatus::Pending })
    );
    assert_eq!(ledger.record(10, 101, &Dispatch::Accepted), None);
    assert_eq!(ledger.record(9, 102, &Dispatch::Accepted), None);
    assert_eq!(ledger.len(), 1);
    assert_eq!(ledger.get(0).unwrap().submitted_at, 100);
    assert_eq!(ledger.record(11, 103, &Dispatch::Accepted).unwrap().id, 1);
}

#[test]
fn ledger_takes_block_zero_first() {
    let mut ledger = AttemptLedger::new();
    assert_eq!(ledger.record(0, 0, &Dispatch::Accepted).unwrap().id, 0);
    assert_eq!(ledger.record(0, 0, &Dispatch::Accepted), None);
}

#[test]
fn ledger_settles_the_record_it_is_asked_for() {
    let mut ledger = AttemptLedger::new();
    ledger.record(10, 100, &Dispatch::Accepted);
    ledger.record(11, 200, &Dispatch::Accepted);
    ledger.record(12, 300, &Dispatch::Accepted);
    let report = ledger.settle(1, &Confirmation::Finalized { digest: [5u8; 32] }, 1200);
    assert_eq!(
        report,
        Some(Settlement {
            block_sequence: 11,
            status: AttemptStatus::Finalized,
            latency: 1000,
            extrinsic_digest: Some([5u8; 32]),
        })
    );
    assert_eq!(ledger.get(0).unwrap().status, AttemptStatus::Pending);
    assert_eq!(ledger.get(1).unwrap().status, AttemptStatus::Finalized);
    assert_eq!(ledger.get(1).unwrap().extrinsic_digest, Some([5u8; 32]));
    assert_eq!(ledger.get(2).unwrap().status, AttemptStatus::Pending);
    assert_eq!(ledger.len(), 3);
}

#[test]
fn ledger_settles_a_record_once() {
    let mut ledger = AttemptLedger::new();
    ledger.record(10, 100, &Dispatch::Accepted);
    assert!(ledger.settle(0, &failed("nonce"), 150).is_some());
    assert_eq!(ledger.settle(0, &Confirmation::Finalized { digest: [5u8; 32] }, 160), None);
    assert_eq!(ledger.get(0).unwrap().status, AttemptStatus::Recoverable);
    assert_eq!(ledger.get(0).unwrap().extrinsic_digest, None);
}

#[test]
fn ledger_ignores_a_settlement_without_a_record() {
    let mut ledger = AttemptLedger::new();
    assert_eq!(ledger.settle(0, &failed("nonce"), 150), None);
    ledger.record(10, 100, &Dispatch::Accepted);
    assert_eq!(ledger.settle(1, &failed("nonce"), 150), None);
    assert_eq!(ledger.settle(usize::MAX, &failed("nonce"), 150), None);
    assert_eq!(ledger.len(), 1);
    assert_eq!(ledger.get(0).unwrap().status, AttemptStatus::Pending);
}

#[test]
fn ledger_counts_by_status() {
    let mut ledger = AttemptLedger::new();
    ledger.record(1, 0, &Dispatch::Accepted);
    ledger.record(2, 0, &Dispatch::Accepted);
    ledger.record(3, 0, &rejected("nonce"));
    ledger.record(4, 0, &rejected("boom"));
    ledger.record(5, 0, &Dispatch::Accepted);
    ledger.record(6, 0, &rejected("AlreadyRegistered"));
    ledger.settle(0, &Confirmation::Finalized { digest: [5u8; 32] }, 1);
    ledger.settle(1, &failed("stale"), 1);
    assert_eq!(ledger.count(AttemptStatus::Pending), 1);
    assert_eq!(ledger.count(AttemptStatus::Finalized), 1);
    assert_eq!(ledger.count(AttemptStatus::Recoverable), 2);
    assert_eq!(ledger.count(AttemptStatus::AlreadyDone), 1);
    assert_eq!(ledger.count(AttemptStatus::Fatal), 1);
}

#[test]
fn only_a_pending_record_needs_a_tracker() {
    let mut ledger = AttemptLedger::new();
    assert!(ledger.record(1, 0, &Dispatch::Accepted).unwrap().needs_tracker());
    assert!(!ledger.record(2, 0, &rejected("nonce")).unwrap().needs_tracker());
    assert!(!ledger.record(3, 0, &rejected("AlreadyRegistered")).unwrap().needs_tracker());
    assert!(!ledger.record(4, 0, &rejected("boom")).unwrap().needs_tracker());
    assert!(!Recorded { id: 0, status: AttemptStatus::Finalized }.needs_tracker());
}
