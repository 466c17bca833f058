use registrar::attempt::{Confirmation, Dispatch};
use registrar::ledger::AttemptLedger;
use registrar::scheduler::{
    AlreadyDonePolicy, DeploymentMode, Gate, RegistrationScheduler, SchedulerState,
};
use registrar::slot::SlotConfig;
use registrar::source::BlockDescriptor;

fn block(sequence_number: u64) -> BlockDescriptor {
    BlockDescriptor { sequence_number, identifier: [0u8; 32] }
}

fn scheduler(partitions: u64, index: u64) -> RegistrationScheduler {
    RegistrationScheduler::new(
        SlotConfig::new(partitions, index).unwrap(),
        DeploymentMode::Continuous,
        AlreadyDonePolicy::KeepRacing,
    )
}

fn rejected(text: &str) -> Dispatch {
    Dispatch::Rejected { raw_error: text.to_string() }
}

#[test]
fn new_scheduler_has_seen_nothing() {
    let fresh = scheduler(3, 1);
    assert_eq!(fresh.state(), SchedulerState { last_processed_sequence: 0, attempt_count: 0 });
    assert_eq!(fresh.slot(), SlotConfig::new(3, 1).unwrap());
    assert_eq!(fresh.mode(), DeploymentMode::Continuous);
    assert_eq!(fresh.on_already_done(), AlreadyDonePolicy::KeepRacing);
}

#[test]
fn feeding_50_50_51_gives_two_gating_decisions() {
    let mut subject = scheduler(1, 0);
    let gates = vec![
        subject.on_block(&block(50)),
        subject.on_block(&block(50)),
        subject.on_block(&block(51)),
    ];
    assert_eq!(
        gates,
        vec![Gate::Submit { attempt: 1 }, Gate::Discarded, Gate::Submit { attempt: 2 }]
    );
    let decided = gates.iter().filter(|gate| **gate != Gate::Discarded).count();
    assert_eq!(decided, 2);
    assert_eq!(subject.state(), SchedulerState { last_processed_sequence: 51, attempt_count: 2 });
}

#[test]
fn stale_blocks_are_dropped() {
    let mut subject = scheduler(1, 0);
    assert_eq!(subject.on_block(&block(10)), Gate::Submit { attempt: 1 });
    assert_eq!(subject.on_block(&block(9)), Gate::Discarded);
    assert_eq!(subject.on_block(&block(1)), Gate::Discarded);
    assert_eq!(subject.state(), SchedulerState { last_processed_sequence: 10, attempt_count: 1 });
    assert_eq!(subject.on_block(&block(11)), Gate::Submit { attempt: 2 });
}

#[test]
fn block_zero_is_never_gated() {
    let mut subject = scheduler(1, 0);
    assert_eq!(subject.on_block(&block(0)), Gate::Discarded);
    assert_eq!(subject.state(), SchedulerState { last_processed_sequence: 0, attempt_count: 0 });
}

#[test]
fn ineligible_blocks_advance_the_state_without_an_attempt() {
    let mut subject = scheduler(3, 1);
    assert_eq!(subject.on_block(&block(99)), Gate::Ineligible);
    assert_eq!(subject.state(), SchedulerState { last_processed_sequence: 99, attempt_count: 0 });
    assert_eq!(subject.on_block(&block(100)), Gate::Submit { attempt: 1 });
    assert_eq!(subject.state(), SchedulerState { last_processed_sequence: 100, attempt_count: 1 });
    assert_eq!(subject.on_block(&block(101)), Gate::Ineligible);
    assert_eq!(subject.on_block(&block(99)), Gate::Discarded);
    assert_eq!(subject.on_block(&block(100)), Gate::Discarded);
    assert_eq!(subject.state(), SchedulerState { last_processed_sequence: 101, attempt_count: 1 });
}

#[test]
fn last_processed_sequence_never_decreases() {
    let mut subject = scheduler(2, 0);
    let fed: Vec<u64> = vec![5, 3, 8, 8, 2, 13, 1, 21, 20, 34];
    let mut last: u64 = 0;
    for sequence in fed {
        subject.on_block(&block(sequence));
        assert!(subject.state().last_processed_sequence >= last);
        last = subject.state().last_processed_sequence;
    }
    assert_eq!(last, 34);
    assert_eq!(subject.state().attempt_count, 2);
}

#[test]
fn the_highest_block_is_gated() {
    let mut subject = scheduler(1, 0);
    assert_eq!(subject.on_block(&block(u64::MAX)), Gate::Submit { attempt: 1 });
    assert_eq!(subject.on_block(&block(u64::MAX)), Gate::Discarded);
    assert_eq!(
        subject.state(),
        SchedulerState { last_processed_sequence: u64::MAX, attempt_count: 1 }
    );
}

#[test]
fn instances_split_the_blocks_between_them() {
    let mut instances =
        vec![scheduler(3, 0), scheduler(3, 1), scheduler(3, 2)];
    let mut sequence: u64 = 1;
    while sequence <= 60 {
        let mut submitting: u64 = 0;
        for instance in instances.iter_mut() {
            if let Gate::Submit { .. } = instance.on_block(&block(sequence)) {
                submitting += 1;
            }
        }
        assert_eq!(submitting, 1);
        sequence += 1;
    }
    for instance in instances.iter() {
        assert_eq!(instance.state().attempt_count, 20);
    }
}

#[test]
fn continuous_engine_never_exits() {
    let subject = RegistrationScheduler::new(
        SlotConfig::single(),
        DeploymentMode::Continuous,
        AlreadyDonePolicy::Stop,
    );
    let mut ledger = AttemptLedger::new();
    assert!(!subject.should_exit(&ledger));
    let id = ledger.record(1, 0, &Dispatch::Accepted).unwrap().id;
    ledger.settle(id, &Confirmation::Finalized { digest: [1u8; 32] }, 5);
    ledger.record(2, 0, &rejected("AlreadyRegistered"));
    assert!(!subject.should_exit(&ledger));
}

#[test]
fn single_shot_exits_on_the_first_finalization() {
    let subject = RegistrationScheduler::new(
        SlotConfig::single(),
        DeploymentMode::SingleShot,
        AlreadyDonePolicy::KeepRacing,
    );
    let mut ledger = AttemptLedger::new();
    assert!(!subject.should_exit(&ledger));
    let id = ledger.record(1, 0, &Dispatch::Accepted).unwrap().id;
    assert!(!subject.should_exit(&ledger));
    ledger.settle(id, &Confirmation::Finalized { digest: [1u8; 32] }, 5);
    assert!(subject.should_exit(&ledger));
}

#[test]
fn recoverable_and_fatal_failures_do_not_end_the_loop() {
    let subject = RegistrationScheduler::new(
        SlotConfig::single(),
        DeploymentMode::SingleShot,
        AlreadyDonePolicy::Stop,
    );
    let mut ledger = AttemptLedger::new();
    ledger.record(1, 0, &rejected("bad nonce"));
    assert!(!subject.should_exit(&ledger));
    ledger.record(2, 0, &rejected("bad signature"));
    assert!(!subject.should_exit(&ledger));
    let id = ledger.record(3, 0, &Dispatch::Accepted).unwrap().id;
    ledger.settle(id, &Confirmation::Failed { raw_error: "Transaction is outdated".to_string() }, 9);
    assert!(!subject.should_exit(&ledger));
}

#[test]
fn already_done_ends_a_single_shot_engine_only_under_the_stop_policy() {
    let stopping = RegistrationScheduler::new(
        SlotConfig::single(),
        DeploymentMode::SingleShot,
        AlreadyDonePolicy::Stop,
    );
    let racing = RegistrationScheduler::new(
        SlotConfig::single(),
        DeploymentMode::SingleShot,
        AlreadyDonePolicy::KeepRacing,
    );
    let mut ledger = AttemptLedger::new();
    ledger.record(1, 0, &rejected("HotKeyAlreadyRegisteredInSubNet"));
    assert!(stopping.should_exit(&ledger));
    assert!(!racing.should_exit(&ledger));
}
