//! The registration scheduler: the control loop's decisions.
//!
//! For each block the scheduler decides, from its own state and the slot
//! configuration alone, whether the block is dropped as a duplicate or a
//! straggler, passed over as another instance's, or submitted on. It never
//! waits for a confirmation: what the trackers learn reaches only the
//! ledger, which the driver loop consults to decide whether to go on.

use vstd::prelude::*;
use crate::attempt::{AttemptStatus, RegistrationAttempt};
use crate::ledger::{lemma_tally_positive, AttemptLedger};
use crate::slot::{eligible, SlotConfig};
use crate::source::BlockDescriptor;

verus! {

/// How long the engine runs.
#[derive(Clone, Copy, Debug, PartialEq, Eq, Structural)]
pub enum DeploymentMode {
    /// Race every eligible block, indefinitely.
    Continuous,
    /// Leave the loop on the first confirmed finalization.
    SingleShot,
}

/// What a single-shot engine does once it learns that the identity is
/// registered already.
#[derive(Clone, Copy, Debug, PartialEq, Eq, Structural)]
pub enum AlreadyDonePolicy {
    /// Go on as after any other failure.
    KeepRacing,
    /// Leave the loop, as after a finalization.
    Stop,
}

/// The scheduler's memory of the blocks it has seen.
#[derive(Clone, Copy, Debug, PartialEq, Eq, Structural)]
pub struct SchedulerState {
    /// The highest sequence number gated so far; zero before the first.
    pub last_processed_sequence: u64,
    /// The number of submissions decided on so far.
    pub attempt_count: u64,
}

/// What the scheduler decides on a block.
#[derive(Clone, Copy, Debug, PartialEq, Eq, Structural)]
pub enum Gate {
    /// The block is not above the last one gated: dropped, state unchanged.
    Discarded,
    /// The block is another partition's: noted, nothing submitted.
    Ineligible,
    /// The block is this instance's: submit, as the attempt with this number.
    Submit { attempt: u64 },
}

impl SchedulerState {
    /// Whether the state can have arisen from gating blocks: every
    /// submission was decided on a block of its own.
    pub open spec fn consistent(self) -> bool {
        self.attempt_count <= self.last_processed_sequence
    }

    /// The decision on a block with the given sequence number.
    pub open spec fn gate(self, slot: SlotConfig, sequence: u64) -> Gate {
        if sequence <= self.last_processed_sequence {
            Gate::Discarded
        } else if slot.admits(sequence) {
            Gate::Submit { attempt: (self.attempt_count + 1) as u64 }
        } else {
            Gate::Ineligible
        }
    }

    /// The state after the decision on a block with the given sequence
    /// number.
    pub open spec fn after(self, slot: SlotConfig, sequence: u64) -> SchedulerState {
        if sequence <= self.last_processed_sequence {
            self
        } else if slot.admits(sequence) {
            SchedulerState {
                last_processed_sequence: sequence,
                attempt_count: (self.attempt_count + 1) as u64,
            }
        } else {
            SchedulerState { last_processed_sequence: sequence, attempt_count: self.attempt_count }
        }
    }

    /// The state after blocks with the given sequence numbers were gated,
    /// one after the other.
    pub open spec fn after_all(self, slot: SlotConfig, sequences: Seq<u64>) -> SchedulerState
        decreases sequences.len(),
    {
        if sequences.len() == 0 {
            self
        } else {
            self.after(slot, sequences[0]).after_all(slot, sequences.drop_first())
        }
    }

    /// The decisions on blocks with the given sequence numbers, gated one
    /// after the other.
    pub open spec fn gates(self, slot: SlotConfig, sequences: Seq<u64>) -> Seq<Gate>
        decreases sequences.len(),
    {
        if sequences.len() == 0 {
            Seq::empty()
        } else {
            seq![self.gate(slot, sequences[0])] + self.after(slot, sequences[0]).gates(
                slot,
                sequences.drop_first(),
            )
        }
    }
}

/// Whether the driver loop ends, given the records so far: a single-shot
/// engine ends once an attempt is finalized, or, where the policy says so,
/// once an attempt found the identity registered already. A continuous
/// engine never ends.
pub open spec fn loop_ends(
    mode: DeploymentMode,
    on_already_done: AlreadyDonePolicy,
    records: Seq<RegistrationAttempt>,
) -> bool {
    mode == DeploymentMode::SingleShot && exists|i: int|
        0 <= i < records.len() && ends_single_shot(on_already_done, (#[trigger] records[i]).status)
}

/// Whether an attempt with the given status ends a single-shot engine.
pub open spec fn ends_single_shot(on_already_done: AlreadyDonePolicy, status: AttemptStatus) -> bool {
    status == AttemptStatus::Finalized || (status == AttemptStatus::AlreadyDone && on_already_done
        == AlreadyDonePolicy::Stop)
}

/// The control loop's decisions and the state they rest on.
#[derive(Clone, Copy, Debug, PartialEq, Eq)]
pub struct RegistrationScheduler {
    slot: SlotConfig,
    mode: DeploymentMode,
    on_already_done: AlreadyDonePolicy,
    state: SchedulerState,
}

impl RegistrationScheduler {
    #[verifier::type_invariant]
    spec fn valid(self) -> bool {
        self.state.consistent()
    }

    /// The slot configuration.
    pub closed spec fn spec_slot(&self) -> SlotConfig {
        self.slot
    }

    /// The deployment mode.
    pub closed spec fn spec_mode(&self) -> DeploymentMode {
        self.mode
    }

    /// The policy on an identity that is registered already.
    pub closed spec fn spec_on_already_done(&self) -> AlreadyDonePolicy {
        self.on_already_done
    }

    /// The scheduler's state.
    pub closed spec fn spec_state(&self) -> SchedulerState {
        self.state
    }

    /// A scheduler that has seen no block.
    pub fn new(slot: SlotConfig, mode: DeploymentMode, on_already_done: AlreadyDonePolicy) -> (r:
        RegistrationScheduler)
        ensures
            r.slot() == slot,
            r.mode() == mode,
            r.on_already_done() == on_already_done,
            r.state().last_processed_sequence == 0,
            r.state().attempt_count == 0,
    {
        RegistrationScheduler {
            slot,
            mode,
            on_already_done,
            state: SchedulerState { last_processed_sequence: 0, attempt_count: 0 },
        }
    }

    /// The slot configuration, fixed at startup.
    #[verifier::when_used_as_spec(spec_slot)]
    pub fn slot(&self) -> (r: SlotConfig)
        ensures
            r == self.slot(),
    {
        self.slot
    }

    /// The deployment mode, fixed at startup.
    #[verifier::when_used_as_spec(spec_mode)]
    pub fn mode(&self) -> (r: DeploymentMode)
        ensures
            r == self.mode(),
    {
        self.mode
    }

    /// The policy on an identity that is registered already, fixed at
    /// startup.
    #[verifier::when_used_as_spec(spec_on_already_done)]
    pub fn on_already_done(&self) -> (r: AlreadyDonePolicy)
        ensures
            r == self.on_already_done(),
    {
        self.on_already_done
    }

    /// The scheduler's state.
    #[verifier::when_used_as_spec(spec_state)]
    pub fn state(&self) -> (r: SchedulerState)
        ensures
            r == self.state(),
            r.consistent(),
    {
        proof {
            use_type_invariant(self);
        }
        self.state
    }

    /// Gates one block. A block whose sequence number is not above the last
    /// one gated is dropped and changes nothing. Any other block becomes the
    /// last one gated; if the slot configuration admits it, the attempt
    /// count goes up by one and the decision is to submit.
    pub fn on_block(&mut self, block: &BlockDescriptor) -> (r: Gate)
        ensures
            r == old(self).state().gate(old(self).slot(), block.sequence_number),
            final(self).state() == old(self).state().after(
                old(self).slot(),
                block.sequence_number,
            ),
            final(self).slot() == old(self).slot(),
            final(self).mode() == old(self).mode(),
            final(self).on_already_done() == old(self).on_already_done(),
            final(self).state().last_processed_sequence >= old(
                self,
            ).state().last_processed_sequence,
            r is Submit ==> r->attempt == old(self).state().attempt_count + 1,
    {
        proof {
            use_type_invariant(&*self);
        }
        let sequence: u64 = block.sequence_number;
        if sequence <= self.state.last_processed_sequence {
            return Gate::Discarded;
        }
        if eligible(sequence, &self.slot) {
            let attempt: u64 = self.state.attempt_count + 1;
            self.state = SchedulerState { last_processed_sequence: sequence, attempt_count: attempt };
            Gate::Submit { attempt }
        } else {
            self.state = SchedulerState {
                last_processed_sequence: sequence,
                attempt_count: self.state.attempt_count,
            };
            Gate::Ineligible
        }
    }

    /// Whether the driver loop ends, given the records so far.
    pub fn should_exit(&self, ledger: &AttemptLedger) -> (r: bool)
        ensures
            r == loop_ends(self.mode(), self.on_already_done(), ledger@),
    {
        proof {
            lemma_tally_positive(ledger@, AttemptStatus::Finalized);
            lemma_tally_positive(ledger@, AttemptStatus::AlreadyDone);
        }
        match self.mode {
            DeploymentMode::Continuous => false,
            DeploymentMode::SingleShot => {
                if ledger.count(AttemptStatus::Finalized) > 0 {
                    true
                } else {
                    match self.on_already_done {
                        AlreadyDonePolicy::KeepRacing => false,
                        AlreadyDonePolicy::Stop => ledger.count(AttemptStatus::AlreadyDone) > 0,
                    }
                }
            },
        }
    }
}

/// Gating a block never takes the scheduler back: the last sequence number
/// gated does not decrease, and a consistent state stays consistent.
pub proof fn lemma_state_never_goes_back(state: SchedulerState, slot: SlotConfig, sequence: u64)
    requires
        state.consistent(),
    ensures
        state.after(slot, sequence).last_processed_sequence >= state.last_processed_sequence,
        state.after(slot, sequence).attempt_count >= state.attempt_count,
        state.after(slot, sequence).consistent(),
{
}

/// Over any series of blocks the last sequence number gated does not
/// decrease, and a consistent state stays consistent.
pub proof fn lemma_run_never_goes_back(state: SchedulerState, slot: SlotConfig, sequences: Seq<u64>)
    requires
        state.consistent(),
    ensures
        state.after_all(slot, sequences).last_processed_sequence >= state.last_processed_sequence,
        state.after_all(slot, sequences).attempt_count >= state.attempt_count,
        state.after_all(slot, sequences).consistent(),
    decreases sequences.len(),
{
    if sequences.len() > 0 {
        lemma_run_never_goes_back(state.after(slot, sequences[0]), slot, sequences.drop_first());
    }
}

/// Every block handed to the scheduler gets one decision.
pub proof fn lemma_one_gate_per_block(state: SchedulerState, slot: SlotConfig, sequences: Seq<u64>)
    ensures
        state.gates(slot, sequences).len() == sequences.len(),
    decreases sequences.len(),
{
    if sequences.len() > 0 {
        lemma_one_gate_per_block(state.after(slot, sequences[0]), slot, sequences.drop_first());
    }
}

/// A block that is not dropped lies above the last one gated before the
/// series began.
pub proof fn lemma_gated_blocks_are_new(
    state: SchedulerState,
    slot: SlotConfig,
    sequences: Seq<u64>,
    i: int,
)
    requires
        0 <= i < sequences.len(),
        state.gates(slot, sequences)[i] != Gate::Discarded,
    ensures
        sequences[i] > state.last_processed_sequence,
    decreases sequences.len(),
{
    let next = state.after(slot, sequences[0]);
    let rest = sequences.drop_first();
    lemma_one_gate_per_block(next, slot, rest);
    if i > 0 {
        assert(state.gates(slot, sequences)[i] == next.gates(slot, rest)[i - 1]);
        lemma_gated_blocks_are_new(next, slot, rest, i - 1);
    }
}

/// Duplicates and stragglers are dropped, never gated again: of two blocks
/// in a series that both get past the duplicate check, the later one has
/// the higher sequence number. So no sequence number is gated twice, and at
/// most one submission is decided on it.
pub proof fn lemma_no_block_gated_twice(
    state: SchedulerState,
    slot: SlotConfig,
    sequences: Seq<u64>,
    i: int,
    j: int,
)
    requires
        0 <= i < j < sequences.len(),
        state.gates(slot, sequences)[i] != Gate::Discarded,
        state.gates(slot, sequences)[j] != Gate::Discarded,
    ensures
        sequences[i] < sequences[j],
    decreases sequences.len(),
{
    let next = state.after(slot, sequences[0]);
    let rest = sequences.drop_first();
    lemma_one_gate_per_block(next, slot, rest);
    assert(state.gates(slot, sequences)[j] == next.gates(slot, rest)[j - 1]);
    if i == 0 {
        lemma_gated_blocks_are_new(next, slot, rest, j - 1);
    } else {
        assert(state.gates(slot, sequences)[i] == next.gates(slot, rest)[i - 1]);
        lemma_no_block_gated_twice(next, slot, rest, i - 1, j - 1);
    }
}

/// Instances that share the number of partitions and cover different
/// partitions never both submit on the same block, whatever each has seen
/// before.
pub proof fn lemma_instances_never_collide(
    first: SchedulerState,
    first_slot: SlotConfig,
    second: SchedulerState,
    second_slot: SlotConfig,
    sequence: u64,
)
    requires
        first_slot.partition_count() == second_slot.partition_count(),
        first_slot.partition_index() != second_slot.partition_index(),
    ensures
        !(first.gate(first_slot, sequence) is Submit && second.gate(second_slot, sequence)
            is Submit),
{
}

/// A continuous engine never leaves the loop, whatever the records hold.
pub proof fn lemma_continuous_never_ends(
    on_already_done: AlreadyDonePolicy,
    records: Seq<RegistrationAttempt>,
)
    ensures
        !loop_ends(DeploymentMode::Continuous, on_already_done, records),
{
}

/// A failure never ends the loop by itself: a new record that is pending,
/// recoverable or fatal leaves the loop running if it was running, in every
/// mode and under every policy; so does a record of an identity registered
/// already, unless the policy is to stop on it.
pub proof fn lemma_failures_keep_the_loop(
    mode: DeploymentMode,
    on_already_done: AlreadyDonePolicy,
    records: Seq<RegistrationAttempt>,
    attempt: RegistrationAttempt,
)
    requires
        !loop_ends(mode, on_already_done, records),
        attempt.status != AttemptStatus::Finalized,
        attempt.status == AttemptStatus::AlreadyDone ==> on_already_done
            == AlreadyDonePolicy::KeepRacing,
    ensures
        !loop_ends(mode, on_already_done, records.push(attempt)),
{
    let extended = records.push(attempt);
    if loop_ends(mode, on_already_done, extended) {
        let i = choose|i: int|
            0 <= i < extended.len() && ends_single_shot(
                on_already_done,
                (#[trigger] extended[i]).status,
            );
        if i < records.len() {
            assert(extended[i] == records[i]);
        }
    }
}

/// A single-shot engine leaves the loop as soon as the records hold a
/// finalized attempt.
pub proof fn lemma_single_shot_ends_on_success(
    on_already_done: AlreadyDonePolicy,
    records: Seq<RegistrationAttempt>,
    i: int,
)
    requires
        0 <= i < records.len(),
        records[i].status == AttemptStatus::Finalized,
    ensures
        loop_ends(DeploymentMode::SingleShot, on_already_done, records),
{
}

} // verus!
