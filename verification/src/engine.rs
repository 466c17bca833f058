//! The engine: startup, and the decision of one turn of the driver loop.
//!
//! The caller connects to the network, starts the engine with the outcome,
//! and then runs the loop: fetch, hand the result to `on_fetch`, do what the
//! step says, record what became of a submission in the ledger, start a
//! tracker for a record that is pending, and ask `should_exit`. Only a
//! failure at startup ends the engine with an error; failures of single
//! attempts are recorded and the loop goes on.

use vstd::prelude::*;
use crate::config::RegistrationParams;
use crate::identity::{
    identity_error,
    load_identity,
    sr25519_public_key,
    KeyParseError,
    SignedIdentity,
};
use crate::ledger::AttemptLedger;
use crate::scheduler::{loop_ends, Gate, RegistrationScheduler, SchedulerState};
use crate::slot::SlotConfig;
use crate::source::{last_after, passes, BlockDescriptor, BlockSource, Fetch, SourceStrategy};
use crate::submitter::{RegistrationCall, ValidityWindow, MORTALITY_MARGIN};

verus! {

/// Attempts are announced in the log one in this many, the first included.
pub const ANNOUNCE_EVERY: u64 = 10;

/// A dispatch that took longer than this many milliseconds is worth a line
/// in the log.
pub const SLOW_DISPATCH_MS: u64 = 200;

/// Why the engine did not start.
#[derive(Clone, Copy, Debug, PartialEq, Eq, Structural)]
pub enum StartupError {
    /// The network could not be reached.
    Connection,
    /// A key could not be read.
    KeyParse(KeyParseError),
}

/// The submission that a step asks for.
#[derive(Clone, Copy, Debug, PartialEq, Eq)]
pub struct Submission {
    /// The number of this attempt, counted from one.
    pub attempt: u64,
    /// The block that triggered it.
    pub block: BlockDescriptor,
    /// The validity window to sign the transaction with.
    pub window: ValidityWindow,
}

/// What the driver loop does next.
#[derive(Clone, Copy, Debug, PartialEq, Eq)]
pub enum Step {
    /// The fetch brought nothing new: fetch again.
    Wait,
    /// The block was seen before, or is older than one seen before: dropped.
    Discarded(BlockDescriptor),
    /// The block is another instance's: nothing is submitted.
    Ineligible(BlockDescriptor),
    /// The block is this instance's: sign the registration call and hand it
    /// to the network, without waiting for its confirmation.
    Submit(Submission),
}

/// The step on a block that the source passed on, given the scheduler's
/// decision on it.
pub open spec fn step_on(block: BlockDescriptor, gate: Gate) -> Step {
    match gate {
        Gate::Discarded => Step::Discarded(block),
        Gate::Ineligible => Step::Ineligible(block),
        Gate::Submit { attempt } => Step::Submit(
            Submission {
                attempt,
                block,
                window: ValidityWindow { anchor: block, period: MORTALITY_MARGIN },
            },
        ),
    }
}

/// The error that ends a startup, the connection's before a key's; `None`
/// where the engine starts.
pub open spec fn startup_error(
    connected: bool,
    coldkey_public: Option<Seq<u8>>,
    hotkey_public: Option<Seq<u8>>,
) -> Option<StartupError> {
    if !connected {
        Some(StartupError::Connection)
    } else {
        match identity_error(coldkey_public, hotkey_public) {
            Some(error) => Some(StartupError::KeyParse(error)),
            None => None,
        }
    }
}

/// Whether the attempt with the given number is announced in the log.
pub fn announces(attempt: u64) -> (r: bool)
    ensures
        r == (attempt % ANNOUNCE_EVERY == 1),
{
    attempt % ANNOUNCE_EVERY == 1
}

/// Whether a dispatch that took `elapsed_ms` milliseconds is reported as
/// slow.
pub fn is_slow_dispatch(elapsed_ms: u64) -> (r: bool)
    ensures
        r == (elapsed_ms > SLOW_DISPATCH_MS),
{
    elapsed_ms > SLOW_DISPATCH_MS
}

/// A started engine: the keys, the call prepared once for all attempts, the
/// block source and the scheduler.
pub struct Engine {
    /// The two keys of the registration.
    pub identity: SignedIdentity,
    /// The call that every attempt submits.
    pub call: RegistrationCall,
    /// Decides which fetched blocks are passed on.
    pub source: BlockSource,
    /// Decides what is done with a block that was passed on.
    pub scheduler: RegistrationScheduler,
}

impl Engine {
    /// Whether the engine is set up as `params` ask, to register its
    /// identity's hotkey, and has seen no block.
    pub open spec fn fresh_for(self, params: RegistrationParams) -> bool {
        &&& self.call.netuid == params.netuid
        &&& self.call.hotkey@ == self.identity.hotkey.public_key()@
        &&& self.source.strategy() == params.strategy
        &&& self.source.last_yielded() is None
        &&& self.scheduler.slot() == params.slot
        &&& self.scheduler.mode() == params.mode
        &&& self.scheduler.on_already_done() == params.on_already_done
        &&& self.scheduler.state() == SchedulerState {
            last_processed_sequence: 0,
            attempt_count: 0,
        }
    }

    /// Starts the engine from the outcome of connecting and of reading the
    /// keys. A failed connection is an error; after that, a key that could
    /// not be read. No block is looked at before the engine has started.
    pub fn start_with(
        params: &RegistrationParams,
        connected: bool,
        identity: Result<SignedIdentity, KeyParseError>,
    ) -> (r: Result<Engine, StartupError>)
        ensures
            match r {
                Ok(engine) => connected && identity == Ok::<SignedIdentity, KeyParseError>(
                    engine.identity,
                ) && engine.fresh_for(*params),
                Err(error) => if connected {
                    identity == Err::<SignedIdentity, KeyParseError>(error->KeyParse_0)
                        && error is KeyParse
                } else {
                    error == StartupError::Connection
                },
            },
    {
        if !connected {
            return Err(StartupError::Connection);
        }
        let identity = match identity {
            Ok(identity) => identity,
            Err(error) => {
                return Err(StartupError::KeyParse(error));
            },
        };
        let call = RegistrationCall::burned_register(params.netuid, &identity);
        Ok(
            Engine {
                identity,
                call,
                source: BlockSource::new(params.strategy),
                scheduler: RegistrationScheduler::new(
                    params.slot,
                    params.mode,
                    params.on_already_done,
                ),
            },
        )
    }

    /// Starts the engine, given whether the network was reached. A failed
    /// connection is an error; after that, a key that `sp_core` refuses,
    /// the coldkey before the hotkey.
    pub fn start(params: &RegistrationParams, connected: bool) -> (r: Result<Engine, StartupError>)
        ensures
            match r {
                Ok(engine) => {
                    &&& engine.fresh_for(*params)
                    &&& Some(engine.identity.coldkey.public_key()@) == sr25519_public_key(
                        params.coldkey@,
                    )
                    &&& Some(engine.identity.hotkey.public_key()@) == sr25519_public_key(
                        params.hotkey@,
                    )
                },
                Err(error) => Some(error) == startup_error(
                    connected,
                    sr25519_public_key(params.coldkey@),
                    sr25519_public_key(params.hotkey@),
                ),
            },
            r is Ok <==> startup_error(
                connected,
                sr25519_public_key(params.coldkey@),
                sr25519_public_key(params.hotkey@),
            ) is None,
    {
        if !connected {
            return Err(StartupError::Connection);
        }
        let identity = load_identity(params.coldkey.as_str(), params.hotkey.as_str());
        Engine::start_with(params, connected, identity)
    }

    /// Decides one turn of the driver loop from what the fetch brought. The
    /// block source decides whether a block is passed on; the scheduler
    /// gates a block that is; a submission is planned with a validity window
    /// anchored at the block. Nothing here depends on the outcome of an
    /// earlier submission.
    pub fn on_fetch(&mut self, fetched: Fetch) -> (r: Step)
        ensures
            final(self).identity == old(self).identity,
            final(self).call == old(self).call,
            final(self).source.strategy() == old(self).source.strategy(),
            final(self).source.last_yielded() == last_after(
                old(self).source.strategy(),
                old(self).source.last_yielded(),
                fetched,
            ),
            final(self).scheduler.slot() == old(self).scheduler.slot(),
            final(self).scheduler.mode() == old(self).scheduler.mode(),
            final(self).scheduler.on_already_done() == old(self).scheduler.on_already_done(),
            !passes(old(self).source.strategy(), old(self).source.last_yielded(), fetched) ==> r
                == Step::Wait && final(self).scheduler.state() == old(self).scheduler.state(),
            passes(old(self).source.strategy(), old(self).source.last_yielded(), fetched) ==> r
                == step_on(
                fetched->Block_0,
                old(self).scheduler.state().gate(
                    old(self).scheduler.slot(),
                    fetched->Block_0.sequence_number,
                ),
            ) && final(self).scheduler.state() == old(self).scheduler.state().after(
                old(self).scheduler.slot(),
                fetched->Block_0.sequence_number,
            ),
    {
        let block = match self.source.accept(fetched) {
            Some(block) => block,
            None => {
                return Step::Wait;
            },
        };
        match self.scheduler.on_block(&block) {
            Gate::Discarded => Step::Discarded(block),
            Gate::Ineligible => Step::Ineligible(block),
            Gate::Submit { attempt } => Step::Submit(
                Submission { attempt, block, window: ValidityWindow::anchored_at(&block) },
            ),
        }
    }

    /// Whether the driver loop ends, given the records so far.
    pub fn should_exit(&self, ledger: &AttemptLedger) -> (r: bool)
        ensures
            r == loop_ends(self.scheduler.mode(), self.scheduler.on_already_done(), ledger@),
    {
        self.scheduler.should_exit(ledger)
    }
}

/// The steps that an engine takes, in order, when it is handed the given
/// fetches one after the other: `strategy` and `last_yielded` are its block
/// source's, `state` and `slot` its scheduler's.
pub open spec fn steps(
    strategy: SourceStrategy,
    last_yielded: Option<u64>,
    state: SchedulerState,
    slot: SlotConfig,
    fetches: Seq<Fetch>,
) -> Seq<Step>
    decreases fetches.len(),
{
    if fetches.len() == 0 {
        Seq::empty()
    } else if passes(strategy, last_yielded, fetches[0]) {
        let block = fetches[0]->Block_0;
        seq![step_on(block, state.gate(slot, block.sequence_number))] + steps(
            strategy,
            last_after(strategy, last_yielded, fetches[0]),
            state.after(slot, block.sequence_number),
            slot,
            fetches.drop_first(),
        )
    } else {
        seq![Step::Wait] + steps(strategy, last_yielded, state, slot, fetches.drop_first())
    }
}

/// Every fetch gets one step.
pub proof fn lemma_one_step_per_fetch(
    strategy: SourceStrategy,
    last_yielded: Option<u64>,
    state: SchedulerState,
    slot: SlotConfig,
    fetches: Seq<Fetch>,
)
    ensures
        steps(strategy, last_yielded, state, slot, fetches).len() == fetches.len(),
    decreases fetches.len(),
{
    if fetches.len() > 0 {
        if passes(strategy, last_yielded, fetches[0]) {
            lemma_one_step_per_fetch(
                strategy,
                last_after(strategy, last_yielded, fetches[0]),
                state.after(slot, fetches[0]->Block_0.sequence_number),
                slot,
                fetches.drop_first(),
            );
        } else {
            lemma_one_step_per_fetch(strategy, last_yielded, state, slot, fetches.drop_first());
        }
    }
}

/// A submission is planned only on a block above the last one that the
/// scheduler had gated before the series began, and on the block that the
/// fetch brought.
pub proof fn lemma_submissions_are_on_new_blocks(
    strategy: SourceStrategy,
    last_yielded: Option<u64>,
    state: SchedulerState,
    slot: SlotConfig,
    fetches: Seq<Fetch>,
    i: int,
)
    requires
        0 <= i < fetches.len(),
        steps(strategy, last_yielded, state, slot, fetches)[i] is Submit,
    ensures
        fetches[i] == Fetch::Block(steps(strategy, last_yielded, state, slot, fetches)[i]->Submit_0.block),
        steps(strategy, last_yielded, state, slot, fetches)[i]->Submit_0.block.sequence_number
            > state.last_processed_sequence,
        slot.admits(
            steps(strategy, last_yielded, state, slot, fetches)[i]->Submit_0.block.sequence_number,
        ),
    decreases fetches.len(),
{
    let rest = fetches.drop_first();
    let all = steps(strategy, last_yielded, state, slot, fetches);
    if passes(strategy, last_yielded, fetches[0]) {
        let sequence = fetches[0]->Block_0.sequence_number;
        let next_last = last_after(strategy, last_yielded, fetches[0]);
        let next = state.after(slot, sequence);
        lemma_one_step_per_fetch(strategy, next_last, next, slot, rest);
        if i > 0 {
            assert(all[i] == steps(strategy, next_last, next, slot, rest)[i - 1]);
            lemma_submissions_are_on_new_blocks(strategy, next_last, next, slot, rest, i - 1);
        }
    } else {
        lemma_one_step_per_fetch(strategy, last_yielded, state, slot, rest);
        assert(i > 0);
        assert(all[i] == steps(strategy, last_yielded, state, slot, rest)[i - 1]);
        lemma_submissions_are_on_new_blocks(strategy, last_yielded, state, slot, rest, i - 1);
    }
}

/// At most one submission is planned on a block: of two submissions in a
/// series, the later one is on a block with a higher sequence number,
/// whatever the fetches brought and in whatever order.
pub proof fn lemma_one_submission_per_block(
    strategy: SourceStrategy,
    last_yielded: Option<u64>,
    state: SchedulerState,
    slot: SlotConfig,
    fetches: Seq<Fetch>,
    i: int,
    j: int,
)
    requires
        0 <= i < j < fetches.len(),
        steps(strategy, last_yielded, state, slot, fetches)[i] is Submit,
        steps(strategy, last_yielded, state, slot, fetches)[j] is Submit,
    ensures
        steps(strategy, last_yielded, state, slot, fetches)[i]->Submit_0.block.sequence_number
            < steps(
            strategy,
            last_yielded,
            state,
            slot,
            fetches,
        )[j]->Submit_0.block.sequence_number,
    decreases fetches.len(),
{
    let rest = fetches.drop_first();
    let all = steps(strategy, last_yielded, state, slot, fetches);
    if passes(strategy, last_yielded, fetches[0]) {
        let sequence = fetches[0]->Block_0.sequence_number;
        let next_last = last_after(strategy, last_yielded, fetches[0]);
        let next = state.after(slot, sequence);
        lemma_one_step_per_fetch(strategy, next_last, next, slot, rest);
        assert(all[j] == steps(strategy, next_last, next, slot, rest)[j - 1]);
        if i == 0 {
            lemma_submissions_are_on_new_blocks(strategy, next_last, next, slot, rest, j - 1);
        } else {
            assert(all[i] == steps(strategy, next_last, next, slot, rest)[i - 1]);
            lemma_one_submission_per_block(strategy, next_last, next, slot, rest, i - 1, j - 1);
        }
    } else {
        lemma_one_step_per_fetch(strategy, last_yielded, state, slot, rest);
        assert(all[j] == steps(strategy, last_yielded, state, slot, rest)[j - 1]);
        assert(all[i] == steps(strategy, last_yielded, state, slot, rest)[i - 1]);
        lemma_one_submission_per_block(strategy, last_yielded, state, slot, rest, i - 1, j - 1);
    }
}

} // verus!
