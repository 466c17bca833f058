//! The block source: decides which of the blocks that the network hands over
//! are passed on to the scheduler.
//!
//! The caller fetches (by polling the chain head, or from a subscription to
//! newly finalized blocks) and hands each result to the source. A polling
//! source passes a block on only when its sequence number is above that of
//! the block it passed on last; a subscription passes every block on as the
//! feed delivers it. A fetch that failed is swallowed: nothing is passed on
//! and the source is unchanged, ready for the next cycle.

use vstd::prelude::*;

verus! {

/// The time between two polls of the chain head, in milliseconds.
pub const POLL_INTERVAL_MS: u64 = 500;

/// A block as the engine sees it: where it stands in the chain and its hash.
#[derive(Clone, Copy, Debug, PartialEq, Eq)]
pub struct BlockDescriptor {
    /// The block's number in the chain.
    pub sequence_number: u64,
    /// The block's hash.
    pub identifier: [u8; 32],
}

/// How blocks are obtained.
#[derive(Clone, Copy, Debug, PartialEq, Eq, Structural)]
pub enum SourceStrategy {
    /// The latest block is fetched on a fixed cadence.
    Polling,
    /// Newly finalized blocks are pushed by the network.
    PushSubscription,
}

/// What one fetch brought.
#[derive(Clone, Copy, Debug, PartialEq, Eq)]
pub enum Fetch {
    /// A block.
    Block(BlockDescriptor),
    /// A transient fetch or connection error.
    TransientError,
}

/// Whether a source with the given strategy, which last passed on the block
/// numbered `last_yielded`, passes `fetched` on.
pub open spec fn passes(
    strategy: SourceStrategy,
    last_yielded: Option<u64>,
    fetched: Fetch,
) -> bool {
    match fetched {
        Fetch::TransientError => false,
        Fetch::Block(block) => match strategy {
            SourceStrategy::PushSubscription => true,
            SourceStrategy::Polling => match last_yielded {
                None => true,
                Some(last) => block.sequence_number > last,
            },
        },
    }
}

/// The sequence number of the block last passed on, after `fetched` was
/// handed to the source.
pub open spec fn last_after(
    strategy: SourceStrategy,
    last_yielded: Option<u64>,
    fetched: Fetch,
) -> Option<u64> {
    if passes(strategy, last_yielded, fetched) {
        Some(fetched->Block_0.sequence_number)
    } else {
        last_yielded
    }
}

/// The blocks that a source passes on, in order, when it is handed the
/// given fetches one after the other.
pub open spec fn yielded(
    strategy: SourceStrategy,
    last_yielded: Option<u64>,
    fetches: Seq<Fetch>,
) -> Seq<BlockDescriptor>
    decreases fetches.len(),
{
    if fetches.len() == 0 {
        Seq::empty()
    } else {
        let rest = yielded(
            strategy,
            last_after(strategy, last_yielded, fetches[0]),
            fetches.drop_first(),
        );
        if passes(strategy, last_yielded, fetches[0]) {
            seq![fetches[0]->Block_0] + rest
        } else {
            rest
        }
    }
}

/// A source of blocks for the scheduler.
#[derive(Clone, Copy, Debug, PartialEq, Eq)]
pub struct BlockSource {
    strategy: SourceStrategy,
    last_yielded: Option<u64>,
}

impl BlockSource {
    /// How this source obtains blocks.
    pub closed spec fn spec_strategy(&self) -> SourceStrategy {
        self.strategy
    }

    /// The sequence number of the block passed on last, if any was.
    pub closed spec fn spec_last_yielded(&self) -> Option<u64> {
        self.last_yielded
    }

    /// A source that has passed on nothing yet.
    pub fn new(strategy: SourceStrategy) -> (r: BlockSource)
        ensures
            r.strategy() == strategy,
            r.last_yielded() is None,
    {
        BlockSource { strategy, last_yielded: None }
    }

    /// How this source obtains blocks.
    #[verifier::when_used_as_spec(spec_strategy)]
    pub fn strategy(&self) -> (r: SourceStrategy)
        ensures
            r == self.strategy(),
    {
        self.strategy
    }

    /// The sequence number of the block passed on last, if any was.
    #[verifier::when_used_as_spec(spec_last_yielded)]
    pub fn last_yielded(&self) -> (r: Option<u64>)
        ensures
            r == self.last_yielded(),
    {
        self.last_yielded
    }

    /// The time to let pass between two fetches, in milliseconds: the
    /// polling cadence for a polling source, nothing for a subscription,
    /// which waits on the feed itself.
    pub fn pause_ms(&self) -> (r: u64)
        ensures
            r == match self.strategy() {
                SourceStrategy::Polling => POLL_INTERVAL_MS,
                SourceStrategy::PushSubscription => 0,
            },
    {
        match self.strategy {
            SourceStrategy::Polling => POLL_INTERVAL_MS,
            SourceStrategy::PushSubscription => 0,
        }
    }

    /// Takes the result of one fetch and returns the block to pass on to the
    /// scheduler, if there is one.
    pub fn accept(&mut self, fetched: Fetch) -> (r: Option<BlockDescriptor>)
        ensures
            final(self).strategy() == old(self).strategy(),
            final(self).last_yielded() == last_after(
                old(self).strategy(),
                old(self).last_yielded(),
                fetched,
            ),
            r == if passes(old(self).strategy(), old(self).last_yielded(), fetched) {
                Some(fetched->Block_0)
            } else {
                None
            },
    {
        match fetched {
            Fetch::TransientError => None,
            Fetch::Block(block) => {
                let fresh = match self.strategy {
                    SourceStrategy::PushSubscription => true,
                    SourceStrategy::Polling => match self.last_yielded {
                        None => true,
                        Some(last) => block.sequence_number > last,
                    },
                };
                if fresh {
                    self.last_yielded = Some(block.sequence_number);
                    Some(block)
                } else {
                    None
                }
            },
        }
    }
}

/// Whether the blocks' sequence numbers increase strictly from each block to
/// the next, and all lie above `floor`, where there is one.
pub open spec fn strictly_increasing_above(blocks: Seq<BlockDescriptor>, floor: Option<u64>) -> bool {
    &&& forall|i: int, j: int|
        0 <= i < j < blocks.len() ==> blocks[i].sequence_number < blocks[j].sequence_number
    &&& forall|i: int|
        0 <= i < blocks.len() && floor is Some ==> floor->0 < blocks[i].sequence_number
}

/// A polling source never passes on a block twice nor out of order: the
/// blocks it passes on have strictly increasing sequence numbers, all above
/// that of the block it had passed on before.
pub proof fn lemma_polling_yields_increasing(last_yielded: Option<u64>, fetches: Seq<Fetch>)
    ensures
        strictly_increasing_above(
            yielded(SourceStrategy::Polling, last_yielded, fetches),
            last_yielded,
        ),
    decreases fetches.len(),
{
    let strategy = SourceStrategy::Polling;
    let out = yielded(strategy, last_yielded, fetches);
    if fetches.len() > 0 {
        let next = last_after(strategy, last_yielded, fetches[0]);
        let rest = yielded(strategy, next, fetches.drop_first());
        lemma_polling_yields_increasing(next, fetches.drop_first());
        if passes(strategy, last_yielded, fetches[0]) {
            let head = fetches[0]->Block_0;
            assert(out == seq![head] + rest);
            assert forall|i: int, j: int| 0 <= i < j < out.len() implies out[i].sequence_number
                < out[j].sequence_number by {
                assert(out[j] == rest[j - 1]);
                if i > 0 {
                    assert(out[i] == rest[i - 1]);
                }
            }
            assert forall|i: int| 0 <= i < out.len() && last_yielded is Some implies last_yielded->0
                < out[i].sequence_number by {
                if i > 0 {
                    assert(out[i] == rest[i - 1]);
                }
            }
        } else {
            assert(out == rest);
        }
    }
}

/// A subscription passes on every block it is handed, and in the order in
/// which the feed delivered them; only failed fetches are left out.
pub proof fn lemma_subscription_yields_all(last_yielded: Option<u64>, fetches: Seq<Fetch>)
    requires
        forall|i: int| 0 <= i < fetches.len() ==> fetches[i] is Block,
    ensures
        yielded(SourceStrategy::PushSubscription, last_yielded, fetches) == fetches.map_values(
            |f: Fetch| f->Block_0,
        ),
    decreases fetches.len(),
{
    let strategy = SourceStrategy::PushSubscription;
    let all = fetches.map_values(|f: Fetch| f->Block_0);
    if fetches.len() > 0 {
        let next = last_after(strategy, last_yielded, fetches[0]);
        lemma_subscription_yields_all(next, fetches.drop_first());
        assert(fetches.drop_first().map_values(|f: Fetch| f->Block_0) =~= all.drop_first());
        assert(yielded(strategy, last_yielded, fetches) =~= all);
    } else {
        assert(yielded(strategy, last_yielded, fetches) =~= all);
    }
}

} // verus!
