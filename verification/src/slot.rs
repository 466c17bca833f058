//! The slot filter: a coordination-free split of submission opportunities
//! among cooperating instances by the block sequence number modulo the number
//! of partitions.

use vstd::prelude::*;

verus! {

/// Whether `sequence` falls into partition `index` when the sequence-number
/// space is split into `count` partitions.
pub open spec fn in_partition(sequence: u64, count: u64, index: u64) -> bool {
    count >= 1 && sequence as int % count as int == index as int
}

/// Why a pair of numbers is not a slot configuration.
#[derive(Clone, Copy, Debug, PartialEq, Eq, Structural)]
pub enum SlotError {
    /// The number of partitions is zero.
    NoPartitions,
    /// The partition index is not below the number of partitions.
    IndexOutOfRange,
}

/// This instance's share of the submission opportunities: partition
/// `partition_index` out of `partition_count`. Fixed at startup.
///
/// Every value has at least one partition and an index below the count.
#[derive(Clone, Copy, Debug, PartialEq, Eq)]
pub struct SlotConfig {
    partition_count: u64,
    partition_index: u64,
}

impl SlotConfig {
    #[verifier::type_invariant]
    spec fn valid(self) -> bool {
        1 <= self.partition_count && self.partition_index < self.partition_count
    }

    /// The number of partitions.
    pub closed spec fn spec_partition_count(&self) -> u64 {
        self.partition_count
    }

    /// The partition this instance covers.
    pub closed spec fn spec_partition_index(&self) -> u64 {
        self.partition_index
    }

    /// Whether this configuration lets a block with the given sequence
    /// number through.
    pub open spec fn admits(self, sequence: u64) -> bool {
        in_partition(sequence, self.partition_count(), self.partition_index())
    }

    /// A configuration for partition `partition_index` of `partition_count`.
    pub fn new(partition_count: u64, partition_index: u64) -> (r: Result<SlotConfig, SlotError>)
        ensures
            match r {
                Ok(config) => {
                    &&& partition_index < partition_count
                    &&& config.partition_count() == partition_count
                    &&& config.partition_index() == partition_index
                },
                Err(error) => {
                    &&& partition_index >= partition_count
                    &&& error == if partition_count == 0 {
                        SlotError::NoPartitions
                    } else {
                        SlotError::IndexOutOfRange
                    }
                },
            },
    {
        if partition_count == 0 {
            Err(SlotError::NoPartitions)
        } else if partition_index >= partition_count {
            Err(SlotError::IndexOutOfRange)
        } else {
            Ok(SlotConfig { partition_count, partition_index })
        }
    }

    /// The configuration with a single partition, which admits every block.
    pub fn single() -> (r: SlotConfig)
        ensures
            r.partition_count() == 1,
            r.partition_index() == 0,
            forall|sequence: u64| r.admits(sequence),
    {
        SlotConfig { partition_count: 1, partition_index: 0 }
    }

    /// The number of partitions.
    #[verifier::when_used_as_spec(spec_partition_count)]
    pub fn partition_count(&self) -> (r: u64)
        ensures
            r == self.partition_count(),
            r >= 1,
    {
        proof {
            use_type_invariant(self);
        }
        self.partition_count
    }

    /// The partition this instance covers.
    #[verifier::when_used_as_spec(spec_partition_index)]
    pub fn partition_index(&self) -> (r: u64)
        ensures
            r == self.partition_index(),
            r < self.partition_count(),
    {
        proof {
            use_type_invariant(self);
        }
        self.partition_index
    }
}

/// Decides whether a block with the given sequence number is this instance's
/// to submit on: its sequence number modulo the number of partitions is the
/// configured index.
pub fn eligible(sequence_number: u64, config: &SlotConfig) -> (r: bool)
    ensures
        r == config.admits(sequence_number),
        r == (sequence_number % config.partition_count() == config.partition_index()),
{
    proof {
        use_type_invariant(config);
    }
    sequence_number % config.partition_count == config.partition_index
}

/// The one partition that a sequence number falls into.
pub open spec fn partition_of(sequence: u64, count: u64) -> u64
    recommends
        count >= 1,
{
    (sequence as int % count as int) as u64
}

/// The partitions split the sequence-number space exactly: with a fixed
/// number of partitions, every sequence number falls into one partition and
/// into no other.
pub proof fn lemma_exactly_one_partition(sequence: u64, count: u64)
    requires
        count >= 1,
    ensures
        partition_of(sequence, count) < count,
        in_partition(sequence, count, partition_of(sequence, count)),
        forall|index: u64| #[trigger]
            in_partition(sequence, count, index) ==> index == partition_of(sequence, count),
{
}

/// Two instances that share the number of partitions and both admit the same
/// block cover the same partition.
pub proof fn lemma_partitions_exclusive(first: SlotConfig, second: SlotConfig, sequence: u64)
    requires
        first.partition_count() == second.partition_count(),
        first.admits(sequence),
        second.admits(sequence),
    ensures
        first.partition_index() == second.partition_index(),
{
}

} // verus!
