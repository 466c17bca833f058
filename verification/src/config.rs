//! The registration parameters: what the operator gave, checked and
//! completed with the defaults.

use vstd::prelude::*;
use crate::scheduler::{AlreadyDonePolicy, DeploymentMode};
use crate::slot::{SlotConfig, SlotError};
use crate::source::SourceStrategy;

verus! {

/// The cost ceiling where none is given. The ceiling is carried along and
/// consulted by nothing.
pub const DEFAULT_MAX_COST: u64 = 5000000000;

/// The network endpoint where none is given.
pub open spec fn default_endpoint() -> Seq<char> {
    "wss://entrypoint-finney.opentensor.ai:443"@
}

/// The parameters as the operator gave them, on the command line or in a
/// configuration file: each that can be left out is optional.
#[derive(Clone, Debug, PartialEq, Eq)]
pub struct RawParams {
    /// The secret URI of the key that authorizes and pays. Required.
    pub coldkey: Option<String>,
    /// The secret URI of the key that is registered. Required.
    pub hotkey: Option<String>,
    /// The subnetwork to register on. Required.
    pub netuid: Option<u16>,
    /// The cost ceiling.
    pub max_cost: Option<u64>,
    /// The network endpoint.
    pub chain_endpoint: Option<String>,
    /// The partition this instance covers. Without it the instance covers
    /// every block.
    pub partition_index: Option<u64>,
    /// The number of partitions. Read only where a partition index is given.
    pub partition_count: Option<u64>,
    /// Whether to go on racing after the first finalization.
    pub continuous: bool,
    /// Whether a single-shot engine stops once the identity is found
    /// registered already.
    pub stop_when_registered: bool,
    /// Whether to subscribe to finalized blocks in place of polling.
    pub subscribe: bool,
}

/// Why the given parameters are not a configuration.
#[derive(Clone, Copy, Debug, PartialEq, Eq, Structural)]
pub enum ConfigError {
    /// No coldkey was given.
    MissingColdkey,
    /// No hotkey was given.
    MissingHotkey,
    /// No subnetwork was given.
    MissingNetuid,
    /// A partition index was given without the number of partitions.
    MissingPartitionCount,
    /// The number of partitions is zero.
    NoPartitions,
    /// The partition index is not below the number of partitions.
    PartitionOutOfRange,
}

/// The checked parameters of a registration.
#[derive(Clone, Debug, PartialEq, Eq)]
pub struct RegistrationParams {
    /// The secret URI of the key that authorizes and pays.
    pub coldkey: String,
    /// The secret URI of the key that is registered.
    pub hotkey: String,
    /// The subnetwork to register on.
    pub netuid: u16,
    /// The cost ceiling. Carried along; nothing consults it.
    pub max_cost: u64,
    /// The network endpoint.
    pub chain_endpoint: String,
    /// This instance's share of the blocks.
    pub slot: SlotConfig,
    /// How long the engine runs.
    pub mode: DeploymentMode,
    /// What a single-shot engine does once the identity is found registered.
    pub on_already_done: AlreadyDonePolicy,
    /// How blocks are obtained.
    pub strategy: SourceStrategy,
}

/// The first fault in the given parameters, in the order coldkey, hotkey,
/// subnetwork, partition; `None` where there is none.
pub open spec fn config_error(raw: RawParams) -> Option<ConfigError> {
    if raw.coldkey is None {
        Some(ConfigError::MissingColdkey)
    } else if raw.hotkey is None {
        Some(ConfigError::MissingHotkey)
    } else if raw.netuid is None {
        Some(ConfigError::MissingNetuid)
    } else if raw.partition_index is None {
        None
    } else if raw.partition_count is None {
        Some(ConfigError::MissingPartitionCount)
    } else if raw.partition_count->0 == 0 {
        Some(ConfigError::NoPartitions)
    } else if raw.partition_index->0 >= raw.partition_count->0 {
        Some(ConfigError::PartitionOutOfRange)
    } else {
        None
    }
}

/// The number of partitions that the given parameters ask for.
pub open spec fn configured_count(raw: RawParams) -> u64 {
    if raw.partition_index is Some {
        raw.partition_count->0
    } else {
        1
    }
}

/// The partition that the given parameters ask for.
pub open spec fn configured_index(raw: RawParams) -> u64 {
    if raw.partition_index is Some {
        raw.partition_index->0
    } else {
        0
    }
}

/// Whether `params` is the configuration that the given parameters ask for:
/// what was given as it was given, and the default for what was left out.
pub open spec fn configures(raw: RawParams, params: RegistrationParams) -> bool {
    &&& Some(params.coldkey) == raw.coldkey
    &&& Some(params.hotkey) == raw.hotkey
    &&& Some(params.netuid) == raw.netuid
    &&& params.max_cost == if raw.max_cost is Some {
        raw.max_cost->0
    } else {
        DEFAULT_MAX_COST
    }
    &&& params.chain_endpoint@ == if raw.chain_endpoint is Some {
        raw.chain_endpoint->0@
    } else {
        default_endpoint()
    }
    &&& params.slot.partition_count() == configured_count(raw)
    &&& params.slot.partition_index() == configured_index(raw)
    &&& params.mode == if raw.continuous {
        DeploymentMode::Continuous
    } else {
        DeploymentMode::SingleShot
    }
    &&& params.on_already_done == if raw.stop_when_registered {
        AlreadyDonePolicy::Stop
    } else {
        AlreadyDonePolicy::KeepRacing
    }
    &&& params.strategy == if raw.subscribe {
        SourceStrategy::PushSubscription
    } else {
        SourceStrategy::Polling
    }
}

fn slot_of(partition_index: Option<u64>, partition_count: Option<u64>) -> (r: Result<
    SlotConfig,
    ConfigError,
>)
    ensures
        match r {
            Ok(slot) => {
                &&& partition_index is Some ==> partition_count is Some && partition_index->0
                    < partition_count->0 && slot.partition_count() == partition_count->0
                    && slot.partition_index() == partition_index->0
                &&& partition_index is None ==> slot.partition_count() == 1
                    && slot.partition_index() == 0
            },
            Err(error) => {
                &&& partition_index is Some
                &&& error == if partition_count is None {
                    ConfigError::MissingPartitionCount
                } else if partition_count->0 == 0 {
                    ConfigError::NoPartitions
                } else {
                    ConfigError::PartitionOutOfRange
                }
                &&& partition_count is Some && partition_count->0 > 0 ==> partition_index->0
                    >= partition_count->0
            },
        },
{
    let index: u64 = match partition_index {
        Some(index) => index,
        None => {
            return Ok(SlotConfig::single());
        },
    };
    let count: u64 = match partition_count {
        Some(count) => count,
        None => {
            return Err(ConfigError::MissingPartitionCount);
        },
    };
    match SlotConfig::new(count, index) {
        Ok(slot) => Ok(slot),
        Err(SlotError::NoPartitions) => Err(ConfigError::NoPartitions),
        Err(SlotError::IndexOutOfRange) => Err(ConfigError::PartitionOutOfRange),
    }
}

/// Checks the parameters that the operator gave and completes them with the
/// defaults: a cost ceiling of `DEFAULT_MAX_COST`, the default endpoint, a
/// single partition, a single-shot engine that keeps racing when the
/// identity is found registered, and polling.
///
/// Coldkey, hotkey and subnetwork are required. A partition index needs the
/// number of partitions, which must be above the index.
pub fn parse_config(raw: RawParams) -> (r: Result<RegistrationParams, ConfigError>)
    ensures
        match r {
            Ok(params) => config_error(raw) is None && configures(raw, params),
            Err(error) => config_error(raw) == Some(error),
        },
{
    let coldkey = match raw.coldkey {
        Some(coldkey) => coldkey,
        None => {
            return Err(ConfigError::MissingColdkey);
        },
    };
    let hotkey = match raw.hotkey {
        Some(hotkey) => hotkey,
        None => {
            return Err(ConfigError::MissingHotkey);
        },
    };
    let netuid: u16 = match raw.netuid {
        Some(netuid) => netuid,
        None => {
            return Err(ConfigError::MissingNetuid);
        },
    };
    let slot = match slot_of(raw.partition_index, raw.partition_count) {
        Ok(slot) => slot,
        Err(error) => {
            return Err(error);
        },
    };
    let max_cost: u64 = match raw.max_cost {
        Some(max_cost) => max_cost,
        None => DEFAULT_MAX_COST,
    };
    let chain_endpoint = match raw.chain_endpoint {
        Some(endpoint) => endpoint,
        None => "wss://entrypoint-finney.opentensor.ai:443".to_owned(),
    };
    let mode = if raw.continuous {
        DeploymentMode::Continuous
    } else {
        DeploymentMode::SingleShot
    };
    let on_already_done = if raw.stop_when_registered {
        AlreadyDonePolicy::Stop
    } else {
        AlreadyDonePolicy::KeepRacing
    };
    let strategy = if raw.subscribe {
        SourceStrategy::PushSubscription
    } else {
        SourceStrategy::Polling
    };
    Ok(
        RegistrationParams {
            coldkey,
            hotkey,
            netuid,
            max_cost,
            chain_endpoint,
            slot,
            mode,
            on_already_done,
            strategy,
        },
    )
}

} // verus!
