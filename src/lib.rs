//! Sequenced, paced booting of gateway shard connections.
//!
//! The library holds the logic of a shard sharder: the sharding strategy and
//! the range of shard ids it resolves to, the options of a boot run with their
//! minimum pacing delay, and the boot sequencer, a state machine that decides,
//! one event at a time, which shard to create next, when to hand a created
//! shard to the output stream, how long to wait before the next one, and when
//! the run is over.

mod options;
mod sequencer;
mod strategy;

pub use crate::options::{clamp_delay, effective_delay, SharderOptions, DEFAULT_DELAY, MINIMUM_DELAY};
pub use crate::strategy::{BootRange, ShardingStrategy};
pub use crate::sequencer::{ids, Action, Event, Phase, Sequencer};
