use vstd::prelude::*;
use crate::strategy::ShardingStrategy;

verus! {

/// The smallest number of seconds waited between two shard starts.
pub const MINIMUM_DELAY: u64 = 5;

/// The number of seconds waited between two shard starts unless set.
pub const DEFAULT_DELAY: u64 = 6;

/// The pacing delay used for a requested delay: the request, raised to the
/// minimum where it is below it.
pub open spec fn clamp_delay(requested: u64) -> u64 {
    if requested >= MINIMUM_DELAY {
        requested
    } else {
        MINIMUM_DELAY
    }
}

/// Returns the pacing delay used for a requested delay: values below the
/// minimum of five seconds are raised to it, never rejected.
pub fn effective_delay(requested: u64) -> (r: u64)
    ensures
        r == clamp_delay(requested),
        r >= MINIMUM_DELAY,
        requested >= MINIMUM_DELAY ==> r == requested,
{
    if requested >= MINIMUM_DELAY {
        requested
    } else {
        MINIMUM_DELAY
    }
}

/// Options to use when spawning shards.
///
/// Only the token has to be given by the user; the delay defaults to six
/// seconds and the strategy to [`ShardingStrategy::Autoshard`].
#[derive(Clone, Debug)]
pub struct SharderOptions {
    /// The number of seconds to wait between each shard start; at least 5.
    pub delay: u64,
    /// The strategy to use for sharding.
    pub strategy: ShardingStrategy,
    /// The bot's token.
    pub token: String,
}

/// Relies on std's `ToString::to_string` to turn the given token into an
/// owned string; nothing is assumed of its text.
#[verifier::external_body]
fn owned_text<T: ToString>(value: T) -> (r: String) {
    value.to_string()
}

impl SharderOptions {
    /// Creates a new set of options with the given token, the default delay
    /// and the autoshard strategy.
    #[inline]
    pub fn new(token: impl ToString) -> (r: Self)
        ensures
            r.delay == DEFAULT_DELAY,
            r.strategy == ShardingStrategy::Autoshard,
    {
        Self::with_token(owned_text(token))
    }

    /// Creates a new set of options holding this very token.
    pub fn with_token(token: String) -> (r: Self)
        ensures
            r.delay == DEFAULT_DELAY,
            r.strategy == ShardingStrategy::Autoshard,
            r.token@ == token@,
    {
        SharderOptions { delay: DEFAULT_DELAY, strategy: ShardingStrategy::Autoshard, token }
    }

    /// Sets the delay between shard starts; a delay below five seconds is
    /// raised to five.
    pub fn delay(&mut self, delay: u64) -> (r: &mut Self)
        ensures
            r.delay == clamp_delay(delay),
            r.strategy == old(self).strategy,
            r.token@ == old(self).token@,
            *final(self) == *final(r),
    {
        self.delay = effective_delay(delay);
        self
    }

    /// Sets the sharding strategy to use for starting shards.
    pub fn strategy(&mut self, strategy: ShardingStrategy) -> (r: &mut Self)
        ensures
            r.delay == old(self).delay,
            r.strategy == strategy,
            r.token@ == old(self).token@,
            *final(self) == *final(r),
    {
        self.strategy = strategy;
        self
    }

    /// Sets the bot's token.
    #[inline]
    pub fn token(&mut self, token: impl ToString) -> (r: &mut Self)
        ensures
            r.delay == old(self).delay,
            r.strategy == old(self).strategy,
            *final(self) == *final(r),
    {
        self.set_token(owned_text(token))
    }

    /// Sets the bot's token to this very string.
    pub fn set_token(&mut self, token: String) -> (r: &mut Self)
        ensures
            r.delay == old(self).delay,
            r.strategy == old(self).strategy,
            r.token@ == token@,
            *final(self) == *final(r),
    {
        self.token = token;
        self
    }
}

/// A requested delay below the minimum is raised to exactly the minimum, and
/// one at or above it is used unchanged.
pub proof fn lemma_delay_is_clamped_upward(requested: u64)
    ensures
        requested < MINIMUM_DELAY ==> clamp_delay(requested) == MINIMUM_DELAY,
        requested >= MINIMUM_DELAY ==> clamp_delay(requested) == requested,
{
}

} // verus!
