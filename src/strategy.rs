use vstd::prelude::*;

verus! {

/// The strategy to use for starting shards.
///
/// Defaults to [`ShardingStrategy::Autoshard`].
#[derive(Clone, Copy, Debug, PartialEq, Eq, Structural, Hash, PartialOrd, Ord)]
pub enum ShardingStrategy {
    /// A default number of shards is used; no explicit range is given.
    Autoshard,
    /// Start shards `start` through `end`, inclusive, of `total` shards.
    Range(u64, u64, u64),
    /// Reserved for future variants; resolving it is a programming error.
    Nonexhaustive,
}

/// The resolved range of one boot run: shards `start` through `end`,
/// inclusive, out of `total` shards across all processes.
#[derive(Clone, Copy, Debug, PartialEq, Eq, Structural, Hash)]
pub struct BootRange {
    pub start: u64,
    pub end: u64,
    pub total: u64,
}

impl ShardingStrategy {
    /// Whether range extraction is defined on this strategy.
    pub open spec fn is_documented(self) -> bool {
        !(self is Nonexhaustive)
    }

    /// The explicit range of this strategy, if it has one.
    pub open spec fn spec_values(self) -> Option<(u64, u64, u64)> {
        match self {
            ShardingStrategy::Range(start, end, total) => Some((start, end, total)),
            _ => None,
        }
    }

    /// The range that a boot run uses: the explicit range, or a single shard
    /// `(0, 0, 1)` when none is given.
    pub open spec fn spec_boot_range(self) -> BootRange {
        match self {
            ShardingStrategy::Range(start, end, total) => BootRange { start, end, total },
            _ => BootRange { start: 0, end: 0, total: 1 },
        }
    }

    /// Returns the autoshard strategy.
    pub fn auto() -> (r: Self)
        ensures
            r == ShardingStrategy::Autoshard,
    {
        ShardingStrategy::Autoshard
    }

    /// Returns a range strategy.
    pub fn range(start: u64, amount: u64, total: u64) -> (r: Self)
        ensures
            r == ShardingStrategy::Range(start, amount, total),
    {
        ShardingStrategy::Range(start, amount, total)
    }

    /// Returns the first shard id, the last shard id and the total number of
    /// shards of a range strategy, and `None` for the autoshard strategy.
    ///
    /// Must not be called on the hidden reserved variant.
    pub fn values(&self) -> (r: Option<(u64, u64, u64)>)
        requires
            self.is_documented(),
        ensures
            r == self.spec_values(),
    {
        match *self {
            ShardingStrategy::Range(start, end, total) => Some((start, end, total)),
            _ => None,
        }
    }

    /// Resolves the strategy to the range that a boot run starts: the values
    /// of a range strategy as given, and the single shard `(0, 0, 1)` for the
    /// autoshard strategy.
    pub fn boot_range(&self) -> (r: BootRange)
        requires
            self.is_documented(),
        ensures
            r == self.spec_boot_range(),
    {
        match self.values() {
            Some((start, end, total)) => BootRange { start, end, total },
            None => BootRange { start: 0, end: 0, total: 1 },
        }
    }
}

impl Default for ShardingStrategy {
    fn default() -> (r: Self)
        ensures
            r == ShardingStrategy::Autoshard,
    {
        ShardingStrategy::Autoshard
    }
}

/// An explicit range resolves to exactly its own values.
pub proof fn lemma_range_resolves_as_given(start: u64, end: u64, total: u64)
    requires
        start <= end,
    ensures
        ShardingStrategy::Range(start, end, total).spec_values() == Some((start, end, total)),
        ShardingStrategy::Range(start, end, total).spec_boot_range() == (BootRange {
            start,
            end,
            total,
        }),
{
}

/// The autoshard strategy has no explicit range and boots the single shard
/// `(0, 0, 1)`.
pub proof fn lemma_autoshard_falls_back_to_one_shard()
    ensures
        ShardingStrategy::Autoshard.spec_values() is None,
        ShardingStrategy::Autoshard.spec_boot_range() == (BootRange { start: 0, end: 0, total: 1 }),
{
}

} // verus!
