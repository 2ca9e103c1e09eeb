//! Which shards a process owns.

use std::rc::Rc;
use vstd::prelude::*;

verus! {

/// How the shards of a deployment are divided among processes.
#[derive(Clone, Copy, Debug, PartialEq, Eq, Structural)]
pub enum ShardingStrategy {
    /// Ask the remote service how many shards to run. Not supported: a manager
    /// configured with it refuses to start.
    Autoshard,
    /// `Range(index, count, total)`: this process owns the `count` consecutive
    /// shard ids that start at `index`, out of `total` shards in the whole
    /// deployment.
    Range(u64, u64, u64),
}

/// Why a strategy does not resolve to a range of shard ids.
#[derive(Clone, Copy, Debug, PartialEq, Eq, Structural)]
pub enum StrategyError {
    /// The strategy is `Autoshard`, which is not supported.
    AutoshardUnsupported,
    /// `index + count` is larger than `total`.
    RangeExceedsTotal,
}

/// A resolved range of shard ids: `count` consecutive ids from `index`, all
/// below `total`.
#[derive(Clone, Copy, Debug, PartialEq, Eq, Structural)]
pub struct ShardRange {
    pub index: u64,
    pub count: u64,
    pub total: u64,
}

impl ShardRange {
    /// The range lies within the deployment.
    pub open spec fn wf(self) -> bool {
        self.index + self.count <= self.total
    }

    /// The ids of the range, in ascending order.
    pub open spec fn ids(self) -> Seq<u64> {
        Seq::new(self.count as nat, |k: int| (self.index + k) as u64)
    }

    /// Enumerates the ids of the range in ascending order.
    pub fn shard_ids(&self) -> (ids: Vec<u64>)
        requires
            self.wf(),
        ensures
            ids@ == self.ids(),
    {
        let mut ids: Vec<u64> = Vec::new();
        let mut k: u64 = 0;
        while k < self.count
            invariant
                self.wf(),
                k <= self.count,
                ids@ == Seq::new(k as nat, |j: int| (self.index + j) as u64),
            decreases self.count - k,
        {
            ids.push(self.index + k);
            k = k + 1;
        }
        ids
    }
}

impl ShardingStrategy {
    /// The range this strategy names, if it names one that lies within the
    /// deployment.
    pub open spec fn resolved(self) -> Result<ShardRange, StrategyError> {
        match self {
            ShardingStrategy::Autoshard => Err(StrategyError::AutoshardUnsupported),
            ShardingStrategy::Range(index, count, total) => if index + count <= total {
                Ok(ShardRange { index, count, total })
            } else {
                Err(StrategyError::RangeExceedsTotal)
            },
        }
    }

    /// The shard ids this strategy assigns to the process, in ascending order;
    /// empty where the strategy does not resolve.
    pub open spec fn owned_ids(self) -> Seq<u64> {
        match self.resolved() {
            Ok(range) => range.ids(),
            Err(_) => Seq::empty(),
        }
    }

    /// Defers the shard count to the remote service.
    pub fn auto() -> (s: Self)
        ensures
            s == ShardingStrategy::Autoshard,
    {
        ShardingStrategy::Autoshard
    }

    /// This process runs all `count` shards of the deployment.
    pub fn multi(count: u64) -> (s: Self)
        ensures
            s == ShardingStrategy::Range(0, count, count),
    {
        ShardingStrategy::Range(0, count, count)
    }

    /// A single shard that carries everything.
    pub fn simple() -> (s: Self)
        ensures
            s == ShardingStrategy::Range(0, 1, 1),
    {
        ShardingStrategy::Range(0, 1, 1)
    }

    /// This process owns `count` shards from `index`, out of `total`.
    pub fn range(index: u64, count: u64, total: u64) -> (s: Self)
        ensures
            s == ShardingStrategy::Range(index, count, total),
    {
        ShardingStrategy::Range(index, count, total)
    }

    /// Resolves the strategy into the range of ids the process owns.
    pub fn resolve(&self) -> (r: Result<ShardRange, StrategyError>)
        ensures
            r == self.resolved(),
            r matches Ok(range) ==> range.wf(),
    {
        match *self {
            ShardingStrategy::Autoshard => Err(StrategyError::AutoshardUnsupported),
            ShardingStrategy::Range(index, count, total) => {
                if index <= total && count <= total - index {
                    Ok(ShardRange { index, count, total })
                } else {
                    Err(StrategyError::RangeExceedsTotal)
                }
            },
        }
    }
}

impl Default for ShardingStrategy {
    fn default() -> (s: Self)
        ensures
            s == ShardingStrategy::Autoshard,
    {
        ShardingStrategy::Autoshard
    }
}

/// The configuration a manager is built from.
#[derive(Clone, Debug)]
pub struct ShardManagerOptions {
    pub strategy: ShardingStrategy,
    pub token: Rc<String>,
    pub ws_uri: Rc<String>,
}

impl Default for ShardManagerOptions {
    fn default() -> (o: Self)
        ensures
            o.strategy == ShardingStrategy::Autoshard,
            o.token@ == Seq::<char>::empty(),
            o.ws_uri@ == Seq::<char>::empty(),
    {
        ShardManagerOptions {
            strategy: ShardingStrategy::Autoshard,
            token: Rc::new(String::new()),
            ws_uri: Rc::new(String::new()),
        }
    }
}

} // verus!
