//! Supervisor of all shards: caches the gateway capacity record,
//! enumerates the shard ids, checks the session budget and partitions
//! the shards into admission buckets of `max_concurrency` each. The
//! REST fetch and the task fan-out happen outside; they hand the
//! fetched record in and drive one worker per shard id.

use vstd::prelude::*;

use crate::error::WebSocketError;
use crate::shard::ShardId;
use crate::structures::GatewayBotObject;

verus! {

/// Configuration of a manager.
#[derive(Debug)]
pub struct WebSocketManagerOptions {
    pub token: String,
    pub intents: u64,
}

/// A group of consecutive shards whose identify admissions share one
/// rate-limit window; group size equals `max_concurrency`.
#[derive(Debug)]
pub struct ShardBucket {
    pub shard_ids: Vec<ShardId>,
}

/// Supervisor state.
#[derive(Debug)]
pub struct WebSocketManager {
    pub options: WebSocketManagerOptions,
    /// Cached capacity record, when one has been fetched.
    pub gateway_info: Option<GatewayBotObject>,
    /// Clock reading at which the cached record was stored.
    pub gateway_info_at_ms: u64,
    /// Memoized shard id list.
    pub shard_ids: Option<Vec<ShardId>>,
    /// Admission buckets of the last connect plan.
    pub buckets: Vec<ShardBucket>,
}

/// The ids `0, 1, ..., n - 1`.
pub open spec fn consecutive_ids(n: int) -> Seq<ShardId> {
    Seq::new(n as nat, |i: int| i as usize)
}

/// Buckets of a well-formed connect plan for `n` shards with window
/// width `k`: laid end to end they enumerate the ids in order, every
/// bucket but the last holds exactly `k` ids, and none is empty or
/// wider than `k`.
pub open spec fn buckets_partition(bs: Seq<ShardBucket>, n: int, k: int) -> bool {
    &&& bs.map_values(|b: ShardBucket| b.shard_ids@).flatten() == consecutive_ids(n)
    &&& forall|j: int| 0 <= j < bs.len() ==> 1 <= (#[trigger] bs[j].shard_ids@).len() <= k
    &&& forall|j: int| 0 <= j < bs.len() - 1 ==> (#[trigger] bs[j].shard_ids@).len() == k
}

impl WebSocketManager {
    pub fn new(options: WebSocketManagerOptions) -> (r: WebSocketManager)
        ensures
            r.options == options,
            r.gateway_info is None,
            r.shard_ids is None,
            r.buckets@.len() == 0,
    {
        WebSocketManager {
            options,
            gateway_info: None,
            gateway_info_at_ms: 0,
            shard_ids: None,
            buckets: Vec::new(),
        }
    }

    /// The cached capacity record counts as fresh while its reset
    /// window has not elapsed since it was stored.
    pub open spec fn capacity_fresh_spec(&self, now: int) -> bool {
        match self.gateway_info {
            Option::Some(g) => now - self.gateway_info_at_ms
                < g.session_start_limit.reset_after,
            Option::None => false,
        }
    }

    /// Decides whether the cached capacity record may be served, or a
    /// fresh one must be fetched.
    pub fn capacity_is_fresh(&self, now_ms: u64) -> (r: bool)
        requires
            self.gateway_info_at_ms <= now_ms,
        ensures
            r == self.capacity_fresh_spec(now_ms as int),
    {
        match &self.gateway_info {
            Some(g) => now_ms - self.gateway_info_at_ms < g.session_start_limit.reset_after,
            None => false,
        }
    }

    /// Stores a freshly fetched capacity record with its fetch time.
    pub fn store_gateway_info(&mut self, info: GatewayBotObject, now_ms: u64)
        ensures
            *final(self) == (WebSocketManager {
                gateway_info: Option::Some(info),
                gateway_info_at_ms: now_ms,
                ..*old(self)
            }),
    {
        self.gateway_info = Some(info);
        self.gateway_info_at_ms = now_ms;
    }

    /// Ids of the shards this manager runs: `0` up to the recommended
    /// shard count, memoized on first use.
    pub fn shard_ids(&mut self) -> (r: Vec<ShardId>)
        requires
            old(self).gateway_info matches Option::Some(g) && g.shards <= usize::MAX,
            old(self).shard_ids matches Option::Some(ids) ==> ids@ == consecutive_ids(
                ids@.len() as int,
            ),
        ensures
            r@ == consecutive_ids(r@.len() as int),
            old(self).shard_ids is None ==> (old(self).gateway_info matches Option::Some(g)
                && r@.len() == g.shards),
            old(self).shard_ids matches Option::Some(ids) ==> r@ == ids@,
            final(self).shard_ids matches Option::Some(ids2) && ids2@ == r@,
            final(self).gateway_info == old(self).gateway_info,
            final(self).gateway_info_at_ms == old(self).gateway_info_at_ms,
            final(self).options == old(self).options,
            final(self).buckets == old(self).buckets,
    {
        match &self.shard_ids {
            Some(ids) => {
                let r = ids.clone();
                proof {
                    assert(r@ =~= self.shard_ids->Some_0@);
                }
                r
            },
            None => {
                let n: usize = match &self.gateway_info {
                    Some(g) => g.shards as usize,
                    None => 0,
                };
                let mut ids: Vec<ShardId> = Vec::new();
                let mut i: usize = 0;
                while i < n
                    invariant
                        i <= n,
                        ids@ == consecutive_ids(i as int),
                    decreases n - i,
                {
                    proof {
                        assert(consecutive_ids(i as int).push(i as usize) =~= consecutive_ids(
                            i + 1,
                        ));
                    }
                    ids.push(i);
                    i = i + 1;
                }
                let r = ids.clone();
                proof {
                    assert(r@ =~= ids@);
                }
                self.shard_ids = Some(ids);
                r
            },
        }
    }

    /// Checks the session budget: starting `shards` sessions needs as
    /// many remaining session starts, and too few fail the connect with
    /// `NotEnoughSessionsRemaining(remaining, shards)`.
    pub fn check_session_capacity(&self) -> (r: Result<(), WebSocketError>)
        requires
            self.gateway_info is Some,
        ensures
            self.gateway_info matches Option::Some(g) ==> {
                &&& g.shards > g.session_start_limit.remaining ==> r == Result::<
                    (),
                    WebSocketError,
                >::Err(
                    WebSocketError::NotEnoughSessionsRemaining(
                        g.session_start_limit.remaining,
                        g.shards,
                    ),
                )
                &&& g.shards <= g.session_start_limit.remaining ==> r == Result::<
                    (),
                    WebSocketError,
                >::Ok(())
            },
    {
        match &self.gateway_info {
            Some(g) => {
                if g.shards > g.session_start_limit.remaining {
                    Err(
                        WebSocketError::NotEnoughSessionsRemaining(
                            g.session_start_limit.remaining,
                            g.shards,
                        ),
                    )
                } else {
                    Ok(())
                }
            },
            None => Ok(()),
        }
    }

    /// Builds the admission buckets: the shard ids in order, in chunks
    /// of the capacity's `max_concurrency`.
    pub fn spawn(&mut self)
        requires
            old(self).wf_spawn(),
        ensures
            old(self).gateway_info matches Option::Some(g) ==> buckets_partition(
                final(self).buckets@,
                g.shards as int,
                g.session_start_limit.max_concurrency as int,
            ),
            final(self).gateway_info == old(self).gateway_info,
            final(self).gateway_info_at_ms == old(self).gateway_info_at_ms,
            final(self).options == old(self).options,
            final(self).shard_ids == old(self).shard_ids,
    {
        let (n, k): (usize, usize) = match &self.gateway_info {
            Some(g) => (g.shards as usize, g.session_start_limit.max_concurrency as usize),
            None => (0, 1),
        };
        let ghost gn = n as int;
        let mut buckets: Vec<ShardBucket> = Vec::new();
        let mut start: usize = 0;
        while start < n
            invariant
                0 <= start <= n,
                1 <= k,
                buckets@.map_values(|b: ShardBucket| b.shard_ids@).flatten() == consecutive_ids(
                    start as int,
                ),
                forall|j: int|
                    0 <= j < buckets@.len() ==> 1 <= (#[trigger] buckets@[j].shard_ids@).len()
                        <= k,
                start < n ==> forall|j: int|
                    0 <= j < buckets@.len() ==> (#[trigger] buckets@[j].shard_ids@).len() == k,
                forall|j: int|
                    0 <= j < buckets@.len() - 1 ==> (#[trigger] buckets@[j].shard_ids@).len()
                        == k,
            decreases n - start,
        {
            let step: usize = if k > n - start {
                n - start
            } else {
                k
            };
            let end = start + step;
            let mut chunk: Vec<ShardId> = Vec::new();
            let mut i: usize = start;
            while i < end
                invariant
                    start <= i <= end,
                    chunk@ == Seq::new((i - start) as nat, |t: int| (start + t) as usize),
                decreases end - i,
            {
                proof {
                    assert(chunk@.push(i as usize) =~= Seq::new(
                        (i + 1 - start) as nat,
                        |t: int| (start + t) as usize,
                    ));
                }
                chunk.push(i);
                i = i + 1;
            }
            let ghost old_buckets = buckets@;
            let ghost chunk_view = chunk@;
            buckets.push(ShardBucket { shard_ids: chunk });
            proof {
                let f = |b: ShardBucket| b.shard_ids@;
                assert(buckets@.map_values(f) =~= old_buckets.map_values(f).push(chunk_view));
                old_buckets.map_values(f).lemma_flatten_push(chunk_view);
                assert(consecutive_ids(start as int) + chunk_view =~= consecutive_ids(
                    end as int,
                ));
            }
            start = end;
        }
        proof {
            if gn == 0 {
                assert(buckets@.map_values(|b: ShardBucket| b.shard_ids@).flatten()
                    =~= consecutive_ids(0));
            }
        }
        self.buckets = buckets;
    }

    /// Inputs under which a connect plan can be laid: a capacity record
    /// is held, its counts fit the machine, and its admission width is
    /// at least one.
    pub open spec fn wf_spawn(&self) -> bool {
        match self.gateway_info {
            Option::Some(g) => {
                &&& g.shards <= usize::MAX
                &&& 1 <= g.session_start_limit.max_concurrency <= usize::MAX
            },
            Option::None => false,
        }
    }

    /// Lays the connect plan: fails with the capacity error when the
    /// session budget does not cover the shard count, else memoizes the
    /// shard ids and builds the admission buckets. The caller then
    /// opens the buckets in order and parks; no bucket is built on
    /// failure.
    pub fn connect_plan(&mut self) -> (r: Result<(), WebSocketError>)
        requires
            old(self).wf_spawn(),
            old(self).shard_ids matches Option::Some(ids) ==> ids@ == consecutive_ids(
                ids@.len() as int,
            ),
        ensures
            old(self).gateway_info matches Option::Some(g) ==> {
                &&& g.shards > g.session_start_limit.remaining ==> r == Result::<
                    (),
                    WebSocketError,
                >::Err(
                    WebSocketError::NotEnoughSessionsRemaining(
                        g.session_start_limit.remaining,
                        g.shards,
                    ),
                ) && *final(self) == *old(self)
                &&& g.shards <= g.session_start_limit.remaining ==> r == Result::<
                    (),
                    WebSocketError,
                >::Ok(()) && buckets_partition(
                    final(self).buckets@,
                    g.shards as int,
                    g.session_start_limit.max_concurrency as int,
                ) && (final(self).shard_ids matches Option::Some(ids2) && ids2@
                    == consecutive_ids(ids2@.len() as int))
            },
            final(self).gateway_info == old(self).gateway_info,
            final(self).options == old(self).options,
    {
        match self.check_session_capacity() {
            Err(e) => Err(e),
            Ok(()) => {
                let _ids = self.shard_ids();
                self.spawn();
                Ok(())
            },
        }
    }
}

} // verus!
