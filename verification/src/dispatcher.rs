//! The bounded-concurrency dispatcher.
//!
//! A probing run fans a statically-known list of independent tasks out to a
//! pool of workers and collects exactly one result per task. The scheduling
//! decisions — which task starts next, whether another may start at all, and
//! when the run is complete — live here as a verified state machine over task
//! indices. The caller owns the worker pool: it asks `dispatch` for the next
//! task index, runs the probe for that node, and reports the outcome through
//! `complete`. The machine guarantees that at most `limit` tasks are in
//! flight at any point, that every task is issued exactly once, and that the
//! run is complete only when one result per task has been collected (the join
//! barrier).

use vstd::prelude::*;

verus! {

/// The default cap on concurrently running probe tasks.
pub const DEFAULT_WORKER_LIMIT: usize = 100;

/// How a run schedules its tasks.
///
/// A bounded pool caps concurrency regardless of graph size and is the
/// production default; unbounded spawn starts one worker per node and is an
/// explicit opt-in for small graphs only.
#[derive(Clone, Copy, Debug, PartialEq, Eq, Structural)]
pub enum SchedulingPolicy {
    BoundedPool { worker_limit: usize },
    UnboundedSpawn,
}

impl SchedulingPolicy {
    /// A policy is usable when its worker limit admits at least one task.
    pub open spec fn valid(self) -> bool {
        self matches SchedulingPolicy::BoundedPool { worker_limit } ==> worker_limit >= 1
    }

    /// The production default: a bounded pool of `DEFAULT_WORKER_LIMIT` workers.
    pub fn default_policy() -> (p: Self)
        ensures
            p == (SchedulingPolicy::BoundedPool { worker_limit: DEFAULT_WORKER_LIMIT }),
            p.valid(),
    {
        SchedulingPolicy::BoundedPool { worker_limit: DEFAULT_WORKER_LIMIT }
    }
}

/// The concurrency cap a policy imposes on a run of `total` tasks: the pool
/// size for a bounded pool, one worker per task (at least one) otherwise.
pub open spec fn effective_limit(policy: SchedulingPolicy, total: int) -> int {
    match policy {
        SchedulingPolicy::BoundedPool { worker_limit } => worker_limit as int,
        SchedulingPolicy::UnboundedSpawn => if total == 0 {
            1
        } else {
            total
        },
    }
}

/// The scheduler of one probing run over tasks `0 .. total`.
pub struct Dispatcher {
    /// How many tasks the run has in all.
    pub total: usize,
    /// How many tasks have been issued so far; task indices are issued in
    /// increasing order, so this is also the next index to issue.
    pub next: usize,
    /// How many issued tasks have not yet reported a result.
    pub in_flight: usize,
    /// The results collected so far, one per completed task, in arrival order.
    pub results: Vec<bool>,
    /// The cap on `in_flight`.
    pub limit: usize,
    /// The trace of issued task indices.
    pub issued: Ghost<Seq<int>>,
}

impl Dispatcher {
    /// The state invariant: concurrency never exceeds the limit, every issued
    /// task is either in flight or accounted for by exactly one result, and
    /// the issue trace lists the indices issued so far in order.
    pub open spec fn wf(self) -> bool {
        &&& self.limit >= 1
        &&& self.next <= self.total
        &&& self.results@.len() + self.in_flight == self.next
        &&& self.in_flight <= self.limit
        &&& self.issued@ == Seq::new(self.next as nat, |i: int| i)
    }

    /// A fresh run over `total` tasks under the given scheduling policy.
    pub fn new(total: usize, policy: SchedulingPolicy) -> (d: Self)
        requires
            policy.valid(),
        ensures
            d.wf(),
            d.total == total,
            d.next == 0,
            d.in_flight == 0,
            d.results@ == Seq::<bool>::empty(),
            d.limit == effective_limit(policy, total as int),
    {
        let limit = match policy {
            SchedulingPolicy::BoundedPool { worker_limit } => worker_limit,
            SchedulingPolicy::UnboundedSpawn => if total == 0 {
                1
            } else {
                total
            },
        };
        let d = Dispatcher {
            total,
            next: 0,
            in_flight: 0,
            results: Vec::new(),
            limit,
            issued: Ghost(Seq::empty()),
        };
        proof {
            assert(d.issued@ =~= Seq::new(0, |i: int| i));
        }
        d
    }

    /// Whether another task may start now: some task is still unissued and a
    /// worker slot is free.
    pub fn can_dispatch(&self) -> (r: bool)
        ensures
            r == (self.next < self.total && self.in_flight < self.limit),
    {
        self.next < self.total && self.in_flight < self.limit
    }

    /// Issues the next task. Each call hands out a fresh index, exactly once,
    /// in increasing order, and never lets more than `limit` tasks run at
    /// once.
    pub fn dispatch(&mut self) -> (task: usize)
        requires
            old(self).wf(),
            old(self).next < old(self).total,
            old(self).in_flight < old(self).limit,
        ensures
            final(self).wf(),
            task == old(self).next,
            final(self).next == old(self).next + 1,
            final(self).in_flight == old(self).in_flight + 1,
            final(self).in_flight <= final(self).limit,
            final(self).results@ == old(self).results@,
            final(self).total == old(self).total,
            final(self).limit == old(self).limit,
            final(self).issued@ == old(self).issued@.push(task as int),
    {
        let task = self.next;
        self.next = self.next + 1;
        self.in_flight = self.in_flight + 1;
        self.issued = Ghost(self.issued@.push(task as int));
        proof {
            assert(self.issued@ =~= Seq::new(self.next as nat, |i: int| i));
        }
        task
    }

    /// Records the outcome of one in-flight task and frees its worker slot.
    /// Pushes are atomic from the caller's side: each completed task reports
    /// exactly one result.
    pub fn complete(&mut self, reachable: bool)
        requires
            old(self).wf(),
            old(self).in_flight >= 1,
        ensures
            final(self).wf(),
            final(self).results@ == old(self).results@.push(reachable),
            final(self).in_flight == old(self).in_flight - 1,
            final(self).next == old(self).next,
            final(self).total == old(self).total,
            final(self).limit == old(self).limit,
            final(self).issued@ == old(self).issued@,
    {
        self.results.push(reachable);
        self.in_flight = self.in_flight - 1;
    }

    /// The join barrier: the run is complete exactly when one result per
    /// submitted task has been collected. In a well-formed dispatcher this
    /// also means no task is left in flight or unissued.
    pub fn is_complete(&self) -> (r: bool)
        ensures
            r == (self.results@.len() == self.total),
            self.wf() && r ==> self.in_flight == 0 && self.next == self.total,
    {
        self.results.len() == self.total
    }

    /// Hands the collected results over for aggregation. Only legal once the
    /// join barrier has been reached.
    pub fn into_results(self) -> (r: Vec<bool>)
        requires
            self.wf(),
            self.results@.len() == self.total,
        ensures
            r@ == self.results@,
            r@.len() == self.total,
    {
        self.results
    }
}

/// Every task of a run is issued exactly once: the issue trace of a
/// well-formed dispatcher lists the started task indices in order without
/// repetition, and once the run is complete it lists every task of the run.
pub proof fn lemma_each_task_issued_once(d: Dispatcher)
    requires
        d.wf(),
    ensures
        d.issued@.len() == d.next,
        forall|i: int| 0 <= i < d.issued@.len() ==> d.issued@[i] == i,
        forall|i: int, j: int|
            0 <= i < j < d.issued@.len() ==> d.issued@[i] != d.issued@[j],
        d.results@.len() == d.total ==> d.issued@ =~= Seq::new(d.total as nat, |i: int| i),
{
}

/// The concurrency bound: a well-formed dispatcher never has more tasks in
/// the network-call phase than its worker limit.
pub proof fn lemma_concurrency_bounded(d: Dispatcher)
    requires
        d.wf(),
    ensures
        d.in_flight <= d.limit,
{
}

} // verus!
