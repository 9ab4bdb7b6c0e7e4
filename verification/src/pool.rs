//! Accounting state of the bounded fetch worker pool.
//!
//! The pool's concurrency lives with the caller's scheduler; what is tracked
//! here is the part with invariants: how many workers to spawn, and the
//! resolution of every dequeued task into exactly one of success or failure.
//! A worker loops: dequeue one task; if the queue is exhausted, terminate;
//! otherwise fetch, then report the outcome here. A failure is final — the
//! task is never re-enqueued — and never halts the other workers.

use vstd::prelude::*;

use crate::queue::TaskQueue;
use crate::task::{FetchResult, FetchTask, PipelineOutcome};

verus! {

/// Number of fetch workers to spawn for `task_count` tasks under a
/// configured concurrency bound: never more workers than tasks, and some
/// worker whenever both the bound and the queue are non-empty.
pub fn fetch_worker_count(concurrency: u64, task_count: u64) -> (n: u64)
    ensures
        n == if concurrency <= task_count {
            concurrency as int
        } else {
            task_count as int
        },
{
    if concurrency <= task_count {
        concurrency
    } else {
        task_count
    }
}

/// The shared mutable state a pool invocation drains into: the task queue,
/// the append-only list of completed results, and the failure tally.
///
/// Entries of `completed` are in completion order, not task order; the
/// archive phase re-establishes task order later. The well-formedness
/// invariant ties every completed entry to a distinct dequeued task, so that
/// once the queue is drained and every dequeued task is resolved, successes
/// and failures partition the requested tasks.
pub struct PoolState {
    pub queue: TaskQueue,
    pub completed: Vec<FetchResult>,
    pub failed: usize,
}

impl PoolState {
    /// Tasks handed out whose outcome has not been reported yet.
    pub open spec fn in_flight(self) -> int {
        self.queue.consumed().len() - self.completed@.len() - self.failed
    }

    /// A completed entry for task `t`: same position in the caller-supplied
    /// order, stored under the task's destination name.
    pub open spec fn result_of(r: FetchResult, t: FetchTask) -> bool {
        r.sequence_index == t.sequence_index && r.destination_name == t.destination_name
    }

    /// `r` is the result of one of the tasks in `consumed`.
    pub open spec fn from_some_task(r: FetchResult, consumed: Seq<FetchTask>) -> bool {
        exists|j: int| 0 <= j < consumed.len() && Self::result_of(r, #[trigger] consumed[j])
    }

    pub open spec fn wf(self) -> bool {
        &&& self.queue.wf()
        &&& self.in_flight() >= 0
        &&& forall|i: int|
            0 <= i < self.completed@.len() ==> Self::from_some_task(
                #[trigger] self.completed@[i],
                self.queue.consumed(),
            )
        &&& forall|i: int, j: int|
            0 <= i < j < self.completed@.len()
                ==> self.completed@[i].sequence_index != self.completed@[j].sequence_index
    }

    /// Opens the accounting for a freshly built queue.
    pub fn start(queue: TaskQueue) -> (s: PoolState)
        requires
            queue.wf(),
            queue.consumed().len() == 0,
        ensures
            s.wf(),
            s.queue == queue,
            s.completed@ == Seq::<FetchResult>::empty(),
            s.failed == 0,
    {
        PoolState { queue, completed: Vec::new(), failed: 0 }
    }

    /// A worker asks for its next task: pops the front of the queue, or
    /// reports exhaustion, which is the worker's signal to terminate.
    pub fn next_task(&mut self) -> (r: Option<FetchTask>)
        requires
            old(self).wf(),
        ensures
            final(self).wf(),
            final(self).completed@ == old(self).completed@,
            final(self).failed == old(self).failed,
            final(self).queue.enqueued_seq() == old(self).queue.enqueued_seq(),
            old(self).queue.pending().len() == 0 ==> {
                &&& r is None
                &&& final(self).queue.consumed() == old(self).queue.consumed()
            },
            old(self).queue.pending().len() > 0 ==> {
                &&& r == Some(old(self).queue.pending()[0])
                &&& final(self).queue.consumed() == old(self).queue.consumed().push(
                    old(self).queue.pending()[0],
                )
                &&& final(self).queue.pending() == old(self).queue.pending().skip(1)
                &&& final(self).in_flight() == old(self).in_flight() + 1
            },
    {
        let r = self.queue.dequeue_one();
        proof {
            let c = self.completed@;
            let consumed = self.queue.consumed();
            assert forall|i: int| 0 <= i < c.len() implies Self::from_some_task(
                #[trigger] c[i],
                consumed,
            ) by {
                assert(Self::from_some_task(c[i], old(self).queue.consumed()));
                let j0 = choose|j: int|
                    0 <= j < old(self).queue.consumed().len() && Self::result_of(
                        c[i],
                        old(self).queue.consumed()[j],
                    );
                assert(consumed[j0] == old(self).queue.consumed()[j0]);
                assert(0 <= j0 < consumed.len() && Self::result_of(c[i], consumed[j0]));
            }
        }
        r
    }

    /// A worker's fetch of `task` succeeded: append its result to the
    /// completed list. The task must be one this pool handed out, still
    /// unresolved, so each task is counted at most once.
    pub fn record_success(&mut self, task: &FetchTask, byte_count: u64)
        requires
            old(self).wf(),
            old(self).in_flight() > 0,
            exists|j: int|
                0 <= j < old(self).queue.consumed().len() && old(self).queue.consumed()[j]
                    == *task,
            forall|i: int|
                0 <= i < old(self).completed@.len()
                    ==> (#[trigger] old(self).completed@[i]).sequence_index
                    != task.sequence_index,
        ensures
            final(self).wf(),
            final(self).queue == old(self).queue,
            final(self).failed == old(self).failed,
            final(self).completed@.len() == old(self).completed@.len() + 1,
            final(self).completed@.take(old(self).completed@.len() as int) == old(
                self,
            ).completed@,
            Self::result_of(final(self).completed@.last(), *task),
            final(self).completed@.last().byte_count == byte_count,
    {
        let result = FetchResult {
            sequence_index: task.sequence_index,
            destination_name: task.destination_name.clone(),
            byte_count,
        };
        self.completed.push(result);
        proof {
            let c = self.completed@;
            let consumed = self.queue.consumed();
            assert forall|i: int| 0 <= i < c.len() implies Self::from_some_task(
                #[trigger] c[i],
                consumed,
            ) by {
                if i < c.len() - 1 {
                    assert(c[i] == old(self).completed@[i]);
                    assert(Self::from_some_task(old(self).completed@[i], consumed));
                } else {
                    let j = choose|j: int| 0 <= j < consumed.len() && consumed[j] == *task;
                    assert(0 <= j < consumed.len() && Self::result_of(c[i], consumed[j]));
                }
            }
        }
    }

    /// A worker's fetch of a dequeued task failed: the failure is final and
    /// only reflected in the tally.
    pub fn record_failure(&mut self)
        requires
            old(self).wf(),
            old(self).in_flight() > 0,
        ensures
            final(self).wf(),
            final(self).queue == old(self).queue,
            final(self).completed@ == old(self).completed@,
            final(self).failed == old(self).failed + 1,
    {
        proof {
            self.queue.lemma_consumed_len_bound();
        }
        self.failed = self.failed + 1;
        proof {
            let c = self.completed@;
            let consumed = self.queue.consumed();
            assert forall|i: int| 0 <= i < c.len() implies Self::from_some_task(
                #[trigger] c[i],
                consumed,
            ) by {
                assert(c[i] == old(self).completed@[i]);
                assert(Self::from_some_task(old(self).completed@[i], consumed));
            }
        }
    }

    /// Closes the accounting once the queue is drained and every dequeued
    /// task has been resolved: successes and failures partition the
    /// requested tasks.
    pub fn into_outcome(self) -> (outcome: PipelineOutcome)
        requires
            self.wf(),
            self.queue.pending().len() == 0,
            self.in_flight() == 0,
        ensures
            outcome.wf(),
            outcome.requested == self.queue.enqueued_seq().len(),
            outcome.completed@ == self.completed@,
            outcome.failed == self.failed,
    {
        let requested = self.queue.requested_count();
        PipelineOutcome { requested, completed: self.completed, failed: self.failed }
    }
}

} // verus!
