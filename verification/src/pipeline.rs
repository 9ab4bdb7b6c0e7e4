//! The pipeline's phase gate and its drain protocol.
//!
//! `plan_fetch_phase` is the single decision point between the optional
//! probe phase and the fetch phase: it either rejects the invocation before
//! any fetch worker exists, or fixes the number of workers to spawn.
//! `run_fetch_phase` drains a queue through the pool accounting one task at
//! a time; the caller's scheduler may instead run the same protocol from
//! several workers, each alternating `next_task` with exactly one
//! `record_success` or `record_failure`.

use vstd::prelude::*;

use crate::pool::{fetch_worker_count, PoolState};
use crate::queue::TaskQueue;
use crate::task::{FetchResult, FetchTask, PipelineConfig, PipelineError, PipelineOutcome};

verus! {

/// Decides whether the fetch phase may start, and with how many workers.
/// When a probe total was measured and a ceiling is configured, exceeding
/// the ceiling rejects the invocation — so no fetch worker is ever spawned
/// for it — and reports the measured total. Otherwise the worker count is
/// the concurrency bound capped by the task count.
pub fn plan_fetch_phase(config: &PipelineConfig, task_count: u64, probed_total: Option<u64>)
    -> (r: Result<u64, PipelineError>)
    ensures
        r is Err <==> (probed_total is Some && config.size_ceiling_bytes is Some
            && probed_total->0 > config.size_ceiling_bytes->0),
        r is Err ==> r->Err_0 == PipelineError::SizeCeilingExceeded(probed_total->0),
        r is Ok ==> r->Ok_0 == if config.concurrency <= task_count {
            config.concurrency as int
        } else {
            task_count as int
        },
{
    if let Some(total) = probed_total {
        if let Err(e) = crate::probe::preflight_check(total, config.size_ceiling_bytes) {
            return Err(e);
        }
    }
    Ok(fetch_worker_count(config.concurrency, task_count))
}

/// The results the fetch phase owes for `tasks` when task `i` succeeds
/// exactly when `outcomes[i]` carries its byte count: the successes, in
/// task order.
pub open spec fn successes_of(tasks: Seq<FetchTask>, outcomes: Seq<Option<u64>>) -> Seq<
    FetchResult,
>
    recommends
        tasks.len() == outcomes.len(),
    decreases tasks.len(),
{
    if tasks.len() == 0 {
        Seq::empty()
    } else {
        let rest = successes_of(tasks.drop_last(), outcomes.drop_last());
        match outcomes.last() {
            Some(bytes) => rest.push(
                FetchResult {
                    sequence_index: tasks.last().sequence_index,
                    destination_name: tasks.last().destination_name,
                    byte_count: bytes,
                },
            ),
            None => rest,
        }
    }
}

/// How many of the outcomes are failures.
pub open spec fn failure_count(outcomes: Seq<Option<u64>>) -> nat
    decreases outcomes.len(),
{
    if outcomes.len() == 0 {
        0
    } else {
        failure_count(outcomes.drop_last()) + if outcomes.last() is None {
            1nat
        } else {
            0nat
        }
    }
}

/// A request of no tasks completes immediately: nothing succeeds and
/// nothing fails.
pub proof fn lemma_empty_request()
    ensures
        successes_of(Seq::<FetchTask>::empty(), Seq::<Option<u64>>::empty()) == Seq::<
            FetchResult,
        >::empty(),
        failure_count(Seq::<Option<u64>>::empty()) == 0,
{
}

/// Partial-failure accounting: over any run, successes and failures
/// partition the requested tasks — when `k` of `n` fetches fail, exactly
/// `n - k` results are completed.
pub proof fn lemma_partition(tasks: Seq<FetchTask>, outcomes: Seq<Option<u64>>)
    requires
        tasks.len() == outcomes.len(),
    ensures
        successes_of(tasks, outcomes).len() + failure_count(outcomes) == tasks.len(),
    decreases tasks.len(),
{
    if tasks.len() > 0 {
        lemma_partition(tasks.drop_last(), outcomes.drop_last());
    }
}

/// Drains the whole queue through the pool accounting, one task at a time,
/// resolving task `i` as a success exactly when `outcomes[i]` carries its
/// byte count. Partial-failure accounting follows: when `k` of `n` fetches
/// fail, `n - k` results are completed and `failed == k`, and every task
/// resolved exactly once.
pub fn run_fetch_phase(tasks: Vec<FetchTask>, outcomes: &Vec<Option<u64>>) -> (outcome:
    PipelineOutcome)
    requires
        TaskQueue::indices_increasing(tasks@),
        outcomes@.len() == tasks@.len(),
    ensures
        outcome.wf(),
        outcome.requested == tasks@.len(),
        outcome.completed@ == successes_of(tasks@, outcomes@),
        outcome.failed == failure_count(outcomes@),
{
    let n = tasks.len();
    let ghost tasks_seq = tasks@;
    let queue = TaskQueue::enqueue_all(tasks);
    let mut pool = PoolState::start(queue);
    let mut i: usize = 0;
    proof {
        assert(tasks_seq.take(0) =~= Seq::<FetchTask>::empty());
        assert(outcomes@.take(0) =~= Seq::<Option<u64>>::empty());
    }
    loop
        invariant
            pool.wf(),
            pool.queue.enqueued_seq() == tasks_seq,
            tasks_seq.len() == n,
            outcomes@.len() == n,
            0 <= i <= n,
            pool.queue.consumed() == tasks_seq.take(i as int),
            pool.in_flight() == 0,
            pool.completed@ == successes_of(tasks_seq.take(i as int), outcomes@.take(i as int)),
            pool.failed == failure_count(outcomes@.take(i as int)),
            i < n ==> forall|q: int|
                0 <= q < pool.completed@.len()
                    ==> (#[trigger] pool.completed@[q]).sequence_index
                    < tasks_seq[i as int].sequence_index,
        ensures
            pool.wf(),
            pool.queue.enqueued_seq() == tasks_seq,
            pool.queue.pending().len() == 0,
            pool.in_flight() == 0,
            i == n,
            pool.completed@ == successes_of(tasks_seq.take(i as int), outcomes@.take(i as int)),
            pool.failed == failure_count(outcomes@.take(i as int)),
        decreases n - i,
    {
        let next = pool.next_task();
        let Some(task) = next else {
            proof {
                pool.queue.lemma_split();
                assert(tasks_seq.take(i as int).len() == i);
            }
            break ;
        };
        proof {
            pool.queue.lemma_split();
            assert(i < n);
            assert(pool.queue.consumed() =~= tasks_seq.take(i + 1));
            assert(tasks_seq.take(i + 1).last() == tasks_seq[i as int]);
            assert(task == tasks_seq[i as int]);
        }
        let ghost pre_completed = pool.completed@;
        match outcomes[i] {
            Some(bytes) => {
                proof {
                    assert(pool.queue.consumed()[i as int] == task);
                    assert forall|q: int| 0 <= q < pool.completed@.len() implies (
                    #[trigger] pool.completed@[q]).sequence_index != task.sequence_index by {
                        assert(pool.completed@[q].sequence_index
                            < tasks_seq[i as int].sequence_index);
                    }
                }
                pool.record_success(&task, bytes);
                proof {
                    let last = pool.completed@.last();
                    assert(last == FetchResult {
                        sequence_index: tasks_seq[i as int].sequence_index,
                        destination_name: tasks_seq[i as int].destination_name,
                        byte_count: bytes,
                    });
                    assert(pool.completed@ =~= pre_completed.push(last));
                }
            },
            None => {
                pool.record_failure();
            },
        }
        i = i + 1;
        proof {
            assert(tasks_seq.take(i as int).drop_last() =~= tasks_seq.take(i as int - 1));
            assert(outcomes@.take(i as int).drop_last() =~= outcomes@.take(i as int - 1));
            assert(tasks_seq.take(i as int).last() == tasks_seq[i as int - 1]);
            assert(outcomes@.take(i as int).last() == outcomes@[i as int - 1]);
            assert(pool.completed@ =~= successes_of(
                tasks_seq.take(i as int),
                outcomes@.take(i as int),
            ));
            if i < n {
                assert forall|q: int| 0 <= q < pool.completed@.len() implies (
                #[trigger] pool.completed@[q]).sequence_index
                    < tasks_seq[i as int].sequence_index by {
                    assert(tasks_seq[i as int - 1].sequence_index
                        < tasks_seq[i as int].sequence_index);
                    if q < pre_completed.len() {
                        assert(pool.completed@[q] == pre_completed[q]);
                        assert(pre_completed[q].sequence_index
                            < tasks_seq[i as int - 1].sequence_index);
                    }
                }
            }
        }
    }
    proof {
        assert(tasks_seq.take(n as int) =~= tasks_seq);
        assert(outcomes@.take(n as int) =~= outcomes@);
    }
    pool.into_outcome()
}

} // verus!
