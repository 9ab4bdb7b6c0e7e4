//! Shared FIFO of pending fetch tasks.
//!
//! The queue is filled once, before any worker starts, and then only drained:
//! there is no re-enqueue path, so a task that fails during fetch is never
//! retried. Exhaustion (`dequeue_one` returning `None`) is the sole
//! termination signal for workers.

use vstd::prelude::*;

use crate::task::FetchTask;

verus! {

/// FIFO of pending fetch tasks. `enqueued` never changes after
/// `enqueue_all`; `cursor` marks the boundary between consumed and pending
/// tasks, so consumption is monotone and each task leaves at most once.
pub struct TaskQueue {
    enqueued: Vec<FetchTask>,
    cursor: usize,
}

impl TaskQueue {
    /// Everything ever enqueued, in insertion order.
    pub closed spec fn enqueued_seq(self) -> Seq<FetchTask> {
        self.enqueued@
    }

    /// The tasks already handed out, in the order they were handed out.
    pub open spec fn consumed(self) -> Seq<FetchTask> {
        self.enqueued_seq().take(self.cursor_at() as int)
    }

    /// The tasks still waiting, front first.
    pub open spec fn pending(self) -> Seq<FetchTask> {
        self.enqueued_seq().skip(self.cursor_at() as int)
    }

    pub closed spec fn cursor_at(self) -> nat {
        self.cursor as nat
    }

    /// Insertion order agrees with `sequence_index` order.
    pub open spec fn indices_increasing(tasks: Seq<FetchTask>) -> bool {
        forall|i: int, j: int|
            0 <= i < j < tasks.len() ==> tasks[i].sequence_index < tasks[j].sequence_index
    }

    pub open spec fn wf(self) -> bool {
        &&& self.cursor_at() <= self.enqueued_seq().len()
        &&& Self::indices_increasing(self.enqueued_seq())
    }

    /// Builds the queue from the caller-supplied tasks, preserving their
    /// order. Called once, before any worker starts.
    pub fn enqueue_all(tasks: Vec<FetchTask>) -> (q: TaskQueue)
        requires
            Self::indices_increasing(tasks@),
        ensures
            q.wf(),
            q.enqueued_seq() == tasks@,
            q.consumed() == Seq::<FetchTask>::empty(),
            q.pending() == tasks@,
    {
        let q = TaskQueue { enqueued: tasks, cursor: 0 };
        proof {
            assert(q.consumed() =~= Seq::<FetchTask>::empty());
            assert(q.pending() =~= q.enqueued_seq());
        }
        q
    }

    /// Pops the front pending task, or reports exhaustion. Atomic
    /// pop-and-return under the caller's lock: no two callers can observe
    /// the same task.
    pub fn dequeue_one(&mut self) -> (r: Option<FetchTask>)
        requires
            old(self).wf(),
        ensures
            final(self).wf(),
            final(self).enqueued_seq() == old(self).enqueued_seq(),
            old(self).pending().len() == 0 ==> {
                &&& r is None
                &&& final(self).consumed() == old(self).consumed()
            },
            old(self).pending().len() > 0 ==> {
                &&& r == Some(old(self).pending()[0])
                &&& final(self).consumed() == old(self).consumed().push(old(self).pending()[0])
                &&& final(self).pending() == old(self).pending().skip(1)
            },
    {
        if self.cursor < self.enqueued.len() {
            let task = self.enqueued[self.cursor].clone();
            self.cursor = self.cursor + 1;
            proof {
                assert(final(self).consumed() =~= old(self).consumed().push(
                    old(self).pending()[0],
                ));
                assert(final(self).pending() =~= old(self).pending().skip(1));
            }
            Some(task)
        } else {
            proof {
                assert(final(self).consumed() =~= old(self).consumed());
            }
            None
        }
    }

    /// How many tasks were originally requested.
    pub fn requested_count(&self) -> (n: usize)
        ensures
            n == self.enqueued_seq().len(),
    {
        self.enqueued.len()
    }

    /// Consumed and pending tasks split the enqueued sequence.
    pub proof fn lemma_split(self)
        requires
            self.wf(),
        ensures
            self.consumed() + self.pending() == self.enqueued_seq(),
            self.consumed().len() + self.pending().len() == self.enqueued_seq().len(),
    {
        assert(self.consumed() + self.pending() =~= self.enqueued_seq());
    }

    /// The consumed count is the cursor, and it fits in a machine word.
    pub proof fn lemma_consumed_len_bound(self)
        requires
            self.wf(),
        ensures
            self.consumed().len() <= self.enqueued_seq().len(),
            self.consumed().len() <= usize::MAX,
    {
    }

    /// Whether every task has been handed out.
    pub fn is_exhausted(&self) -> (b: bool)
        requires
            self.wf(),
        ensures
            b == (self.pending().len() == 0),
    {
        self.cursor >= self.enqueued.len()
    }
}

/// At-most-once consumption: however many workers interleave their
/// `dequeue_one` calls, the tasks handed out are pairwise distinct — no two
/// observe the same `sequence_index` — and once the queue is exhausted the
/// number of handed-out tasks equals the number enqueued.
pub proof fn lemma_consumption_at_most_once(q: TaskQueue)
    requires
        q.wf(),
    ensures
        forall|i: int, j: int|
            0 <= i < j < q.consumed().len()
                ==> q.consumed()[i].sequence_index != q.consumed()[j].sequence_index,
        q.pending().len() == 0 ==> q.consumed().len() == q.enqueued_seq().len(),
{
}

} // verus!
