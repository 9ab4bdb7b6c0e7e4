//! Pre-flight metadata probe: sums expected payload sizes before any byte
//! is downloaded, so an over-budget operation can be rejected before any
//! bandwidth is spent on it.

use vstd::prelude::*;

use crate::task::PipelineError;

verus! {

/// Number of probe workers to spawn for `task_count` tasks: never more than
/// there are tasks. A configured bound of 0 disables the probe phase.
pub fn probe_worker_count(probe_concurrency: u64, task_count: u64) -> (n: u64)
    ensures
        n == if probe_concurrency <= task_count {
            probe_concurrency as int
        } else {
            task_count as int
        },
{
    if probe_concurrency <= task_count {
        probe_concurrency
    } else {
        task_count
    }
}

/// Running total of probed payload sizes, shared by the probe workers under
/// the caller's lock.
pub struct ProbeTotal {
    pub total_bytes: u64,
}

impl ProbeTotal {
    pub fn new() -> (t: ProbeTotal)
        ensures
            t.total_bytes == 0,
    {
        ProbeTotal { total_bytes: 0 }
    }

    /// Adds one task's probed size; an unavailable size — a failed probe or
    /// a response without a length — contributes 0. The sum saturates
    /// rather than wrap: a saturated total can only over-report, never
    /// sneak under a ceiling.
    pub fn add_size(&mut self, size: Option<u64>)
        ensures
            final(self).total_bytes == if old(self).total_bytes + size_or_zero(size)
                <= u64::MAX {
                old(self).total_bytes + size_or_zero(size)
            } else {
                u64::MAX as int
            },
    {
        let s = match size {
            Some(s) => s,
            None => 0,
        };
        self.total_bytes = if self.total_bytes <= u64::MAX - s {
            self.total_bytes + s
        } else {
            u64::MAX
        };
    }
}

/// The probed size of one task, with 0 standing for "unavailable".
pub open spec fn size_or_zero(size: Option<u64>) -> nat {
    match size {
        Some(s) => s as nat,
        None => 0,
    }
}

/// The abort-before-spend gate: rejects the invocation, reporting the
/// measured total, exactly when a ceiling is configured and the probed
/// total exceeds it.
pub fn preflight_check(probed_total: u64, ceiling: Option<u64>) -> (r: Result<
    (),
    PipelineError,
>)
    ensures
        r is Err <==> (ceiling is Some && probed_total > ceiling->0),
        r is Err ==> r->Err_0 == PipelineError::SizeCeilingExceeded(probed_total),
{
    match ceiling {
        Some(c) => {
            if probed_total > c {
                Err(PipelineError::SizeCeilingExceeded(probed_total))
            } else {
                Ok(())
            }
        },
        None => Ok(()),
    }
}

} // verus!
