//! Units of work and outcomes of the fetch-and-archive pipeline.

use vstd::prelude::*;

verus! {

/// One unit of pending download work: where to fetch from, the file name it
/// is stored under inside the scratch directory, and its position in the
/// caller-supplied order.
#[derive(Debug)]
pub struct FetchTask {
    pub source_url: String,
    pub destination_name: String,
    pub sequence_index: u64,
}

impl Clone for FetchTask {
    fn clone(&self) -> (r: Self)
        ensures
            r == *self,
    {
        FetchTask {
            source_url: self.source_url.clone(),
            destination_name: self.destination_name.clone(),
            sequence_index: self.sequence_index,
        }
    }
}

/// The outcome of one successfully fetched task.
#[derive(Debug)]
pub struct FetchResult {
    pub sequence_index: u64,
    pub destination_name: String,
    pub byte_count: u64,
}

impl Clone for FetchResult {
    fn clone(&self) -> (r: Self)
        ensures
            r == *self,
    {
        FetchResult {
            sequence_index: self.sequence_index,
            destination_name: self.destination_name.clone(),
            byte_count: self.byte_count,
        }
    }
}

/// How the progress tracker measures advancement.
#[derive(Debug, Clone, Copy, PartialEq, Eq, Structural)]
pub enum ProgressMode {
    /// Completed tasks out of requested tasks.
    Count,
    /// Bytes present in the scratch directory out of expected total bytes.
    Bytes,
}

/// Caller-supplied knobs for one pipeline invocation.
#[derive(Debug, Clone)]
pub struct PipelineConfig {
    /// Upper bound on concurrent fetch workers.
    pub concurrency: u64,
    /// Upper bound on concurrent metadata probe workers; 0 disables the
    /// probe phase entirely.
    pub probe_concurrency: u64,
    /// Pre-flight cap on the probed total payload size, in bytes.
    pub size_ceiling_bytes: Option<u64>,
    /// Polling period of the progress tracker, in milliseconds.
    pub progress_interval_ms: u64,
    pub progress_mode: ProgressMode,
}

/// Final tally of one pipeline invocation: every requested task resolved to
/// exactly one of success (an entry of `completed`) or failure.
#[derive(Debug, Clone)]
pub struct PipelineOutcome {
    pub requested: usize,
    pub completed: Vec<FetchResult>,
    pub failed: usize,
}

impl PipelineOutcome {
    /// Accounting invariant: successes and failures partition the requested
    /// tasks.
    pub open spec fn wf(self) -> bool {
        self.completed@.len() + self.failed == self.requested
    }
}

/// A fatal pipeline error; per-task fetch and probe failures are not errors
/// but tallies.
#[derive(Debug, Clone, Copy, PartialEq, Eq, Structural)]
pub enum PipelineError {
    /// The probed total payload size exceeded the configured ceiling; holds
    /// the measured total for user-facing reporting.
    SizeCeilingExceeded(u64),
    /// Creating or finalizing the archive file failed.
    ArchiveWrite,
    /// Handing the finished artifact to the delivery collaborator failed.
    Delivery,
}

/// What the caller should do with a finished outcome.
#[derive(Debug, Clone, Copy, PartialEq, Eq, Structural)]
pub enum DeliveryVerdict {
    /// Deliver the artifact; `failed_count` is 0 exactly when no
    /// partial-failure notice is owed.
    Deliver { failed_count: usize },
    /// Nothing was fetched although work was requested: report an error
    /// instead of delivering an empty artifact.
    TotalFailure,
}

/// Decides whether a finished outcome is delivered or reported as a total
/// failure: an artifact with zero members is an error unless zero members
/// were requested.
pub fn delivery_verdict(outcome: &PipelineOutcome) -> (v: DeliveryVerdict)
    ensures
        outcome.completed@.len() == 0 && outcome.requested > 0 ==> v == DeliveryVerdict::TotalFailure,
        outcome.completed@.len() > 0 || outcome.requested == 0 ==> v == (DeliveryVerdict::Deliver {
            failed_count: outcome.failed,
        }),
{
    if outcome.completed.len() == 0 && outcome.requested > 0 {
        DeliveryVerdict::TotalFailure
    } else {
        DeliveryVerdict::Deliver { failed_count: outcome.failed }
    }
}

} // verus!
