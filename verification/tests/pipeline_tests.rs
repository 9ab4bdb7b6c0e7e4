use bulkfetch::archive::{build_archive, order_for_archive, ArchiveMember};
use bulkfetch::pipeline::{plan_fetch_phase, run_fetch_phase};
use bulkfetch::pool::{fetch_worker_count, PoolState};
use bulkfetch::probe::{preflight_check, probe_worker_count, ProbeTotal};
use bulkfetch::progress::{format_snapshot, ProgressSnapshot, ProgressTracker};
use bulkfetch::queue::TaskQueue;
use std::io::Read;
use bulkfetch::task::{
    DeliveryVerdict, FetchResult, FetchTask, PipelineConfig, PipelineError, PipelineOutcome,
    ProgressMode, delivery_verdict,
};

fn task(i: u64, name: &str) -> FetchTask {
    FetchTask {
        source_url: format!("https://example.org/{}", name),
        destination_name: name.to_string(),
        sequence_index: i,
    }
}

fn config(concurrency: u64, probe: u64, ceiling: Option<u64>) -> PipelineConfig {
    PipelineConfig {
        concurrency,
        probe_concurrency: probe,
        size_ceiling_bytes: ceiling,
        progress_interval_ms: 1000,
        progress_mode: ProgressMode::Count,
    }
}

#[test]
fn worker_count_is_min_of_concurrency_and_tasks() {
    assert_eq!(fetch_worker_count(4, 12), 4);
    assert_eq!(fetch_worker_count(8, 3), 3);
    assert_eq!(fetch_worker_count(4, 4), 4);
    assert_eq!(fetch_worker_count(4, 0), 0);
    assert_eq!(probe_worker_count(8, 2), 2);
    assert_eq!(probe_worker_count(0, 5), 0);
}

#[test]
fn empty_request_completes_immediately() {
    let outcome = run_fetch_phase(Vec::new(), &Vec::new());
    assert_eq!(outcome.requested, 0);
    assert_eq!(outcome.completed.len(), 0);
    assert_eq!(outcome.failed, 0);
}

#[test]
fn queue_hands_each_task_out_exactly_once() {
    let tasks: Vec<FetchTask> = (0..7).map(|i| task(i, &format!("{:02}", i))).collect();
    let mut queue = TaskQueue::enqueue_all(tasks);
    let mut seen: Vec<u64> = Vec::new();
    while let Some(t) = queue.dequeue_one() {
        seen.push(t.sequence_index);
    }
    assert!(queue.dequeue_one().is_none());
    assert_eq!(seen.len(), 7);
    for a in 0..seen.len() {
        for b in (a + 1)..seen.len() {
            assert_ne!(seen[a], seen[b]);
        }
    }
}

#[test]
fn partial_failure_accounting() {
    // 5 tasks, tasks 1 and 3 forced to fail.
    let tasks: Vec<FetchTask> = (0..5).map(|i| task(i, &format!("{:02}", i))).collect();
    let outcomes = vec![Some(10), None, Some(30), None, Some(50)];
    let outcome = run_fetch_phase(tasks, &outcomes);
    assert_eq!(outcome.requested, 5);
    assert_eq!(outcome.completed.len(), 3);
    assert_eq!(outcome.failed, 2);
    let members: Vec<ArchiveMember> = outcome
        .completed
        .iter()
        .map(|r| ArchiveMember { name: r.destination_name.clone(), data: Some(vec![1, 2, 3]) })
        .collect();
    let bytes = build_archive(&members).expect("archive should build");
    assert!(!bytes.is_empty());
}

#[test]
fn interleaved_pool_accounting() {
    // Two workers interleaving: dequeue, dequeue, then resolve out of order.
    let tasks: Vec<FetchTask> = (0..4).map(|i| task(i, &format!("{:02}", i))).collect();
    let queue = TaskQueue::enqueue_all(tasks);
    let mut pool = PoolState::start(queue);
    let a = pool.next_task().unwrap();
    let b = pool.next_task().unwrap();
    pool.record_success(&b, 5);
    pool.record_failure();
    let c = pool.next_task().unwrap();
    let d = pool.next_task().unwrap();
    assert!(pool.next_task().is_none());
    pool.record_success(&c, 7);
    pool.record_success(&d, 9);
    let _ = a; // resolved by the record_failure above
    let outcome = pool.into_outcome();
    assert_eq!(outcome.requested, 4);
    assert_eq!(outcome.completed.len(), 3);
    assert_eq!(outcome.failed, 1);
}

#[test]
fn archive_order_ignores_completion_order() {
    // Completion order 3,1,2 -> archive order 1,2,3.
    let completed = vec![
        FetchResult { sequence_index: 3, destination_name: "03".into(), byte_count: 3 },
        FetchResult { sequence_index: 1, destination_name: "01".into(), byte_count: 1 },
        FetchResult { sequence_index: 2, destination_name: "02".into(), byte_count: 2 },
    ];
    let ordered = order_for_archive(&completed);
    let names: Vec<&str> = ordered.iter().map(|r| r.destination_name.as_str()).collect();
    assert_eq!(names, vec!["01", "02", "03"]);
}

#[test]
fn archive_bytes_identical_for_any_completion_order() {
    let one = vec![
        FetchResult { sequence_index: 2, destination_name: "b".into(), byte_count: 1 },
        FetchResult { sequence_index: 1, destination_name: "a".into(), byte_count: 1 },
    ];
    let two = vec![
        FetchResult { sequence_index: 1, destination_name: "a".into(), byte_count: 1 },
        FetchResult { sequence_index: 2, destination_name: "b".into(), byte_count: 1 },
    ];
    let build = |rs: &Vec<FetchResult>| {
        let ordered = order_for_archive(rs);
        let members: Vec<ArchiveMember> = ordered
            .iter()
            .map(|r| ArchiveMember {
                name: r.destination_name.clone(),
                data: Some(r.destination_name.as_bytes().to_vec()),
            })
            .collect();
        build_archive(&members).expect("archive should build")
    };
    assert_eq!(build(&one), build(&two));
}

#[test]
fn archive_members_decode_in_task_order() {
    // Scenario: 12 tasks, concurrency 4, randomized completion order.
    let mut tasks = Vec::new();
    for i in 1..=12u64 {
        tasks.push(task(i, &format!("{:02}", i)));
    }
    let cfg = config(4, 0, None);
    let workers = plan_fetch_phase(&cfg, tasks.len() as u64, None).expect("no ceiling set");
    assert_eq!(workers, 4);
    // Drain through the pool in a scrambled completion order.
    let queue = TaskQueue::enqueue_all(tasks);
    let mut pool = PoolState::start(queue);
    let mut handed = Vec::new();
    while let Some(t) = pool.next_task() {
        handed.push(t);
    }
    while let Some(t) = handed.pop() {
        // resolve in reverse dequeue order
        pool.record_success(&t, 1);
    }
    let outcome = pool.into_outcome();
    assert_eq!(outcome.completed.len(), 12);
    let ordered = order_for_archive(&outcome.completed);
    let members: Vec<ArchiveMember> = ordered
        .iter()
        .map(|r| ArchiveMember {
            name: r.destination_name.clone(),
            data: Some(r.destination_name.as_bytes().to_vec()),
        })
        .collect();
    let bytes = build_archive(&members).expect("archive should build");
    // Read the archive back: member order must be 01..12.
    let mut zip = zip::ZipArchive::new(std::io::Cursor::new(bytes)).expect("valid archive");
    assert_eq!(zip.len(), 12);
    for i in 0..12 {
        let entry = zip.by_index(i).expect("entry");
        assert_eq!(entry.name(), format!("{:02}", i + 1));
    }
}

#[test]
fn archive_skips_members_without_payload() {
    let members = vec![
        ArchiveMember { name: "a".into(), data: Some(vec![1]) },
        ArchiveMember { name: "b".into(), data: None },
        ArchiveMember { name: "c".into(), data: Some(vec![3]) },
    ];
    let bytes = build_archive(&members).expect("archive should build");
    let mut zip = zip::ZipArchive::new(std::io::Cursor::new(bytes)).expect("valid archive");
    assert_eq!(zip.len(), 2);
    assert_eq!(zip.by_index(0).unwrap().name(), "a");
    assert_eq!(zip.by_index(1).unwrap().name(), "c");
}

#[test]
fn archive_member_contents_survive() {
    let members = vec![ArchiveMember { name: "payload.bin".into(), data: Some(vec![7, 8, 9]) }];
    let bytes = build_archive(&members).expect("archive should build");
    let mut zip = zip::ZipArchive::new(std::io::Cursor::new(bytes)).expect("valid archive");
    let mut entry = zip.by_index(0).expect("entry");
    let mut data = Vec::new();
    entry.read_to_end(&mut data).expect("read");
    assert_eq!(data, vec![7, 8, 9]);
}

#[test]
fn archive_write_error_on_duplicate_member_name() {
    let members = vec![
        ArchiveMember { name: "same".into(), data: Some(vec![1]) },
        ArchiveMember { name: "same".into(), data: Some(vec![2]) },
    ];
    assert_eq!(build_archive(&members), Err(PipelineError::ArchiveWrite));
}

#[test]
fn progress_deduplicates_identical_snapshots() {
    let mut tracker = ProgressTracker::new();
    let text = format_snapshot(&ProgressSnapshot { current: 3, expected: 12 });
    assert_eq!(text, "3/12");
    assert!(tracker.observe(text.clone()));
    assert!(!tracker.observe(text));
    assert!(tracker.observe("4/12".to_string()));
}

#[test]
fn preflight_aborts_before_any_worker() {
    let total = {
        let mut t = ProbeTotal::new();
        t.add_size(Some(30_000_000));
        t.add_size(None); // failed probe counts as zero
        t.add_size(Some(25_000_000));
        t.total_bytes
    };
    assert_eq!(total, 55_000_000);
    assert_eq!(
        preflight_check(total, Some(49_000_000)),
        Err(PipelineError::SizeCeilingExceeded(55_000_000))
    );
    assert_eq!(preflight_check(total, None), Ok(()));
    assert_eq!(preflight_check(48_000_000, Some(49_000_000)), Ok(()));
    let cfg = config(4, 8, Some(49_000_000));
    assert_eq!(
        plan_fetch_phase(&cfg, 10, Some(total)),
        Err(PipelineError::SizeCeilingExceeded(total))
    );
    assert_eq!(plan_fetch_phase(&cfg, 10, Some(48_000_000)), Ok(4));
}

#[test]
fn probe_total_saturates() {
    let mut t = ProbeTotal::new();
    t.add_size(Some(u64::MAX - 1));
    t.add_size(Some(5));
    assert_eq!(t.total_bytes, u64::MAX);
}

#[test]
fn five_tasks_no_failures() {
    // Scenario: 5 tasks, 0 forced failures.
    let tasks: Vec<FetchTask> = (0..5).map(|i| task(i, &format!("{:02}", i))).collect();
    let outcomes = vec![Some(1), Some(2), Some(3), Some(4), Some(5)];
    let outcome = run_fetch_phase(tasks, &outcomes);
    assert_eq!(outcome.completed.len(), 5);
    assert_eq!(outcome.failed, 0);
    assert_eq!(delivery_verdict(&outcome), DeliveryVerdict::Deliver { failed_count: 0 });
}

#[test]
fn total_failure_is_not_delivered() {
    let outcome = PipelineOutcome { requested: 3, completed: Vec::new(), failed: 3 };
    assert_eq!(delivery_verdict(&outcome), DeliveryVerdict::TotalFailure);
    let empty = PipelineOutcome { requested: 0, completed: Vec::new(), failed: 0 };
    assert_eq!(delivery_verdict(&empty), DeliveryVerdict::Deliver { failed_count: 0 });
}
