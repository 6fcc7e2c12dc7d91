use coordinator::aggregate::{best_index, best_result, layout_rows};
use coordinator::data::{Key, Keyboard, KEY_COUNT};
use coordinator::poll::{PollAction, WorkerStatus};
use coordinator::state::{AppState, JobStatus, StartJobError};

/// A full set of 47 keys whose first key is `marker`, so layouts can be
/// told apart in assertions.
fn keys_with_marker(marker: char) -> Vec<Key> {
    let mut keys = Vec::new();
    keys.push(Key { lower: marker, upper: marker });
    for i in 1..KEY_COUNT {
        let c = (b'a' + (i % 26) as u8) as char;
        keys.push(Key { lower: c, upper: c.to_ascii_uppercase() });
    }
    keys
}

fn kb(score: u64, marker: char) -> Keyboard {
    Keyboard { score, keys: keys_with_marker(marker) }
}

/// Order-preserving integer key for a finite float score, as the transport
/// layer computes it: lower score, lower key.
fn score_key(x: f32) -> u64 {
    let bits = x.to_bits();
    let flipped = if bits & 0x8000_0000 != 0 { !bits } else { bits | 0x8000_0000 };
    flipped as u64
}

fn expect_assignment(action: PollAction) -> coordinator::poll::BatchAssignment {
    match action {
        PollAction::Assign { assignment } => assignment,
        PollAction::Sleep => panic!("expected an assignment, poll loop was told to sleep"),
        PollAction::Terminate => panic!("expected an assignment, poll loop was told to stop"),
    }
}

#[test]
fn default_state_is_init() {
    let state = AppState::default();
    assert_eq!(state.hosts.len(), 0);
    assert!(!state.running);
    assert_eq!(state.completed, 0);
    assert_eq!(state.assigned, 0);
    assert_eq!(state.keyboards.len(), 0);
    assert_eq!(state.get_status(), JobStatus::Init);
}

#[test]
fn add_worker_appends_in_order_with_duplicates() {
    let mut state = AppState::default();
    state.add_worker("http://w1".to_string());
    state.add_worker("http://w2".to_string());
    state.add_worker("http://w1".to_string());
    assert_eq!(state.hosts, vec!["http://w1", "http://w2", "http://w1"]);
}

#[test]
fn start_job_snapshot_is_registry_at_start_time() {
    let mut state = AppState::default();
    state.add_worker("http://w1".to_string());
    state.add_worker("http://w2".to_string());
    let snapshot = state
        .start_job("job-a".to_string(), 10, 2)
        .expect("no job was running");
    assert_eq!(snapshot, vec!["http://w1", "http://w2"]);

    // A worker added afterwards grows the registry but touches nothing of
    // the running job; the snapshot already taken is what the job drives.
    state.add_worker("http://w3".to_string());
    assert_eq!(snapshot, vec!["http://w1", "http://w2"]);
    assert_eq!(state.hosts.len(), 3);
    assert!(state.running);
    assert_eq!(state.job_name, "job-a");
    assert_eq!(state.batches, 2);
    assert_eq!(state.batch_size, 10);
    assert_eq!(state.completed, 0);
    assert_eq!(state.assigned, 0);
}

#[test]
fn start_job_while_running_is_rejected_unchanged() {
    let mut state = AppState::default();
    state.add_worker("http://w1".to_string());
    state.start_job("job-a".to_string(), 10, 2).expect("no job was running");
    let host = "http://w1".to_string();
    state.poll_step(&host, WorkerStatus::Init);
    state.poll_step(&host, WorkerStatus::BatchComplete { keyboards: vec![kb(7, 'q')] });

    let before_completed = state.completed;
    let before_assigned = state.assigned;
    let before_results = state.keyboards.len();
    let r = state.start_job("job-b".to_string(), 99, 99);
    assert_eq!(r.unwrap_err(), StartJobError::JobAlreadyRunning);
    assert_eq!(state.job_name, "job-a");
    assert_eq!(state.batches, 2);
    assert_eq!(state.batch_size, 10);
    assert_eq!(state.completed, before_completed);
    assert_eq!(state.assigned, before_assigned);
    assert_eq!(state.keyboards.len(), before_results);
    assert!(state.running);
}

#[test]
fn get_status_is_idempotent() {
    let mut state = AppState::default();
    assert_eq!(state.get_status(), state.get_status());

    state.add_worker("http://w1".to_string());
    state.start_job("job-a".to_string(), 10, 1).expect("no job was running");
    assert_eq!(state.get_status(), JobStatus::Running { name: "job-a".to_string() });
    assert_eq!(state.get_status(), state.get_status());

    let host = "http://w1".to_string();
    state.poll_step(&host, WorkerStatus::Init);
    state.poll_step(&host, WorkerStatus::BatchComplete { keyboards: vec![kb(3, 'x')] });
    assert_eq!(state.get_status(), JobStatus::Complete { name: "job-a".to_string() });
    assert_eq!(state.get_status(), state.get_status());
}

#[test]
fn best_result_of_nothing_is_nothing() {
    let keyboards: Vec<Keyboard> = vec![];
    assert!(best_result(&keyboards).is_none());
    assert!(best_index(&keyboards).is_none());
}

#[test]
fn best_result_picks_lowest_score() {
    let keyboards = vec![
        kb(score_key(3.1), 'a'),
        kb(score_key(1.2), 'b'),
        kb(score_key(5.0), 'c'),
    ];
    assert_eq!(best_index(&keyboards), Some(1));
    let rows = best_result(&keyboards).expect("results were not empty");
    assert_eq!(rows[0][0].lower, 'b');
}

#[test]
fn best_index_breaks_ties_toward_first() {
    let keyboards = vec![kb(2, 'a'), kb(1, 'b'), kb(1, 'c')];
    assert_eq!(best_index(&keyboards), Some(1));
}

#[test]
fn layout_rows_groups_13_13_11_10() {
    let keys = keys_with_marker('z');
    let rows = layout_rows(&keys);
    assert_eq!(rows.len(), 4);
    assert_eq!(rows[0].len(), 13);
    assert_eq!(rows[1].len(), 13);
    assert_eq!(rows[2].len(), 11);
    assert_eq!(rows[3].len(), 10);
    let rejoined: Vec<Key> = rows.into_iter().flatten().collect();
    assert_eq!(rejoined, keys);
}

#[test]
fn two_ready_workers_get_distinct_batch_numbers() {
    let mut state = AppState::default();
    state.add_worker("http://w1".to_string());
    state.add_worker("http://w2".to_string());
    let snapshot = state
        .start_job("job-a".to_string(), 10, 2)
        .expect("no job was running");
    assert_eq!(snapshot, vec!["http://w1", "http://w2"]);

    // Both workers report ready before either finishes: they must be
    // handed the two distinct batch numbers, never the same one twice.
    let w1 = "http://w1".to_string();
    let w2 = "http://w2".to_string();
    let a1 = expect_assignment(state.poll_step(&w1, WorkerStatus::Init));
    let a2 = expect_assignment(state.poll_step(&w2, WorkerStatus::Init));
    assert_eq!(a1.batch_number, 0);
    assert_eq!(a2.batch_number, 1);
    assert_ne!(a1.batch_number, a2.batch_number);
    assert_eq!(a1.job_name, "job-a");
    assert_eq!(a1.batch_size, 10);
    assert_eq!(a1.device_name, "http://w1");
    assert_eq!(a2.device_name, "http://w2");

    // First delivery: one batch still out, nothing left to assign.
    let done1 = state.poll_step(&w1, WorkerStatus::BatchComplete { keyboards: vec![kb(9, 'a')] });
    assert!(matches!(done1, PollAction::Sleep));
    assert_eq!(state.completed, 1);
    assert!(state.running);

    // Second delivery completes the job.
    let done2 = state.poll_step(&w2, WorkerStatus::BatchComplete { keyboards: vec![kb(4, 'b')] });
    assert!(matches!(done2, PollAction::Terminate));
    assert_eq!(state.completed, 2);
    assert!(!state.running);
    assert_eq!(state.get_status(), JobStatus::Complete { name: "job-a".to_string() });

    // The other loop discovers the finished job on its next query.
    let after = state.poll_step(&w1, WorkerStatus::Init);
    assert!(matches!(after, PollAction::Terminate));
}

#[test]
fn in_progress_report_changes_nothing_and_sleeps() {
    let mut state = AppState::default();
    state.add_worker("http://w1".to_string());
    state.start_job("job-a".to_string(), 10, 2).expect("no job was running");
    let host = "http://w1".to_string();
    let action = state.poll_step(&host, WorkerStatus::InProgress { batch_size: 10, completed: 3 });
    assert!(matches!(action, PollAction::Sleep));
    assert!(state.running);
    assert_eq!(state.completed, 0);
    assert_eq!(state.assigned, 0);
    assert_eq!(state.keyboards.len(), 0);
}

#[test]
fn batch_complete_appends_results_in_order() {
    let mut state = AppState::default();
    state.add_worker("http://w1".to_string());
    state.start_job("job-a".to_string(), 10, 3).expect("no job was running");
    let host = "http://w1".to_string();
    state.poll_step(&host, WorkerStatus::Init);
    state.poll_step(
        &host,
        WorkerStatus::BatchComplete { keyboards: vec![kb(5, 'a'), kb(6, 'b')] },
    );
    state.poll_step(&host, WorkerStatus::BatchComplete { keyboards: vec![kb(2, 'c')] });
    assert_eq!(state.completed, 2);
    let markers: Vec<char> = state.keyboards.iter().map(|k| k.keys[0].lower).collect();
    assert_eq!(markers, vec!['a', 'b', 'c']);
}

#[test]
fn zero_batch_job_terminates_at_once() {
    let mut state = AppState::default();
    state.add_worker("http://w1".to_string());
    state.start_job("empty".to_string(), 10, 0).expect("no job was running");
    let host = "http://w1".to_string();
    let action = state.poll_step(&host, WorkerStatus::Init);
    assert!(matches!(action, PollAction::Terminate));
    assert!(!state.running);
    assert_eq!(state.completed, 0);
}

#[test]
fn completed_never_passes_the_total() {
    let mut state = AppState::default();
    state.add_worker("http://w1".to_string());
    state.start_job("job-a".to_string(), 10, 1).expect("no job was running");
    let host = "http://w1".to_string();
    state.poll_step(&host, WorkerStatus::Init);
    state.poll_step(&host, WorkerStatus::BatchComplete { keyboards: vec![kb(1, 'a')] });
    assert_eq!(state.completed, 1);
    // A stray late delivery cannot push the counter past the total.
    state.poll_step(&host, WorkerStatus::BatchComplete { keyboards: vec![kb(1, 'b')] });
    assert_eq!(state.completed, 1);
    assert!(!state.running);
}
