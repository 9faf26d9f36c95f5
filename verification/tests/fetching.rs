use command_minecraft_launcher::fetch::{FetchEngine, FetchError, FetchOutcome, FetchTask};
use command_minecraft_launcher::manifest::WorkItem;

fn items(n: usize) -> Vec<WorkItem> {
    (0..n)
        .map(|i| WorkItem {
            destination_path: format!("assets/objects/{:02}/file{}", i, i),
            source_url: format!("https://example.test/file{}", i),
        })
        .collect()
}

/// Drives a whole session with up to `concurrency` tasks checked out at a
/// time; `fails` decides, by destination path, whether an attempt fails
/// transport.
fn drive(engine: &mut FetchEngine, concurrency: usize, fails: impl Fn(&str) -> bool) {
    let mut in_hand: Vec<FetchTask> = Vec::new();
    loop {
        while in_hand.len() < concurrency {
            match engine.checkout() {
                Some(task) => in_hand.push(task),
                None => break,
            }
        }
        match in_hand.pop() {
            Some(task) => {
                let outcome = if fails(&task.item.destination_path) {
                    FetchOutcome::TransportError
                } else {
                    FetchOutcome::Fetched
                };
                engine.report(task, outcome);
            }
            None => break,
        }
    }
    assert!(engine.is_done());
}

#[test]
fn one_always_failing_item_fails_alone() {
    // Ten items, the fourth always fails transport: nine complete, exactly
    // one failure names the fourth item, and all ten were attempted.
    let work = items(10);
    let bad = work[3].destination_path.clone();
    let mut engine = FetchEngine::new(work, 3, 50);
    drive(&mut engine, 3, |dest| dest == bad);
    assert_eq!(engine.completed_count(), 9);
    assert_eq!(engine.failures().len(), 1);
    assert_eq!(engine.failures()[0].item.destination_path, bad);
    assert!(matches!(engine.failures()[0].error, FetchError::Transport));
    let report = engine.into_report();
    assert_eq!(report.completed_count + report.failures.len(), 10);
}

#[test]
fn all_items_complete_without_failures() {
    let mut engine = FetchEngine::new(items(5), 3, 50);
    drive(&mut engine, 2, |_| false);
    let report = engine.into_report();
    assert_eq!(report.completed_count, 5);
    assert!(report.failures.is_empty());
}

#[test]
fn transport_failure_is_retried_up_to_the_cap() {
    let work = items(1);
    let mut engine = FetchEngine::new(work, 4, 50);
    let mut attempts: usize = 0;
    while let Some(task) = engine.checkout() {
        attempts += 1;
        assert_eq!(task.attempts_made as usize, attempts - 1);
        engine.report(task, FetchOutcome::TransportError);
    }
    assert!(engine.is_done());
    assert_eq!(attempts, 4);
    assert_eq!(engine.completed_count(), 0);
    assert_eq!(engine.failures().len(), 1);
}

#[test]
fn write_failure_is_terminal_at_once() {
    let mut engine = FetchEngine::new(items(1), 5, 50);
    let task = engine.checkout().unwrap();
    engine.report(task, FetchOutcome::WriteError);
    assert!(engine.is_done());
    assert_eq!(engine.completed_count(), 0);
    assert_eq!(engine.failures().len(), 1);
    assert!(matches!(engine.failures()[0].error, FetchError::Write));
}

#[test]
fn requeued_item_goes_to_the_back() {
    let work = items(2);
    let first = work[0].destination_path.clone();
    let second = work[1].destination_path.clone();
    let mut engine = FetchEngine::new(work, 2, 50);
    let t0 = engine.checkout().unwrap();
    assert_eq!(t0.item.destination_path, first);
    engine.report(t0, FetchOutcome::TransportError);
    let t1 = engine.checkout().unwrap();
    assert_eq!(t1.item.destination_path, second);
    engine.report(t1, FetchOutcome::Fetched);
    let t2 = engine.checkout().unwrap();
    assert_eq!(t2.item.destination_path, first);
    assert_eq!(t2.attempts_made, 1);
    engine.report(t2, FetchOutcome::Fetched);
    assert!(engine.is_done());
    assert_eq!(engine.completed_count(), 2);
}

#[test]
fn backoff_doubles_per_failed_attempt_and_saturates() {
    let engine = FetchEngine::new(items(0), 3, 100);
    assert_eq!(engine.backoff_delay_ms(0), 100);
    assert_eq!(engine.backoff_delay_ms(1), 200);
    assert_eq!(engine.backoff_delay_ms(2), 400);
    assert_eq!(engine.backoff_delay_ms(3), 800);
    assert_eq!(engine.backoff_delay_ms(63), u64::MAX);
    assert_eq!(engine.backoff_delay_ms(64), u64::MAX);
}

#[test]
fn progress_counts_settled_items() {
    let mut engine = FetchEngine::new(items(3), 1, 50);
    assert_eq!(engine.settled_count(), 0);
    assert_eq!(engine.total(), 3);
    let t = engine.checkout().unwrap();
    engine.report(t, FetchOutcome::Fetched);
    assert_eq!(engine.settled_count(), 1);
    let t = engine.checkout().unwrap();
    engine.report(t, FetchOutcome::TransportError);
    assert_eq!(engine.settled_count(), 2);
    let t = engine.checkout().unwrap();
    engine.report(t, FetchOutcome::Fetched);
    assert_eq!(engine.settled_count(), 3);
    assert!(engine.is_done());
}
