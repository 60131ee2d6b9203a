use trailscan::executor::{ExecutionError, Executor};

fn targets(names: &[&str]) -> Vec<String> {
    names.iter().map(|s| s.to_string()).collect()
}

#[test]
fn zero_concurrency_is_raised_to_one() {
    let mut e = Executor::new(targets(&["a", "b"]), 0);
    let first = e.start_next();
    assert_eq!(first, Some((0, String::from("a"))));
    // The cap of one blocks a second start until the first completes.
    assert_eq!(e.start_next(), None);
    assert!(e.complete(0, String::new()));
    assert_eq!(e.start_next(), Some((1, String::from("b"))));
}

#[test]
fn inflight_never_exceeds_concurrency() {
    let mut e = Executor::new(targets(&["a", "b", "c", "d", "e"]), 2);
    assert!(e.start_next().is_some());
    assert!(e.start_next().is_some());
    // At the cap: no third submission.
    assert_eq!(e.start_next(), None);
    assert!(e.complete(1, String::from("done")));
    // One slot freed: exactly one more may start.
    assert!(e.start_next().is_some());
    assert_eq!(e.start_next(), None);
}

#[test]
fn results_come_back_in_submission_order() {
    let mut e = Executor::new(targets(&["x", "y", "z"]), 3);
    let mut handed = Vec::new();
    while let Some((i, t)) = e.start_next() {
        handed.push((i, t));
    }
    assert_eq!(handed.len(), 3);
    // Completions arrive out of order.
    assert!(e.complete(2, String::from("out-z")));
    assert!(e.complete(0, String::from("out-x")));
    assert!(e.complete(1, String::from("out-y")));
    assert!(e.is_done());
    let results = e.into_results();
    assert_eq!(
        results,
        vec![
            (String::from("x"), String::from("out-x")),
            (String::from("y"), String::from("out-y")),
            (String::from("z"), String::from("out-z")),
        ]
    );
}

#[test]
fn duplicate_and_unknown_completions_are_ignored() {
    let mut e = Executor::new(targets(&["a", "b"]), 2);
    assert!(e.start_next().is_some());
    assert!(e.start_next().is_some());
    assert!(e.complete(0, String::from("first")));
    // A second report for the same index is dropped.
    assert!(!e.complete(0, String::from("second")));
    // An index never handed out is dropped.
    assert!(!e.complete(7, String::from("ghost")));
    assert!(e.complete(1, String::new()));
    let results = e.into_results();
    assert_eq!(results[0].1, "first");
}

#[test]
fn empty_target_list_is_done_at_once() {
    let mut e = Executor::new(Vec::new(), 4);
    assert_eq!(e.start_next(), None);
    assert!(e.is_done());
    assert!(e.into_results().is_empty());
}

#[test]
fn error_constructors_carry_their_text() {
    let e = ExecutionError::task_failed(String::from("http://a"), String::from("boom"));
    assert_eq!(e.describe(), "task failed for target 'http://a': boom");
    let e = ExecutionError::persistence(String::from("disk full"));
    assert_eq!(e.describe(), "failed to persist scan progress: disk full");
    let e = ExecutionError::internal(String::from("join"));
    assert_eq!(e.describe(), "scanner encountered an internal error: join");
}
