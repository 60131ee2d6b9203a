use trailscan::checkpoint::Checkpoint;
use trailscan::executor::{ExecutionError, Executor};
use trailscan::recorder::{default_recorder_config, RecorderAction, ScanRecorder};
use trailscan::scanner::{
    absolute_index, clean_targets, finalize_scan, plan_resume, RecorderTaskResult, ScanOutput,
    TargetScanner,
};

/// Drives a whole scan in-process: the executor hands out targets, the
/// probe is a plain function, completions flow through the recorder in
/// submission order of completion, and the recorder's actions are
/// collected instead of performed.
fn run_scan(
    targets: &[&str],
    concurrency: usize,
    base_index: usize,
    probe: impl Fn(&str) -> String,
) -> (Vec<(String, String)>, Vec<String>, bool) {
    let all: Vec<String> = targets.iter().map(|s| s.to_string()).collect();
    let run: Vec<String> = all[base_index..].to_vec();
    let scanner = TargetScanner::new(concurrency);
    let mut executor = scanner.executor_for(run);
    let cfg = default_recorder_config(
        String::from("out.txt"),
        String::from("targets.txt"),
        String::from("TrailMerge"),
        base_index,
        targets.len() - base_index,
        base_index == 0,
    );
    let mut recorder = ScanRecorder::new(cfg);
    let mut lines = Vec::new();
    while let Some((index, target)) = executor.start_next() {
        let output = probe(&target);
        assert!(executor.complete(index, output.clone()));
        let actions = recorder.handle_record(absolute_index(base_index, index), target, output);
        for a in actions {
            if let RecorderAction::AppendOutput { line } = a {
                lines.push(line);
            }
        }
    }
    assert!(executor.is_done());
    let fin = recorder.finish();
    let removed = fin
        .iter()
        .any(|a| matches!(a, RecorderAction::RemoveCheckpoint));
    (executor.into_results(), lines, removed)
}

#[test]
fn fresh_scan_without_findings_writes_nothing() {
    let (results, lines, removed) = run_scan(&["a", "b", "c"], 2, 0, |_| String::new());
    assert_eq!(
        results,
        vec![
            (String::from("a"), String::new()),
            (String::from("b"), String::new()),
            (String::from("c"), String::new()),
        ]
    );
    assert!(lines.is_empty());
    assert!(removed);
}

#[test]
fn fresh_scan_with_one_finding_writes_one_line() {
    let (results, lines, removed) = run_scan(&["a", "b", "c"], 3, 0, |t| {
        if t == "b" {
            String::from("hit")
        } else {
            String::new()
        }
    });
    assert_eq!(results.len(), 3);
    assert_eq!(lines, vec![String::from("b\thit\n")]);
    assert!(removed);
}

#[test]
fn resumed_scan_probes_only_the_remaining_targets() {
    let probed = std::cell::RefCell::new(Vec::new());
    let (results, _, removed) = run_scan(&["t0", "t1", "t2", "t3", "t4"], 2, 2, |t| {
        probed.borrow_mut().push(t.to_string());
        String::new()
    });
    assert_eq!(
        *probed.borrow(),
        vec![String::from("t2"), String::from("t3"), String::from("t4")]
    );
    assert_eq!(results.len(), 3);
    assert!(removed);
}

#[test]
fn plan_resume_accepts_a_matching_checkpoint() {
    let c = Checkpoint::new(2, String::from("t1"), String::from("old-out"), String::from("TrailMerge"));
    let plan = plan_resume(&c, "t1", "new-out", "TrailMerge", 5).unwrap();
    assert_eq!(plan.base_index, 2);
    // The checkpoint's output file wins over the requested one.
    assert_eq!(plan.output_path, "old-out");
    assert!(!plan.truncate_output);
}

#[test]
fn plan_resume_caps_the_base_at_the_target_count() {
    let c = Checkpoint::new(9, String::from("t1"), String::from("o"), String::from("TrailMerge"));
    let plan = plan_resume(&c, "t1", "o", "TrailMerge", 5).unwrap();
    assert_eq!(plan.base_index, 5);
}

#[test]
fn plan_resume_refuses_mismatched_targets_naming_both() {
    let c = Checkpoint::new(2, String::from("t1"), String::from("o"), String::from("TrailMerge"));
    let err = plan_resume(&c, "t2", "o", "TrailMerge", 5).unwrap_err();
    assert!(err.contains("t1"));
    assert!(err.contains("t2"));
    assert_eq!(err, "Checkpoint targets 't1' do not match requested 't2'");
}

#[test]
fn plan_resume_refuses_mismatched_mode() {
    let c = Checkpoint::new(2, String::from("t1"), String::from("o"), String::from("TrailMerge"));
    let err = plan_resume(&c, "t1", "o", "TrailSmug", 5).unwrap_err();
    assert_eq!(err, "Checkpoint mode 'TrailMerge' does not match requested 'TrailSmug'");
}

#[test]
fn clean_targets_trims_and_drops_blank_lines() {
    let v = clean_targets(" http://a \n\n\t\nhttp://b\nhttp://c\n");
    assert_eq!(
        v,
        vec![
            String::from("http://a"),
            String::from("http://b"),
            String::from("http://c"),
        ]
    );
    assert!(clean_targets("").is_empty());
}

#[test]
fn finalize_scan_prefers_the_execution_error() {
    let r = finalize_scan(
        Err(ExecutionError::internal(String::from("lost"))),
        RecorderTaskResult::Finished,
        RecorderTaskResult::Finished,
    );
    assert!(matches!(r, Err(ExecutionError::Internal { .. })));
}

#[test]
fn finalize_scan_reports_recorder_failures_as_persistence() {
    let r = finalize_scan(
        Ok(vec![(String::from("a"), String::new())]),
        RecorderTaskResult::Finished,
        RecorderTaskResult::Failed {
            error: trailscan::recorder::RecorderError::Io { error: String::from("disk") },
        },
    );
    match r {
        Err(ExecutionError::Persistence { error }) => assert_eq!(error, "disk"),
        other => panic!("expected a persistence error, got {:?}", other),
    }
}

#[test]
fn finalize_scan_returns_the_records_when_all_parts_succeed() {
    let r = finalize_scan(
        Ok(vec![(String::from("a"), String::from("x"))]),
        RecorderTaskResult::Finished,
        RecorderTaskResult::Finished,
    );
    let outs: Vec<ScanOutput> = r.unwrap();
    assert_eq!(outs.len(), 1);
    assert_eq!(outs[0].target, "a");
    assert_eq!(outs[0].output, "x");
}
