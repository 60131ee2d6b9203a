use trailscan::recorder::{
    default_recorder_config, RecorderAction, RecorderConfig, ScanRecorder,
};

fn config(base_index: usize, total_targets: usize, truncate_output: bool) -> RecorderConfig {
    default_recorder_config(
        String::from("out.txt"),
        String::from("targets.txt"),
        String::from("TrailMerge"),
        base_index,
        total_targets,
        truncate_output,
    )
}

fn lines_of(actions: &[RecorderAction]) -> Vec<String> {
    actions
        .iter()
        .filter_map(|a| match a {
            RecorderAction::AppendOutput { line } => Some(line.clone()),
            _ => None,
        })
        .collect()
}

fn checkpoints_of(actions: &[RecorderAction]) -> Vec<usize> {
    actions
        .iter()
        .filter_map(|a| match a {
            RecorderAction::WriteCheckpoint { checkpoint } => Some(checkpoint.next_index),
            _ => None,
        })
        .collect()
}

#[test]
fn default_config_fills_in_the_fixed_fields() {
    let cfg = config(0, 3, true);
    assert_eq!(cfg.checkpoint_path, "checkpoint");
    assert_eq!(cfg.flush_interval_secs, 120);
    assert!(cfg.truncate_output);
    let ck = cfg.checkpoint_template(5);
    assert_eq!(ck.next_index, 5);
    assert_eq!(ck.targets_path, "targets.txt");
    assert_eq!(ck.output_path, "out.txt");
    assert_eq!(ck.mode, "TrailMerge");
}

#[test]
fn empty_findings_advance_without_writing() {
    let mut r = ScanRecorder::new(config(0, 3, true));
    let mut all = Vec::new();
    all.extend(r.handle_record(0, String::from("a"), String::new()));
    all.extend(r.handle_record(1, String::from("b"), String::from("   \t")));
    all.extend(r.handle_record(2, String::from("c"), String::new()));
    assert!(lines_of(&all).is_empty());
    assert_eq!(checkpoints_of(&all), vec![1, 2, 3]);
    let fin = r.finish();
    assert_eq!(fin.len(), 1);
    assert!(matches!(fin[0], RecorderAction::RemoveCheckpoint));
}

#[test]
fn a_finding_is_written_tab_separated() {
    let mut r = ScanRecorder::new(config(0, 3, true));
    let mut all = Vec::new();
    all.extend(r.handle_record(0, String::from("a"), String::new()));
    all.extend(r.handle_record(1, String::from("b"), String::from("hit")));
    all.extend(r.handle_record(2, String::from("c"), String::new()));
    assert_eq!(lines_of(&all), vec![String::from("b\thit\n")]);
    let fin = r.finish();
    assert!(matches!(fin[0], RecorderAction::RemoveCheckpoint));
}

#[test]
fn out_of_order_records_are_committed_in_index_order() {
    let mut r = ScanRecorder::new(config(0, 3, true));
    // Index 2 first: nothing can be committed yet.
    let a2 = r.handle_record(2, String::from("c"), String::from("late"));
    assert!(a2.is_empty());
    // Index 0 commits itself alone.
    let a0 = r.handle_record(0, String::from("a"), String::from("first"));
    assert_eq!(lines_of(&a0), vec![String::from("a\tfirst\n")]);
    assert_eq!(checkpoints_of(&a0), vec![1]);
    // Index 1 releases both buffered records.
    let a1 = r.handle_record(1, String::from("b"), String::from("mid"));
    assert_eq!(
        lines_of(&a1),
        vec![String::from("b\tmid\n"), String::from("c\tlate\n")]
    );
    assert_eq!(checkpoints_of(&a1), vec![2, 3]);
}

#[test]
fn checkpoint_values_never_decrease() {
    let mut r = ScanRecorder::new(config(0, 5, true));
    let order = [4usize, 1, 0, 3, 2];
    let mut seen = Vec::new();
    for &i in order.iter() {
        let acts = r.handle_record(i, format!("t{}", i), String::from("x"));
        seen.extend(checkpoints_of(&acts));
    }
    let mut sorted = seen.clone();
    sorted.sort();
    assert_eq!(seen, sorted);
    assert_eq!(seen.last(), Some(&5));
}

#[test]
fn stale_indices_are_dropped() {
    let mut r = ScanRecorder::new(config(2, 3, false));
    // Below the resumed base: already covered by the checkpoint.
    let stale = r.handle_record(1, String::from("old"), String::from("x"));
    assert!(stale.is_empty());
    let a = r.handle_record(2, String::from("t2"), String::from("y"));
    assert_eq!(lines_of(&a), vec![String::from("t2\ty\n")]);
    assert_eq!(checkpoints_of(&a), vec![3]);
}

#[test]
fn unfinished_run_keeps_the_checkpoint() {
    let mut r = ScanRecorder::new(config(0, 3, true));
    let _ = r.handle_record(0, String::from("a"), String::new());
    // Records 1 and 2 never arrive: the checkpoint must survive.
    assert!(r.finish().is_empty());
}

#[test]
fn resumed_run_removes_checkpoint_at_its_own_end() {
    let mut r = ScanRecorder::new(config(2, 3, false));
    let _ = r.handle_record(2, String::from("a"), String::new());
    let _ = r.handle_record(3, String::from("b"), String::new());
    let _ = r.handle_record(4, String::from("c"), String::new());
    let fin = r.finish();
    assert!(matches!(fin[0], RecorderAction::RemoveCheckpoint));
}

#[test]
fn resumed_suffix_matches_the_uninterrupted_run() {
    // An uninterrupted run over four records...
    let outputs = ["", "one", "", "two"];
    let mut full = ScanRecorder::new(config(0, 4, true));
    let mut full_lines = Vec::new();
    for (i, out) in outputs.iter().enumerate() {
        full_lines.extend(lines_of(&full.handle_record(
            i,
            format!("t{}", i),
            out.to_string(),
        )));
    }
    // ...and a run interrupted after two records, then resumed.
    let mut first = ScanRecorder::new(config(0, 2, true));
    let mut union = Vec::new();
    for i in 0..2 {
        union.extend(lines_of(&first.handle_record(
            i,
            format!("t{}", i),
            outputs[i].to_string(),
        )));
    }
    let mut resumed = ScanRecorder::new(config(2, 2, false));
    for i in 2..4 {
        union.extend(lines_of(&resumed.handle_record(
            i,
            format!("t{}", i),
            outputs[i].to_string(),
        )));
    }
    assert_eq!(union, full_lines);
}
