//! The scanner facade: configuration of a scan, the resume rules, and
//! the combination of the executor's and the recorder's outcomes.
//!
//! The asynchronous wiring — spawning the recorder, forwarding
//! completions, driving probes — belongs to the embedding runtime; the
//! decisions it takes are here: how a checkpoint constrains a resumed
//! run, which absolute index a submission gets, and which error wins
//! when several parts of a scan fail.

use vstd::prelude::*;

use crate::checkpoint::{split_on, split_str, Checkpoint};
use crate::executor::{ExecutionError, Executor};
use crate::recorder::{RecorderConfig, RecorderError};
use crate::text::{str_eq, str_trim, trimmed, views_of};

verus! {

/// One scanned target and the probe's output for it.
#[derive(Debug)]
pub struct ScanOutput {
    /// The target URL.
    pub target: String,
    /// The probe's finding text; empty means no finding.
    pub output: String,
}

/// What besides the targets a scan needs: a recorder, if its findings
/// are to be persisted.
#[derive(Debug, Default)]
pub struct ScanOptions {
    /// The recorder configuration, or `None` for an in-memory scan.
    pub recorder: Option<RecorderConfig>,
}

/// The scanner: holds the concurrency cap and builds the executor of a
/// run.
#[derive(Debug)]
pub struct TargetScanner {
    /// The cap on simultaneously in-flight probes; at least 1.
    pub concurrency: usize,
}

impl TargetScanner {
    /// A scanner with the given concurrency; zero is raised to one.
    pub fn new(concurrency: usize) -> (r: TargetScanner)
        ensures
            r.concurrency == if concurrency == 0 {
                1usize
            } else {
                concurrency
            },
            r.concurrency >= 1,
    {
        TargetScanner {
            concurrency: if concurrency == 0 {
                1
            } else {
                concurrency
            },
        }
    }

    /// The executor of one run over `targets`, bounded by this
    /// scanner's concurrency.
    pub fn executor_for(&self, targets: Vec<String>) -> (r: Executor)
        requires
            self.concurrency >= 1,
        ensures
            r.wf(),
            r.targets@ == targets@,
            r.concurrency == self.concurrency,
            r.started == 0,
            r.n_done == 0,
    {
        Executor::new(targets, self.concurrency)
    }
}

/// The absolute index of a submission: the checkpoint base plus the
/// run-relative submission index.
pub fn absolute_index(base_index: usize, submission_index: usize) -> (r: usize)
    requires
        base_index + submission_index <= usize::MAX,
    ensures
        r == base_index + submission_index,
{
    base_index + submission_index
}

/// How one of the scan's background tasks ended, as the runtime saw it.
#[derive(Debug)]
pub enum RecorderTaskResult {
    /// The task ran to completion.
    Finished,
    /// The task itself reported a recorder error.
    Failed { error: RecorderError },
    /// The task was lost: it panicked or was cancelled.
    Lost { error: String },
}

/// The error a failed background task contributes to the scan outcome:
/// whether it is a persistence error (else internal), and its message.
pub open spec fn spec_task_error(r: RecorderTaskResult) -> Option<(bool, Seq<char>)> {
    match r {
        RecorderTaskResult::Finished => None,
        RecorderTaskResult::Failed { error } => Some(
            (
                true,
                match error {
                    RecorderError::ChannelClosed => "recorder channel closed unexpectedly"@,
                    RecorderError::Io { error: m } => m@,
                },
            ),
        ),
        RecorderTaskResult::Lost { error } => Some((false, error@)),
    }
}

/// Whether a scan error is the one a failed task contributes: the right
/// kind, carrying that task's message.
pub open spec fn matches_task_error(e: ExecutionError, s: Option<(bool, Seq<char>)>) -> bool {
    match (e, s) {
        (ExecutionError::Persistence { error: a }, Some((true, b))) => a@ == b,
        (ExecutionError::Internal { error: a }, Some((false, b))) => a@ == b,
        _ => false,
    }
}

/// Combines the outcomes of a scan: the executor's error wins, then the
/// forwarding task's, then the recorder's; only when all three succeed
/// do the ordered results come back.
pub fn finalize_scan(
    execution: Result<Vec<(String, String)>, ExecutionError>,
    forward: RecorderTaskResult,
    recorder: RecorderTaskResult,
) -> (r: Result<Vec<ScanOutput>, ExecutionError>)
    ensures
        match execution {
            Err(e) => r matches Err(out) && out == e,
            Ok(records) => {
                if !(forward is Finished) {
                    r matches Err(out) && matches_task_error(out, spec_task_error(forward))
                } else if !(recorder is Finished) {
                    r matches Err(out) && matches_task_error(out, spec_task_error(recorder))
                } else {
                    r matches Ok(outs) && outs@.len() == records@.len() && forall|i: int|
                        0 <= i < outs@.len() ==> outs@[i].target == records@[i].0
                            && outs@[i].output == records@[i].1
                }
            },
        },
{
    let records = match execution {
        Ok(records) => records,
        Err(e) => {
            return Err(e);
        },
    };
    match task_error(forward) {
        Some(e) => {
            return Err(e);
        },
        None => {},
    }
    match task_error(recorder) {
        Some(e) => {
            return Err(e);
        },
        None => {},
    }
    let mut outs: Vec<ScanOutput> = Vec::new();
    let mut records = records;
    let n = records.len();
    let ghost original = records@;
    let mut i: usize = 0;
    while i < n
        invariant
            n == original.len(),
            records@ == original.subrange(i as int, n as int),
            outs@.len() == i,
            0 <= i <= n,
            forall|j: int|
                0 <= j < i ==> outs@[j].target == original[j].0 && outs@[j].output
                    == original[j].1,
        decreases n - i,
    {
        let (target, output) = records.remove(0);
        outs.push(ScanOutput { target, output });
        proof {
            assert(records@ =~= original.subrange(i + 1, n as int));
        }
        i = i + 1;
    }
    Ok(outs)
}

fn task_error(r: RecorderTaskResult) -> (e: Option<ExecutionError>)
    ensures
        e is Some <==> !(r is Finished),
        e matches Some(out) ==> matches_task_error(out, spec_task_error(r)),
{
    match r {
        RecorderTaskResult::Finished => None,
        RecorderTaskResult::Failed { error } => Some(
            ExecutionError::persistence(error.describe()),
        ),
        RecorderTaskResult::Lost { error } => Some(ExecutionError::internal(error)),
    }
}

/// What loading a targets file keeps: each line trimmed, blank lines
/// dropped, order preserved.
pub open spec fn cleaned_targets(lines: Seq<Seq<char>>) -> Seq<Seq<char>>
    decreases lines.len(),
{
    if lines.len() == 0 {
        Seq::<Seq<char>>::empty()
    } else {
        let rest = cleaned_targets(lines.drop_last());
        let t = trimmed(lines.last());
        if t.len() > 0 {
            rest.push(t)
        } else {
            rest
        }
    }
}

/// Turns the text of a targets file into the target list: one URL per
/// line, surrounding whitespace stripped, blank lines dropped.
pub fn clean_targets(content: &str) -> (r: Vec<String>)
    ensures
        views_of(r@) == cleaned_targets(split_on(content@, '\n')),
{
    let lines = split_str(content, '\n');
    let ghost lv = lines@.map_values(|l: String| l@);
    let mut out: Vec<String> = Vec::new();
    let mut i: usize = 0;
    proof {
        assert(lv.subrange(0, 0) =~= Seq::<Seq<char>>::empty());
        assert(views_of(out@) =~= Seq::<Seq<char>>::empty());
    }
    while i < lines.len()
        invariant
            lv == lines@.map_values(|l: String| l@),
            0 <= i <= lines@.len(),
            views_of(out@) == cleaned_targets(lv.subrange(0, i as int)),
        decreases lines@.len() - i,
    {
        let t = str_trim(lines[i].as_str());
        proof {
            assert(lv.subrange(0, i + 1).drop_last() =~= lv.subrange(0, i as int));
            assert(lv.subrange(0, i + 1).last() == lv[i as int]);
            assert(lv[i as int] == lines@[i as int]@);
        }
        if t.as_str().unicode_len() > 0 {
            proof {
                assert(views_of(out@.push(t)) =~= views_of(out@).push(t@));
            }
            out.push(t);
        }
        i = i + 1;
    }
    proof {
        assert(lv.subrange(0, lines@.len() as int) =~= lv);
        assert(lv =~= split_on(content@, '\n'));
    }
    out
}

/// How a resumed (or fresh) run starts.
#[derive(Debug)]
pub struct ResumePlan {
    /// How many targets are already covered by the checkpoint.
    pub base_index: usize,
    /// The output file to use; a resume keeps the checkpoint's.
    pub output_path: String,
    /// Whether the output file is truncated (fresh) or appended to.
    pub truncate_output: bool,
}

/// The message refusing a resume whose checkpoint recorded different
/// targets.
pub open spec fn targets_mismatch_message(recorded: Seq<char>, requested: Seq<char>) -> Seq<char> {
    "Checkpoint targets '"@ + recorded + "' do not match requested '"@ + requested + "'"@
}

/// The message refusing a resume whose checkpoint recorded a different
/// probe mode.
pub open spec fn mode_mismatch_message(recorded: Seq<char>, requested: Seq<char>) -> Seq<char> {
    "Checkpoint mode '"@ + recorded + "' does not match requested '"@ + requested + "'"@
}

/// Decides how a `--resume` run starts from the checkpoint read off
/// disk.  The checkpoint's targets file and mode must equal the
/// requested ones — a mismatch is a hard error naming both values; a
/// differing output path is resolved in the checkpoint's favour.  The
/// resumed run appends to the output and starts at the checkpoint's
/// index, capped at the target count.
pub fn plan_resume(checkpoint: &Checkpoint, targets_path: &str, output_path: &str, mode: &str,
    total_targets: usize) -> (r: Result<ResumePlan, String>)
    ensures
        checkpoint.targets_path@ != targets_path@ ==> (r matches Err(m) && m@
            == targets_mismatch_message(checkpoint.targets_path@, targets_path@)),
        checkpoint.targets_path@ == targets_path@ && checkpoint.mode@ != mode@ ==> (r matches
            Err(m) && m@ == mode_mismatch_message(checkpoint.mode@, mode@)),
        checkpoint.targets_path@ == targets_path@ && checkpoint.mode@ == mode@ ==> (r matches
            Ok(plan) && plan.base_index == (if checkpoint.next_index <= total_targets {
            checkpoint.next_index as int
        } else {
            total_targets as int
        }) && plan.output_path@ == checkpoint.output_path@ && !plan.truncate_output),
{
    if !str_eq(checkpoint.targets_path.as_str(), targets_path) {
        let mut m = String::new();
        m.append("Checkpoint targets '");
        m.append(checkpoint.targets_path.as_str());
        m.append("' do not match requested '");
        m.append(targets_path);
        m.append("'");
        proof {
            assert(m@ =~= targets_mismatch_message(checkpoint.targets_path@, targets_path@));
        }
        return Err(m);
    }
    if !str_eq(checkpoint.mode.as_str(), mode) {
        let mut m = String::new();
        m.append("Checkpoint mode '");
        m.append(checkpoint.mode.as_str());
        m.append("' does not match requested '");
        m.append(mode);
        m.append("'");
        proof {
            assert(m@ =~= mode_mismatch_message(checkpoint.mode@, mode@));
        }
        return Err(m);
    }
    let _ = output_path;
    let base_index = if checkpoint.next_index <= total_targets {
        checkpoint.next_index
    } else {
        total_targets
    };
    Ok(
        ResumePlan {
            base_index,
            output_path: checkpoint.output_path.clone(),
            truncate_output: false,
        },
    )
}

} // verus!
