//! The durable recorder: a single-writer consumer of completion reports
//! that orders findings by absolute index, suppresses empty ones, and
//! advances the checkpoint only after the corresponding finding has been
//! handed over for writing.
//!
//! The [`ScanRecorder`] holds the reorder buffer and decides; every file
//! operation it wants is returned as a [`RecorderAction`] for the
//! embedding runtime to perform, in order.  That keeps the durability
//! rules — monotone checkpoint advancement, empty-finding suppression,
//! checkpoint removal on completion — inside verified code.

use vstd::prelude::*;

use crate::checkpoint::{default_checkpoint_path, Checkpoint, CheckpointView};
use crate::text::{is_blank, str_is_blank};

verus! {

/// Everything a recorder needs to know about its run.
#[derive(Debug, Clone)]
pub struct RecorderConfig {
    /// Where findings are written, one tab-separated line each.
    pub output_path: String,
    /// Where the progress record is kept.
    pub checkpoint_path: String,
    /// The targets file of this run, echoed into the checkpoint.
    pub targets_path: String,
    /// The probe family name, echoed into the checkpoint.
    pub mode: String,
    /// How many targets a prior run already completed.
    pub base_index: usize,
    /// How many targets this run processes.
    pub total_targets: usize,
    /// Truncate the output file (fresh run) or append to it (resume).
    pub truncate_output: bool,
    /// How often the output file is flushed, in seconds.
    pub flush_interval_secs: u64,
}

impl RecorderConfig {
    /// The run's absolute indices stay within `usize`.
    pub open spec fn wf(self) -> bool {
        self.base_index + self.total_targets <= usize::MAX
    }

    /// The absolute index one past the last target of this run.
    pub open spec fn end_index(self) -> int {
        self.base_index + self.total_targets
    }

    /// The checkpoint recording that all targets below `next_index` are
    /// complete.
    pub fn checkpoint_template(&self, next_index: usize) -> (r: Checkpoint)
        ensures
            r@ == cfg_checkpoint(*self, next_index as nat),
    {
        Checkpoint::new(
            next_index,
            clone_string(&self.targets_path),
            clone_string(&self.output_path),
            clone_string(&self.mode),
        )
    }
}

/// The checkpoint this configuration writes for a given progress bound.
pub open spec fn cfg_checkpoint(cfg: RecorderConfig, next_index: nat) -> CheckpointView {
    CheckpointView {
        next_index,
        targets_path: cfg.targets_path@,
        output_path: cfg.output_path@,
        mode: cfg.mode@,
    }
}

fn clone_string(s: &String) -> (r: String)
    ensures
        r@ == s@,
{
    s.clone()
}

/// A recorder configuration with the default checkpoint location and
/// flush interval.
pub fn default_recorder_config(
    output_path: String,
    targets_path: String,
    mode: String,
    base_index: usize,
    total_targets: usize,
    truncate_output: bool,
) -> (r: RecorderConfig)
    requires
        base_index + total_targets <= usize::MAX,
    ensures
        r.wf(),
        r.output_path@ == output_path@,
        r.checkpoint_path@ == "checkpoint"@,
        r.targets_path@ == targets_path@,
        r.mode@ == mode@,
        r.base_index == base_index,
        r.total_targets == total_targets,
        r.truncate_output == truncate_output,
        r.flush_interval_secs == 120,
{
    RecorderConfig {
        output_path,
        checkpoint_path: default_checkpoint_path(),
        targets_path,
        mode,
        base_index,
        total_targets,
        truncate_output,
        flush_interval_secs: 120,
    }
}

/// What flows from the scan to the recorder.
#[derive(Debug)]
pub enum RecorderMessage {
    /// One completed target: its absolute index and the probe's output.
    Record { absolute_index: usize, target: String, output: String },
    /// A request to flush the output file.
    Flush,
}

/// Why recording failed.
#[derive(Debug)]
pub enum RecorderError {
    /// The channel to the recorder closed early.
    ChannelClosed,
    /// Writing the output or the checkpoint failed.
    Io { error: String },
}

impl RecorderError {
    /// The human-readable description of this error.
    pub fn describe(&self) -> (r: String)
        ensures
            r@ == match self {
                RecorderError::ChannelClosed => "recorder channel closed unexpectedly"@,
                RecorderError::Io { error } => error@,
            },
    {
        match self {
            RecorderError::ChannelClosed => {
                let s: &str = "recorder channel closed unexpectedly";
                s.to_owned()
            },
            RecorderError::Io { error } => clone_string(error),
        }
    }
}

/// A file operation the recorder asks its driver to perform.
#[derive(Debug)]
pub enum RecorderAction {
    /// Append this text to the output file.
    AppendOutput { line: String },
    /// Overwrite the checkpoint file with this record.
    WriteCheckpoint { checkpoint: Checkpoint },
    /// Delete the checkpoint file.
    RemoveCheckpoint,
}

/// The mathematical content of a [`RecorderAction`].
pub ghost enum RecorderActionView {
    AppendOutput { line: Seq<char> },
    WriteCheckpoint { checkpoint: CheckpointView },
    RemoveCheckpoint,
}

impl View for RecorderAction {
    type V = RecorderActionView;

    open spec fn view(&self) -> RecorderActionView {
        match self {
            RecorderAction::AppendOutput { line } => RecorderActionView::AppendOutput {
                line: line@,
            },
            RecorderAction::WriteCheckpoint { checkpoint } => RecorderActionView::WriteCheckpoint {
                checkpoint: checkpoint@,
            },
            RecorderAction::RemoveCheckpoint => RecorderActionView::RemoveCheckpoint,
        }
    }
}

/// One output line: the target and its finding, tab separated.
pub open spec fn record_line(target: Seq<char>, output: Seq<char>) -> Seq<char> {
    target + "\t"@ + output + "\n"@
}

fn make_record_line(target: &str, output: &str) -> (r: String)
    ensures
        r@ == record_line(target@, output@),
{
    let mut s = String::new();
    s.append(target);
    s.append("\t");
    s.append(output);
    s.append("\n");
    proof {
        assert(s@ =~= record_line(target@, output@));
    }
    s
}

/// The actions that committing slots `from..to` of the reorder buffer
/// produces: for each slot in turn, the output line when the finding is
/// not blank, then the checkpoint advanced past that slot.
pub open spec fn commit_actions(
    p: Seq<Option<(String, String)>>,
    from: int,
    to: int,
    cfg: RecorderConfig,
) -> Seq<RecorderActionView>
    decreases to - from,
{
    if from < to {
        let head = match p[from] {
            Some(e) => if is_blank(e.1@) {
                Seq::<RecorderActionView>::empty()
            } else {
                seq![RecorderActionView::AppendOutput { line: record_line(e.0@, e.1@) }]
            },
            None => Seq::<RecorderActionView>::empty(),
        };
        head + seq![
            RecorderActionView::WriteCheckpoint {
                checkpoint: cfg_checkpoint(cfg, (cfg.base_index + from + 1) as nat),
            },
        ] + commit_actions(p, from + 1, to, cfg)
    } else {
        Seq::<RecorderActionView>::empty()
    }
}

/// The single writer of the output and checkpoint files: buffers
/// out-of-order completions and commits them in absolute-index order.
pub struct ScanRecorder {
    /// The run this recorder serves.
    pub cfg: RecorderConfig,
    /// The absolute index of the next record to commit: everything below
    /// it has been handed over for writing.
    pub next_expected_index: usize,
    /// The reorder buffer: slot `i` holds the completion of absolute
    /// index `base_index + i` until it is committed.
    pub pending: Vec<Option<(String, String)>>,
}

impl ScanRecorder {
    /// The internal consistency of the reorder buffer.
    pub open spec fn wf(self) -> bool {
        &&& self.cfg.wf()
        &&& self.pending@.len() == self.cfg.total_targets
        &&& self.cfg.base_index <= self.next_expected_index
        &&& self.next_expected_index <= self.cfg.end_index()
        &&& forall|j: int|
            0 <= j < self.next_expected_index - self.cfg.base_index ==> self.pending@[j] is None
    }

    /// The slot of an absolute index.
    pub open spec fn rel(self, index: int) -> int {
        index - self.cfg.base_index
    }

    /// A fresh recorder for `cfg`, expecting the record at `base_index`
    /// first.
    pub fn new(cfg: RecorderConfig) -> (r: ScanRecorder)
        requires
            cfg.wf(),
        ensures
            r.wf(),
            r.cfg == cfg,
            r.next_expected_index == cfg.base_index,
            forall|j: int| 0 <= j < r.pending@.len() ==> r.pending@[j] is None,
    {
        let n = cfg.total_targets;
        let mut pending: Vec<Option<(String, String)>> = Vec::new();
        let mut i: usize = 0;
        while i < n
            invariant
                0 <= i <= n,
                pending@.len() == i,
                forall|j: int| 0 <= j < i ==> pending@[j] is None,
            decreases n - i,
        {
            pending.push(None);
            i = i + 1;
        }
        ScanRecorder { next_expected_index: cfg.base_index, cfg, pending }
    }
    /// Takes one completion report, out of order, and commits every
    /// record that is now ready: stale indices (already covered by the
    /// checkpoint) are dropped, fresh ones are buffered, and the
    /// contiguous ready prefix is turned into output lines (blank
    /// findings suppressed) and checkpoint advancements.
    pub fn handle_record(&mut self, index: usize, target: String, output: String) -> (actions: Vec<
        RecorderAction,
    >)
        requires
            old(self).wf(),
            index < old(self).cfg.end_index(),
        ensures
            final(self).wf(),
            final(self).cfg == old(self).cfg,
            old(self).next_expected_index <= final(self).next_expected_index,
            index < old(self).next_expected_index ==> *final(self) == *old(self)
                && actions@.len() == 0,
            index >= old(self).next_expected_index ==> ({
                let p = old(self).pending@.update(
                    old(self).rel(index as int),
                    Some((target, output)),
                );
                let from = old(self).rel(old(self).next_expected_index as int);
                let to = old(self).rel(final(self).next_expected_index as int);
                &&& from <= to <= old(self).cfg.total_targets
                &&& forall|m: int| from <= m < to ==> p[m] is Some
                &&& (to == old(self).cfg.total_targets || p[to] is None)
                &&& final(self).pending@.len() == p.len()
                &&& forall|j: int|
                    0 <= j < p.len() ==> final(self).pending@[j] == if j < to {
                        None::<(String, String)>
                    } else {
                        p[j]
                    }
                &&& actions@.map_values(|a: RecorderAction| a@) == commit_actions(
                    p,
                    from,
                    to,
                    old(self).cfg,
                )
            }),
    {
        let mut actions: Vec<RecorderAction> = Vec::new();
        if index < self.next_expected_index {
            return actions;
        }
        let r = index - self.cfg.base_index;
        self.pending[r] = Some((target, output));
        let ghost p = self.pending@;
        let ghost from = self.rel(self.next_expected_index as int);
        let end = self.cfg.base_index + self.cfg.total_targets;
        proof {
            assert(actions@.map_values(|a: RecorderAction| a@) =~= commit_actions(
                p,
                from,
                from,
                self.cfg,
            ));
        }
        loop
            invariant
                self.wf(),
                self.cfg == old(self).cfg,
                end == self.cfg.end_index(),
                old(self).next_expected_index <= self.next_expected_index,
                p.len() == self.cfg.total_targets,
                from == old(self).rel(old(self).next_expected_index as int),
                0 <= from <= self.rel(self.next_expected_index as int),
                forall|m: int| from <= m < self.rel(self.next_expected_index as int) ==> p[m]
                    is Some,
                forall|j: int|
                    0 <= j < p.len() ==> self.pending@[j] == if j < self.rel(
                        self.next_expected_index as int,
                    ) {
                        None::<(String, String)>
                    } else {
                        p[j]
                    },
                actions@.map_values(|a: RecorderAction| a@) == commit_actions(
                    p,
                    from,
                    self.rel(self.next_expected_index as int),
                    self.cfg,
                ),
            ensures
                self.next_expected_index == end || self.pending@[self.rel(
                    self.next_expected_index as int,
                )] is None,
            decreases end - self.next_expected_index,
        {
            if !(self.next_expected_index < end) {
                break ;
            }
            let rel = self.next_expected_index - self.cfg.base_index;
            let (t, o) = match &self.pending[rel] {
                Some(e) => (clone_string(&e.0), clone_string(&e.1)),
                None => {
                    break ;
                },
            };
            let ghost cur = self.rel(self.next_expected_index as int);
            self.pending[rel] = None;
            if !str_is_blank(o.as_str()) {
                let line = make_record_line(t.as_str(), o.as_str());
                actions.push(RecorderAction::AppendOutput { line });
            }
            self.next_expected_index = self.next_expected_index + 1;
            let checkpoint = self.cfg.checkpoint_template(self.next_expected_index);
            actions.push(RecorderAction::WriteCheckpoint { checkpoint });
            proof {
                lemma_commit_actions_snoc(p, from, cur, self.cfg);
                assert(actions@.map_values(|a: RecorderAction| a@) =~= commit_actions(
                    p,
                    from,
                    cur + 1,
                    self.cfg,
                ));
            }
        }
        actions
    }

    /// Ends the run: when every target of the run has been committed,
    /// the checkpoint file is removed; otherwise nothing is done and the
    /// checkpoint stays for a resume.
    pub fn finish(&self) -> (actions: Vec<RecorderAction>)
        requires
            self.wf(),
        ensures
            self.next_expected_index >= self.cfg.end_index() ==> actions@.len() == 1
                && actions@[0]@ == RecorderActionView::RemoveCheckpoint,
            self.next_expected_index < self.cfg.end_index() ==> actions@.len() == 0,
    {
        let mut actions: Vec<RecorderAction> = Vec::new();
        if self.next_expected_index >= self.cfg.base_index + self.cfg.total_targets {
            actions.push(RecorderAction::RemoveCheckpoint);
        }
        actions
    }
}

/// Committing one more slot appends that slot's actions.
proof fn lemma_commit_actions_snoc(
    p: Seq<Option<(String, String)>>,
    from: int,
    to: int,
    cfg: RecorderConfig,
)
    requires
        from <= to,
    ensures
        commit_actions(p, from, to + 1, cfg) == commit_actions(p, from, to, cfg) + (match p[to] {
            Some(e) => if is_blank(e.1@) {
                Seq::<RecorderActionView>::empty()
            } else {
                seq![RecorderActionView::AppendOutput { line: record_line(e.0@, e.1@) }]
            },
            None => Seq::<RecorderActionView>::empty(),
        }) + seq![
            RecorderActionView::WriteCheckpoint {
                checkpoint: cfg_checkpoint(cfg, (cfg.base_index + to + 1) as nat),
            },
        ],
    decreases to - from,
{
    if from < to {
        lemma_commit_actions_snoc(p, from + 1, to, cfg);
        assert(commit_actions(p, from, to + 1, cfg) =~= commit_actions(p, from, to, cfg) + (
        match p[to] {
            Some(e) => if is_blank(e.1@) {
                Seq::<RecorderActionView>::empty()
            } else {
                seq![RecorderActionView::AppendOutput { line: record_line(e.0@, e.1@) }]
            },
            None => Seq::<RecorderActionView>::empty(),
        }) + seq![
            RecorderActionView::WriteCheckpoint {
                checkpoint: cfg_checkpoint(cfg, (cfg.base_index + to + 1) as nat),
            },
        ]);
    } else {
        assert(commit_actions(p, to + 1, to + 1, cfg) =~= Seq::<RecorderActionView>::empty());
        assert(commit_actions(p, from, to, cfg) =~= Seq::<RecorderActionView>::empty());
        assert(commit_actions(p, from, to + 1, cfg) =~= commit_actions(p, from, to, cfg) + (
        match p[to] {
            Some(e) => if is_blank(e.1@) {
                Seq::<RecorderActionView>::empty()
            } else {
                seq![RecorderActionView::AppendOutput { line: record_line(e.0@, e.1@) }]
            },
            None => Seq::<RecorderActionView>::empty(),
        }) + seq![
            RecorderActionView::WriteCheckpoint {
                checkpoint: cfg_checkpoint(cfg, (cfg.base_index + to + 1) as nat),
            },
        ]);
    }
}

/// Every checkpoint among the committed actions records a progress
/// bound inside the committed range.
/// The optional output line that committing one slot emits.
pub open spec fn commit_head(p: Seq<Option<(String, String)>>, from: int) -> Seq<
    RecorderActionView,
> {
    match p[from] {
        Some(e) => if is_blank(e.1@) {
            Seq::<RecorderActionView>::empty()
        } else {
            seq![RecorderActionView::AppendOutput { line: record_line(e.0@, e.1@) }]
        },
        None => Seq::<RecorderActionView>::empty(),
    }
}

/// Bounds on one committed action: a checkpoint written during a
/// commit of slots `from..to` lies in that range and carries the
/// configuration's paths and mode.
pub open spec fn ck_in_range(
    a: RecorderActionView,
    lo: int,
    hi: int,
    cfg: RecorderConfig,
) -> bool {
    match a {
        RecorderActionView::WriteCheckpoint { checkpoint } => {
            &&& lo <= checkpoint.next_index <= hi
            &&& checkpoint.targets_path == cfg.targets_path@
            &&& checkpoint.output_path == cfg.output_path@
            &&& checkpoint.mode == cfg.mode@
        },
        _ => true,
    }
}

/// When both actions write a checkpoint, the later bound is no lower.
pub open spec fn ck_no_decrease(a: RecorderActionView, b: RecorderActionView) -> bool {
    match (a, b) {
        (
            RecorderActionView::WriteCheckpoint { checkpoint: x },
            RecorderActionView::WriteCheckpoint { checkpoint: y },
        ) => x.next_index <= y.next_index,
        _ => true,
    }
}

/// Every checkpoint among the committed actions records a progress
/// bound inside the committed range, with the run's own paths and mode.
pub proof fn lemma_commit_checkpoint_range(
    p: Seq<Option<(String, String)>>,
    from: int,
    to: int,
    cfg: RecorderConfig,
)
    requires
        0 <= from <= to,
    ensures
        forall|k: int|
            0 <= k < commit_actions(p, from, to, cfg).len() ==> ck_in_range(
                #[trigger] commit_actions(p, from, to, cfg)[k],
                cfg.base_index + from + 1,
                cfg.base_index + to,
                cfg,
            ),
    decreases to - from,
{
    if from < to {
        lemma_commit_checkpoint_range(p, from + 1, to, cfg);
        let acts = commit_actions(p, from, to, cfg);
        let rest = commit_actions(p, from + 1, to, cfg);
        let head = commit_head(p, from);
        let ck = RecorderActionView::WriteCheckpoint {
            checkpoint: cfg_checkpoint(cfg, (cfg.base_index + from + 1) as nat),
        };
        assert(acts =~= head + seq![ck] + rest);
        let hl = head.len() as int;
        assert forall|k: int|
            0 <= k < acts.len() implies ck_in_range(
            #[trigger] acts[k],
            cfg.base_index + from + 1,
            cfg.base_index + to,
            cfg,
        ) by {
            if k < hl {
                assert(acts[k] == head[0]);
            } else if k == hl {
                assert(acts[k] == ck);
                assert(ck_in_range(ck, cfg.base_index + from + 1, cfg.base_index + to, cfg));
            } else {
                assert(acts[k] == rest[k - hl - 1]);
                assert(ck_in_range(
                    rest[k - hl - 1],
                    cfg.base_index + from + 2,
                    cfg.base_index + to,
                    cfg,
                ));
            }
        }
    }
}

/// The recorder\u{2019}s checkpoint advances monotonically: within the
/// actions of one commit, every later checkpoint records a bound at
/// least as high as every earlier one.
pub proof fn lemma_commit_checkpoints_monotonic(
    p: Seq<Option<(String, String)>>,
    from: int,
    to: int,
    cfg: RecorderConfig,
)
    requires
        0 <= from <= to,
    ensures
        forall|i: int, j: int|
            0 <= i < j < commit_actions(p, from, to, cfg).len() ==> ck_no_decrease(
                #[trigger] commit_actions(p, from, to, cfg)[i],
                #[trigger] commit_actions(p, from, to, cfg)[j],
            ),
    decreases to - from,
{
    if from < to {
        lemma_commit_checkpoints_monotonic(p, from + 1, to, cfg);
        lemma_commit_checkpoint_range(p, from + 1, to, cfg);
        let acts = commit_actions(p, from, to, cfg);
        let rest = commit_actions(p, from + 1, to, cfg);
        let head = commit_head(p, from);
        let ck = RecorderActionView::WriteCheckpoint {
            checkpoint: cfg_checkpoint(cfg, (cfg.base_index + from + 1) as nat),
        };
        assert(acts =~= head + seq![ck] + rest);
        let hl = head.len() as int;
        assert forall|i: int, j: int|
            0 <= i < j < acts.len() implies ck_no_decrease(
            #[trigger] acts[i],
            #[trigger] acts[j],
        ) by {
            if i < hl {
                assert(acts[i] == head[0]);
            } else if i == hl {
                assert(acts[i] == ck);
            } else {
                assert(acts[i] == rest[i - hl - 1]);
            }
            if j < hl {
                assert(acts[j] == head[0]);
            } else if j == hl {
                assert(acts[j] == ck);
            } else {
                assert(acts[j] == rest[j - hl - 1]);
                assert(ck_in_range(
                    rest[j - hl - 1],
                    cfg.base_index + from + 2,
                    cfg.base_index + to,
                    cfg,
                ));
                if i > hl {
                    assert(ck_no_decrease(rest[i - hl - 1], rest[j - hl - 1]));
                    assert(ck_in_range(
                        rest[i - hl - 1],
                        cfg.base_index + from + 2,
                        cfg.base_index + to,
                        cfg,
                    ));
                }
            }
        }
    }
}

/// Empty findings are suppressed: committing one completed slot writes
/// its output line only when the finding is not blank, and advances the
/// checkpoint either way.
pub proof fn lemma_empty_finding_suppressed(
    p: Seq<Option<(String, String)>>,
    from: int,
    cfg: RecorderConfig,
)
    requires
        0 <= from < p.len(),
        p[from] is Some,
    ensures
        commit_actions(p, from, from + 1, cfg) == commit_head(p, from) + seq![
            RecorderActionView::WriteCheckpoint {
                checkpoint: cfg_checkpoint(cfg, (cfg.base_index + from + 1) as nat),
            },
        ],
        ({
            let e = p[from]->0;
            &&& (is_blank(e.1@) ==> commit_head(p, from) == Seq::<RecorderActionView>::empty())
            &&& (!is_blank(e.1@) ==> commit_head(p, from) == seq![
                RecorderActionView::AppendOutput { line: record_line(e.0@, e.1@) },
            ])
        }),
{
    assert(commit_actions(p, from + 1, from + 1, cfg) =~= Seq::<RecorderActionView>::empty());
    assert(commit_actions(p, from, from + 1, cfg) =~= commit_head(p, from) + seq![
        RecorderActionView::WriteCheckpoint {
            checkpoint: cfg_checkpoint(cfg, (cfg.base_index + from + 1) as nat),
        },
    ]);
}

/// The action stream of a commit splits at any midpoint: what an
/// uninterrupted run emits for slots `from..to` is what it emits for
/// `from..k` followed by what it emits for `k..to`.  A run that stops
/// after `k` slots therefore lacks exactly the suffix, which a resumed
/// run contributes.
pub proof fn lemma_commit_actions_split(
    p: Seq<Option<(String, String)>>,
    from: int,
    k: int,
    to: int,
    cfg: RecorderConfig,
)
    requires
        from <= k <= to,
    ensures
        commit_actions(p, from, to, cfg) == commit_actions(p, from, k, cfg) + commit_actions(
            p,
            k,
            to,
            cfg,
        ),
    decreases k - from,
{
    if from < k {
        lemma_commit_actions_split(p, from + 1, k, to, cfg);
        assert(commit_actions(p, from, to, cfg) =~= commit_actions(p, from, k, cfg)
            + commit_actions(p, k, to, cfg));
    } else {
        assert(commit_actions(p, from, from, cfg) =~= Seq::<RecorderActionView>::empty());
        assert(commit_actions(p, from, to, cfg) =~= commit_actions(p, from, from, cfg)
            + commit_actions(p, from, to, cfg));
    }
}

/// A resumed recorder replays the uninterrupted run's suffix: with the
/// first `k` slots already committed by a prior run, a recorder whose
/// base lies `k` higher and whose buffer holds the remaining slots
/// emits exactly the actions the uninterrupted run would emit for those
/// slots.
pub proof fn lemma_commit_actions_rebase(
    p: Seq<Option<(String, String)>>,
    from: int,
    to: int,
    cfg: RecorderConfig,
    cfg2: RecorderConfig,
    k: int,
)
    requires
        0 <= k <= from <= to <= p.len(),
        cfg2.base_index == cfg.base_index + k,
        cfg2.targets_path@ == cfg.targets_path@,
        cfg2.output_path@ == cfg.output_path@,
        cfg2.mode@ == cfg.mode@,
    ensures
        commit_actions(p.subrange(k, p.len() as int), from - k, to - k, cfg2) == commit_actions(
            p,
            from,
            to,
            cfg,
        ),
    decreases to - from,
{
    let q = p.subrange(k, p.len() as int);
    if from < to {
        lemma_commit_actions_rebase(p, from + 1, to, cfg, cfg2, k);
        assert(q[from - k] == p[from]);
        assert(cfg_checkpoint(cfg2, (cfg2.base_index + (from - k) + 1) as nat) == cfg_checkpoint(
            cfg,
            (cfg.base_index + from + 1) as nat,
        ));
        assert(commit_actions(q, from - k, to - k, cfg2) =~= commit_actions(p, from, to, cfg));
    } else {
        assert(commit_actions(q, from - k, to - k, cfg2) =~= commit_actions(p, from, to, cfg));
    }
}

} // verus!
