//! Work distribution: streams targets through a bounded pool of
//! concurrent probe invocations while preserving input ordering of
//! results.
//!
//! The [`Executor`] is the bookkeeping heart of the scheduler.  The
//! embedding runtime asks it which target to start next ([`Executor::start_next`]),
//! reports each completion in whatever order it arrives
//! ([`Executor::complete`]), and finally collects the results in
//! submission order ([`Executor::into_results`]).  The executor
//! guarantees that at most `concurrency` submissions are ever in flight
//! and that the collected vector pairs every target, in input order, with
//! the output reported for it.

use vstd::prelude::*;

verus! {

/// Why a scan failed.
#[derive(Debug)]
pub enum ExecutionError {
    /// A probe reported a terminal error for one target.
    TaskFailed { target: String, error: String },
    /// Writing the findings or the checkpoint failed.
    Persistence { error: String },
    /// The runtime around the scan failed (a lost task or channel).
    Internal { error: String },
}

impl ExecutionError {
    /// A terminal probe failure for `target`.
    pub fn task_failed(target: String, error: String) -> (r: ExecutionError)
        ensures
            r == (ExecutionError::TaskFailed { target, error }),
    {
        ExecutionError::TaskFailed { target, error }
    }

    /// A failure to persist scan progress.
    pub fn persistence(error: String) -> (r: ExecutionError)
        ensures
            r == (ExecutionError::Persistence { error }),
    {
        ExecutionError::Persistence { error }
    }

    /// An internal runtime failure.
    pub fn internal(error: String) -> (r: ExecutionError)
        ensures
            r == (ExecutionError::Internal { error }),
    {
        ExecutionError::Internal { error }
    }

    /// The human-readable description of this error.
    pub fn describe(&self) -> (r: String)
        ensures
            r@ == match self {
                ExecutionError::TaskFailed { target, error } => "task failed for target '"@
                    + target@ + "': "@ + error@,
                ExecutionError::Persistence { error } => "failed to persist scan progress: "@
                    + error@,
                ExecutionError::Internal { error } =>
                    "scanner encountered an internal error: "@ + error@,
            },
    {
        let mut s = String::new();
        match self {
            ExecutionError::TaskFailed { target, error } => {
                s.append("task failed for target '");
                s.append(target.as_str());
                s.append("': ");
                s.append(error.as_str());
            },
            ExecutionError::Persistence { error } => {
                s.append("failed to persist scan progress: ");
                s.append(error.as_str());
            },
            ExecutionError::Internal { error } => {
                s.append("scanner encountered an internal error: ");
                s.append(error.as_str());
            },
        }
        proof {
            assert(s@ =~= match self {
                ExecutionError::TaskFailed { target, error } => "task failed for target '"@
                    + target@ + "': "@ + error@,
                ExecutionError::Persistence { error } => "failed to persist scan progress: "@
                    + error@,
                ExecutionError::Internal { error } =>
                    "scanner encountered an internal error: "@ + error@,
            });
        }
        s
    }
}

/// How many of the slots hold a completed output.
pub open spec fn count_some(s: Seq<Option<String>>) -> int
    decreases s.len(),
{
    if s.len() == 0 {
        0
    } else {
        count_some(s.drop_last()) + if s.last() is Some {
            1int
        } else {
            0int
        }
    }
}

proof fn lemma_count_some_push(s: Seq<Option<String>>, x: Option<String>)
    ensures
        count_some(s.push(x)) == count_some(s) + if x is Some {
            1int
        } else {
            0int
        },
{
    assert(s.push(x).drop_last() =~= s);
}

proof fn lemma_count_some_update(s: Seq<Option<String>>, i: int, v: String)
    requires
        0 <= i < s.len(),
        s[i] is None,
    ensures
        count_some(s.update(i, Some(v))) == count_some(s) + 1,
    decreases s.len(),
{
    if i == s.len() - 1 {
        assert(s.update(i, Some(v)).drop_last() =~= s.drop_last());
    } else {
        lemma_count_some_update(s.drop_last(), i, v);
        assert(s.update(i, Some(v)).drop_last() =~= s.drop_last().update(i, Some(v)));
        assert(s.update(i, Some(v)).last() == s.last());
    }
}

proof fn lemma_count_some_bounds(s: Seq<Option<String>>)
    ensures
        0 <= count_some(s) <= s.len(),
        count_some(s) == s.len() ==> forall|i: int| 0 <= i < s.len() ==> s[i] is Some,
    decreases s.len(),
{
    if s.len() > 0 {
        lemma_count_some_bounds(s.drop_last());
        if count_some(s) == s.len() {
            assert forall|i: int| 0 <= i < s.len() implies s[i] is Some by {
                if i < s.len() - 1 {
                    assert(s.drop_last()[i] == s[i]);
                }
            }
        }
    }
}

proof fn lemma_count_some_restrict(s: Seq<Option<String>>, k: int)
    requires
        0 <= k <= s.len(),
        forall|j: int| k <= j < s.len() ==> s[j] is None,
    ensures
        count_some(s) == count_some(s.subrange(0, k)),
    decreases s.len(),
{
    if s.len() == k {
        assert(s.subrange(0, k) =~= s);
    } else {
        lemma_count_some_restrict(s.drop_last(), k);
        assert(s.drop_last().subrange(0, k) =~= s.subrange(0, k));
    }
}

proof fn lemma_count_some_hole(s: Seq<Option<String>>, i: int)
    requires
        0 <= i < s.len(),
        s[i] is None,
    ensures
        count_some(s) <= s.len() - 1,
    decreases s.len(),
{
    lemma_count_some_bounds(s.drop_last());
    if i < s.len() - 1 {
        lemma_count_some_hole(s.drop_last(), i);
    }
}

/// The bookkeeping of a bounded-concurrency scan over a fixed target
/// list: which submission comes next, which are still in flight, and the
/// output reported for each finished one.
pub struct Executor {
    /// The targets of this run, in submission order.
    pub targets: Vec<String>,
    /// The cap on simultaneously in-flight submissions; at least 1.
    pub concurrency: usize,
    /// How many targets have been handed out so far.
    pub started: usize,
    /// How many have been reported complete.
    pub n_done: usize,
    /// For every submitted-and-finished index, the probe's output.
    pub slots: Vec<Option<String>>,
}

impl Executor {
    /// The internal consistency of the bookkeeping.
    pub open spec fn wf(self) -> bool {
        &&& self.concurrency >= 1
        &&& self.slots@.len() == self.targets@.len()
        &&& self.started <= self.targets@.len()
        &&& self.n_done == count_some(self.slots@)
        &&& self.n_done <= self.started
        &&& self.started - self.n_done <= self.concurrency
        &&& forall|i: int| self.started <= i < self.slots@.len() ==> self.slots@[i] is None
    }

    /// How many submissions are in flight: started but not yet complete.
    pub open spec fn inflight(self) -> int {
        self.started - self.n_done
    }

    /// A fresh executor over `targets`; a concurrency of zero is raised
    /// to one.
    pub fn new(targets: Vec<String>, concurrency: usize) -> (r: Executor)
        ensures
            r.wf(),
            r.targets@ == targets@,
            r.concurrency == if concurrency == 0 {
                1usize
            } else {
                concurrency
            },
            r.started == 0,
            r.n_done == 0,
    {
        let n = targets.len();
        let mut slots: Vec<Option<String>> = Vec::new();
        let mut i: usize = 0;
        while i < n
            invariant
                0 <= i <= n,
                slots@.len() == i,
                count_some(slots@) == 0,
                forall|j: int| 0 <= j < i ==> slots@[j] is None,
            decreases n - i,
        {
            proof {
                lemma_count_some_push(slots@, None);
            }
            slots.push(None);
            i = i + 1;
        }
        let c = if concurrency == 0 {
            1
        } else {
            concurrency
        };
        Executor { targets, concurrency: c, started: 0, n_done: 0, slots }
    }

    /// Hands out the next submission when one is available and the
    /// in-flight cap allows it: the submission index and the target.
    pub fn start_next(&mut self) -> (r: Option<(usize, String)>)
        requires
            old(self).wf(),
        ensures
            final(self).wf(),
            final(self).targets == old(self).targets,
            final(self).concurrency == old(self).concurrency,
            final(self).slots == old(self).slots,
            final(self).n_done == old(self).n_done,
            r is Some <==> (old(self).started < old(self).targets@.len() && old(self).inflight()
                < old(self).concurrency),
            match r {
                Some(p) => p.0 == old(self).started && p.1@ == old(self).targets@[old(
                    self,
                ).started as int]@ && final(self).started == old(self).started + 1,
                None => final(self).started == old(self).started,
            },
    {
        if self.started < self.targets.len() && self.started - self.n_done < self.concurrency {
            let i = self.started;
            self.started = i + 1;
            Some((i, self.targets[i].clone()))
        } else {
            None
        }
    }

    /// Records the probe output for one submission, in any order.  The
    /// report is accepted when `index` was handed out and not yet
    /// completed; a stale or unknown index is ignored.
    pub fn complete(&mut self, index: usize, output: String) -> (r: bool)
        requires
            old(self).wf(),
        ensures
            final(self).wf(),
            final(self).targets == old(self).targets,
            final(self).concurrency == old(self).concurrency,
            final(self).started == old(self).started,
            r == (index < old(self).started && old(self).slots@[index as int] is None),
            r ==> final(self).slots@ == old(self).slots@.update(index as int, Some(output))
                && final(self).n_done == old(self).n_done + 1,
            !r ==> final(self).slots == old(self).slots && final(self).n_done == old(
                self,
            ).n_done,
    {
        if index < self.started && self.slots[index].is_none() {
            proof {
                lemma_count_some_update(self.slots@, index as int, output);
                lemma_count_some_restrict(self.slots@, self.started as int);
                assert(self.slots@.subrange(0, self.started as int)[index as int] is None);
                lemma_count_some_hole(self.slots@.subrange(0, self.started as int), index as int);
            }
            self.slots[index] = Some(output);
            self.n_done = self.n_done + 1;
            true
        } else {
            false
        }
    }

    /// Whether every target has been submitted and completed.
    pub fn is_done(&self) -> (r: bool)
        requires
            self.wf(),
        ensures
            r == (self.started == self.targets@.len() && self.n_done == self.started),
    {
        self.started == self.targets.len() && self.n_done == self.started
    }

    /// The results of a finished run, in submission order: entry `i`
    /// pairs target `i` with the output reported for submission `i`.
    pub fn into_results(self) -> (r: Vec<(String, String)>)
        requires
            self.wf(),
            self.started == self.targets@.len(),
            self.n_done == self.started,
        ensures
            r@.len() == self.targets@.len(),
            forall|i: int|
                0 <= i < r@.len() ==> r@[i].0@ == self.targets@[i]@ && (self.slots@[i] matches
                Some(o) && o@ == r@[i].1@),
    {
        proof {
            lemma_count_some_bounds(self.slots@);
        }
        let n = self.targets.len();
        let mut r: Vec<(String, String)> = Vec::new();
        let mut i: usize = 0;
        while i < n
            invariant
                0 <= i <= n,
                n == self.targets@.len(),
                n == self.slots@.len(),
                forall|j: int| 0 <= j < n ==> self.slots@[j] is Some,
                r@.len() == i,
                forall|j: int|
                    0 <= j < i ==> r@[j].0@ == self.targets@[j]@ && (self.slots@[j] matches Some(
                        o,
                    ) && o@ == r@[j].1@),
            decreases n - i,
        {
            let t = self.targets[i].clone();
            let out = match &self.slots[i] {
                Some(x) => x.clone(),
                None => unreached(),
            };
            proof {
                assert(self.slots@[i as int] is Some);
            }
            r.push((t, out));
            i = i + 1;
        }
        r
    }
}

/// Bounded concurrency: a well-formed executor never has more
/// submissions in flight than its configured cap.
pub proof fn lemma_bounded_concurrency(e: Executor)
    requires
        e.wf(),
    ensures
        e.inflight() <= e.concurrency,
{
}

} // verus!
