//! The `CLzero` probe: differential detection of request smuggling via
//! raw HTTP/1.1 payloads whose `Content-Length` header is followed by a
//! garbage header line, probing parsers that resynchronise differently.
//!
//! The shape follows the `TrailSmug` probe — benign GET baseline, raw
//! payload, baseline re-check, twice per payload — but both iterations
//! always run (no early break and no pause), the status sets differ,
//! and a failed raw write is a terminal probe error.

use vstd::prelude::*;

use crate::probe::{parse_url_parts, url_parts, HttpProtocol, ProbeAction, ProbeError};
use crate::text::{dec_rep, join_lines, join_with_newlines, push_dec_u64, views_of};
use crate::trailsmug::{diff_finding, smug_baseline_spec, TrailSmugTask};

verus! {

/// The smuggled chunk every payload ends with.
pub open spec fn clzero_chunk() -> Seq<char> {
    "TRACE /hopefully404 HTTP/1.1\r\nX: "@
}

/// One raw payload: the `Content-Length` covers the smuggled chunk and
/// a bare garbage line `a` stands where a header belongs.
pub open spec fn clzero_payload(
    method: Seq<char>,
    with_expect: bool,
    path: Seq<char>,
    authority: Seq<char>,
) -> Seq<char> {
    method + " "@ + path + " HTTP/1.1\r\n"@ + "Host: "@ + authority + "\r\n"@
        + "Connection: keep-alive\r\n"@ + "User-Agent: Mozilla/5.0 (compatible; trailscan)\r\n"@
        + "Content-Length: "@ + dec_rep(clzero_chunk().len()) + "\r\n"@
        + "Content-Type: application/www-form-urlencoded\r\n"@ + (if with_expect {
        "Expect: 100-continue\r\n"@
    } else {
        Seq::<char>::empty()
    }) + "a\r\n"@ + "\r\n"@ + clzero_chunk()
}

/// The payload battery: GET, HEAD and POST plain, then OPTIONS with an
/// `Expect` header.
pub open spec fn clzero_payload_list(path: Seq<char>, authority: Seq<char>) -> Seq<Seq<char>> {
    seq![
        clzero_payload("GET"@, false, path, authority),
        clzero_payload("HEAD"@, false, path, authority),
        clzero_payload("POST"@, false, path, authority),
        clzero_payload("OPTIONS"@, true, path, authority),
    ]
}

/// The authority used when the URL carries none.
pub open spec fn clzero_authority(authority: Seq<char>) -> Seq<char> {
    if authority.len() == 0 {
        "localhost"@
    } else {
        authority
    }
}

/// A baseline status on which the target is not worth attacking.
pub open spec fn clzero_baseline_unsuitable(s: u16) -> bool {
    s == 400 || s == 429 || s == 502 || s == 503
}

/// A re-check status that does not count as a divergence.
pub open spec fn clzero_recheck_ignored(s: u16) -> bool {
    s == 403 || s == 429
}

/// The `CLzero` probe family; stateless, shared across targets.
#[derive(Debug, Clone, Copy, Default)]
pub struct CLzeroTask;

impl CLzeroTask {
    /// A `CLzero` probe.
    pub fn new() -> (r: CLzeroTask) {
        CLzeroTask
    }

    /// The raw payload battery for `target`: `None` when the target is
    /// no absolute URL, else the four payloads over the target's path
    /// and authority.
    pub fn build_attack_requests(target: &str) -> (r: Option<Vec<String>>)
        ensures
            r is Some <==> url_parts(target@) is Some,
            r matches Some(v) ==> (url_parts(target@) matches Some(parts) && views_of(v@)
                == clzero_payload_list(parts.0, clzero_authority(parts.1))),
    {
        let parts = match parse_url_parts(target) {
            Some(p) => p,
            None => {
                return None;
            },
        };
        let path = parts.0;
        let authority = if parts.1.as_str().unicode_len() == 0 {
            let l: &str = "localhost";
            l.to_owned()
        } else {
            parts.1
        };
        let mut v: Vec<String> = Vec::new();
        v.push(build_clzero_payload("GET", false, path.as_str(), authority.as_str()));
        v.push(build_clzero_payload("HEAD", false, path.as_str(), authority.as_str()));
        v.push(build_clzero_payload("POST", false, path.as_str(), authority.as_str()));
        v.push(build_clzero_payload("OPTIONS", true, path.as_str(), authority.as_str()));
        proof {
            assert(views_of(v@) =~= clzero_payload_list(path@, authority@));
        }
        Some(v)
    }

    /// Begins a scan of `target`.  A target that does not parse as a
    /// URL is finished at once with an empty finding; otherwise the
    /// baseline goes out.
    pub fn start(&self, target: String) -> (r: (CLzeroScan, ProbeAction))
        ensures
            r.0.wf(),
            r.0.target == target,
            r.0.findings@.len() == 0,
            url_parts(target@) is None ==> r.0.phase is Finished && (r.1 matches
                ProbeAction::Finish { result } && (result matches Ok(s) && s@.len() == 0)),
            url_parts(target@) matches Some(parts) ==> ({
                &&& views_of(r.0.payloads@) == clzero_payload_list(
                    parts.0,
                    clzero_authority(parts.1),
                )
                &&& r.0.phase is Baseline
                &&& r.1 matches ProbeAction::Send { request, protocol } && protocol
                    == HttpProtocol::Http1 && smug_baseline_spec(request, target@)
            }),
    {
        match Self::build_attack_requests(target.as_str()) {
            None => (
                CLzeroScan {
                    target,
                    payloads: Vec::new(),
                    baseline_status: 0,
                    findings: Vec::new(),
                    phase: CLzeroPhase::Finished,
                },
                ProbeAction::Finish { result: Ok(String::new()) },
            ),
            Some(payloads) => {
                let request = TrailSmugTask::build_baseline_request(target.as_str());
                (
                    CLzeroScan {
                        target,
                        payloads,
                        baseline_status: 0,
                        findings: Vec::new(),
                        phase: CLzeroPhase::Baseline,
                    },
                    ProbeAction::Send { request, protocol: HttpProtocol::Http1 },
                )
            },
        }
    }
}

fn build_clzero_payload(method: &str, with_expect: bool, path: &str, authority: &str) -> (r:
    String)
    ensures
        r@ == clzero_payload(method@, with_expect, path@, authority@),
{
    let chunk: &str = "TRACE /hopefully404 HTTP/1.1\r\nX: ";
    let mut s = String::new();
    s.append(method);
    s.append(" ");
    s.append(path);
    s.append(" HTTP/1.1\r\n");
    s.append("Host: ");
    s.append(authority);
    s.append("\r\n");
    s.append("Connection: keep-alive\r\n");
    s.append("User-Agent: Mozilla/5.0 (compatible; trailscan)\r\n");
    s.append("Content-Length: ");
    push_dec_u64(&mut s, chunk.unicode_len() as u64);
    s.append("\r\n");
    s.append("Content-Type: application/www-form-urlencoded\r\n");
    if with_expect {
        s.append("Expect: 100-continue\r\n");
    }
    s.append("a\r\n");
    s.append("\r\n");
    s.append(chunk);
    proof {
        assert(chunk@ == clzero_chunk());
        assert(s@ =~= clzero_payload(method@, with_expect, path@, authority@));
    }
    s
}

/// Where a `CLzero` scan stands.
#[derive(Debug)]
pub enum CLzeroPhase {
    /// Waiting for the first baseline's status.
    Baseline,
    /// Waiting for the raw write of payload `p`, iteration `iter`, to
    /// complete; `diff` records a divergence seen in iteration 0.
    RawSend { p: usize, iter: u8, diff: bool },
    /// Waiting for the status of the baseline re-sent after the raw
    /// write of payload `p`.
    Recheck { p: usize, iter: u8, diff: bool },
    /// The scan is over; no further event is expected.
    Finished,
}

/// One `CLzero` scan, stepped by driver events.
#[derive(Debug)]
pub struct CLzeroScan {
    /// The target URL under scan.
    pub target: String,
    /// The raw payloads of this target.
    pub payloads: Vec<String>,
    /// The status of the first, healthy baseline.
    pub baseline_status: u16,
    /// The finding lines accumulated so far.
    pub findings: Vec<String>,
    /// Where the scan stands.
    pub phase: CLzeroPhase,
}

/// The scan at `pre` has moved past payload `p`: findings grew by
/// `pushed`, and either the next payload's first raw write went out or
/// the scan finished with the joined findings.
pub open spec fn clzero_moved_past(
    pre: CLzeroScan,
    post: CLzeroScan,
    action: ProbeAction,
    p: int,
    pushed: Seq<Seq<char>>,
) -> bool {
    &&& post.target == pre.target
    &&& post.payloads == pre.payloads
    &&& post.baseline_status == pre.baseline_status
    &&& views_of(post.findings@) == views_of(pre.findings@) + pushed
    &&& if p + 1 < pre.payloads@.len() {
        &&& post.phase == (CLzeroPhase::RawSend { p: (p + 1) as usize, iter: 0u8, diff: false })
        &&& action matches ProbeAction::SendRaw { payload } && payload@ == pre.payloads@[p + 1]@
    } else {
        &&& post.phase is Finished
        &&& action matches ProbeAction::Finish { result } && (result matches Ok(s) && s@
            == join_lines(views_of(post.findings@)))
    }
}

impl CLzeroScan {
    /// The payload index always points into the battery and iterations
    /// count to one.
    pub open spec fn wf(self) -> bool {
        match self.phase {
            CLzeroPhase::RawSend { p, iter, .. } => p < self.payloads@.len() && iter <= 1,
            CLzeroPhase::Recheck { p, iter, .. } => p < self.payloads@.len() && iter <= 1,
            _ => true,
        }
    }

    /// Whether the scan waits for a response status.
    pub fn awaiting_status(&self) -> (r: bool)
        ensures
            r == (self.phase is Baseline || self.phase matches CLzeroPhase::Recheck { .. }),
    {
        match self.phase {
            CLzeroPhase::Baseline => true,
            CLzeroPhase::Recheck { .. } => true,
            _ => false,
        }
    }

    /// Whether the scan waits for a raw write to complete.
    pub fn awaiting_done(&self) -> (r: bool)
        ensures
            r == (self.phase matches CLzeroPhase::RawSend { .. }),
    {
        match self.phase {
            CLzeroPhase::RawSend { .. } => true,
            _ => false,
        }
    }

    /// Whether the scan is over.
    pub fn is_finished(&self) -> (r: bool)
        ensures
            r == (self.phase is Finished),
    {
        match self.phase {
            CLzeroPhase::Finished => true,
            _ => false,
        }
    }

    /// Takes the first baseline's status: an unsuitable status ends the
    /// scan empty, a healthy one starts the first payload.
    pub fn on_baseline_status(&mut self, status: u16) -> (action: ProbeAction)
        requires
            old(self).wf(),
            old(self).phase is Baseline,
        ensures
            final(self).wf(),
            final(self).target == old(self).target,
            clzero_baseline_unsuitable(status) || old(self).payloads@.len() == 0 ==> ({
                &&& final(self).phase is Finished
                &&& action matches ProbeAction::Finish { result } && (result matches Ok(s)
                    && s@.len() == 0)
            }),
            !(clzero_baseline_unsuitable(status) || old(self).payloads@.len() == 0) ==> ({
                &&& final(self).payloads == old(self).payloads
                &&& final(self).findings == old(self).findings
                &&& final(self).baseline_status == status
                &&& final(self).phase == (CLzeroPhase::RawSend {
                    p: 0usize,
                    iter: 0u8,
                    diff: false,
                })
                &&& action matches ProbeAction::SendRaw { payload } && payload@ == old(
                    self,
                ).payloads@[0]@
            }),
    {
        if status == 400 || status == 429 || status == 502 || status == 503
            || self.payloads.len() == 0 {
            self.phase = CLzeroPhase::Finished;
            ProbeAction::Finish { result: Ok(String::new()) }
        } else {
            self.baseline_status = status;
            self.phase = CLzeroPhase::RawSend { p: 0, iter: 0, diff: false };
            ProbeAction::SendRaw { payload: self.payloads[0].clone() }
        }
    }

    /// Takes a failure of the first baseline: the scan ends empty.
    pub fn on_baseline_failed(&mut self, error: ProbeError) -> (action: ProbeAction)
        requires
            old(self).phase is Baseline,
        ensures
            final(self).wf(),
            final(self).phase is Finished,
            action matches ProbeAction::Finish { result } && (result matches Ok(s) && s@.len()
                == 0),
    {
        let _ = error;
        self.phase = CLzeroPhase::Finished;
        ProbeAction::Finish { result: Ok(String::new()) }
    }

    /// Takes the completion of a raw write: the baseline re-check goes
    /// out.
    pub fn on_done(&mut self) -> (action: ProbeAction)
        requires
            old(self).wf(),
            old(self).phase matches CLzeroPhase::RawSend { .. },
        ensures
            final(self).wf(),
            final(self).target == old(self).target,
            final(self).payloads == old(self).payloads,
            final(self).baseline_status == old(self).baseline_status,
            final(self).findings == old(self).findings,
            old(self).phase matches CLzeroPhase::RawSend { p, iter, diff } ==> ({
                &&& final(self).phase == (CLzeroPhase::Recheck { p, iter, diff })
                &&& action matches ProbeAction::Send { request, protocol } && protocol
                    == HttpProtocol::Http1 && smug_baseline_spec(request, old(self).target@)
            }),
    {
        match self.phase {
            CLzeroPhase::RawSend { p, iter, diff } => {
                self.phase = CLzeroPhase::Recheck { p, iter, diff };
                let request = TrailSmugTask::build_baseline_request(self.target.as_str());
                ProbeAction::Send { request, protocol: HttpProtocol::Http1 }
            },
            _ => unreached(),
        }
    }

    /// Takes a raw-write failure: terminal for this probe.
    pub fn on_raw_failed(&mut self, error: ProbeError) -> (action: ProbeAction)
        requires
            old(self).phase matches CLzeroPhase::RawSend { .. },
        ensures
            final(self).wf(),
            final(self).phase is Finished,
            action matches ProbeAction::Finish { result } && (result matches Err(e) && e
                == error),
    {
        self.phase = CLzeroPhase::Finished;
        ProbeAction::Finish { result: Err(error) }
    }

    /// Takes the status of a baseline re-check.  Unlike `TrailSmug`,
    /// both iterations always run: a first-iteration divergence only
    /// sets the flag, and the finding needs a second divergence.
    pub fn on_recheck_status(&mut self, status: u16) -> (action: ProbeAction)
        requires
            old(self).wf(),
            old(self).phase matches CLzeroPhase::Recheck { .. },
        ensures
            final(self).wf(),
            old(self).phase matches CLzeroPhase::Recheck { p, iter, diff } ==> ({
                let diverged = status != old(self).baseline_status && !clzero_recheck_ignored(
                    status,
                );
                if iter == 0 {
                    &&& final(self).target == old(self).target
                    &&& final(self).payloads == old(self).payloads
                    &&& final(self).baseline_status == old(self).baseline_status
                    &&& final(self).findings == old(self).findings
                    &&& final(self).phase == (CLzeroPhase::RawSend {
                        p,
                        iter: 1u8,
                        diff: diverged,
                    })
                    &&& action matches ProbeAction::SendRaw { payload } && payload@ == old(
                        self,
                    ).payloads@[p as int]@
                } else if diverged && diff {
                    clzero_moved_past(
                        *old(self),
                        *final(self),
                        action,
                        p as int,
                        seq![
                            diff_finding(
                                old(self).target@,
                                old(self).baseline_status,
                                status,
                                old(self).payloads@[p as int]@,
                            ),
                        ],
                    )
                } else {
                    clzero_moved_past(*old(self), *final(self), action, p as int, Seq::empty())
                }
            }),
    {
        match self.phase {
            CLzeroPhase::Recheck { p, iter, diff } => {
                let diverged = status != self.baseline_status && !(status == 403 || status
                    == 429);
                if iter == 0 {
                    self.phase = CLzeroPhase::RawSend { p, iter: 1, diff: diverged };
                    ProbeAction::SendRaw { payload: self.payloads[p].clone() }
                } else if diverged && diff {
                    let f = build_clzero_finding(
                        self.target.as_str(),
                        self.baseline_status,
                        status,
                        self.payloads[p].as_str(),
                    );
                    proof {
                        assert(views_of(self.findings@.push(f)) =~= views_of(self.findings@)
                            + seq![f@]);
                    }
                    self.findings.push(f);
                    self.next_payload(p)
                } else {
                    self.next_payload(p)
                }
            },
            _ => unreached(),
        }
    }

    /// Takes a re-check failure: the findings so far are returned.
    pub fn on_recheck_failed(&mut self, error: ProbeError) -> (action: ProbeAction)
        requires
            old(self).phase matches CLzeroPhase::Recheck { .. },
        ensures
            final(self).wf(),
            final(self).phase is Finished,
            final(self).findings == old(self).findings,
            action matches ProbeAction::Finish { result } && (result matches Ok(s) && s@
                == join_lines(views_of(old(self).findings@))),
    {
        let _ = error;
        self.phase = CLzeroPhase::Finished;
        let joined = join_with_newlines(&self.findings);
        ProbeAction::Finish { result: Ok(joined) }
    }

    fn next_payload(&mut self, p: usize) -> (action: ProbeAction)
        requires
            old(self).wf(),
            p < old(self).payloads@.len(),
        ensures
            final(self).wf(),
            clzero_moved_past(*old(self), *final(self), action, p as int, Seq::empty()),
    {
        proof {
            assert(views_of(self.findings@) =~= views_of(self.findings@) + Seq::<
                Seq<char>,
            >::empty());
        }
        let n = self.payloads.len();
        if p + 1 < n {
            let next = p + 1;
            self.phase = CLzeroPhase::RawSend { p: next, iter: 0, diff: false };
            ProbeAction::SendRaw { payload: self.payloads[next].clone() }
        } else {
            self.phase = CLzeroPhase::Finished;
            let joined = join_with_newlines(&self.findings);
            ProbeAction::Finish { result: Ok(joined) }
        }
    }
}

fn build_clzero_finding(target: &str, baseline: u16, current: u16, payload: &str) -> (r: String)
    ensures
        r@ == diff_finding(target@, baseline, current, payload@),
{
    let mut s = String::new();
    s.append("[!] ");
    s.append(target);
    s.append(" resp difference: baseline ");
    push_dec_u64(&mut s, baseline as u64);
    s.append(" curr ");
    push_dec_u64(&mut s, current as u64);
    s.append(" payload ");
    s.append(payload);
    proof {
        assert(s@ =~= diff_finding(target@, baseline, current, payload@));
    }
    s
}

} // verus!
