//! The `TrailMerge` probe: detects request smuggling through
//! intermediaries that merge or mis-forward HTTP trailers.
//!
//! Per target, the probe asks the protocol detector which versions the
//! target speaks, and for each detected version sends a benign baseline
//! `POST` carrying an innocuous trailer; when the baseline itself shows
//! nothing, it repeats the request with a `content-length` trailer and
//! reads the status: a gateway timeout marks a finding.  Timeouts are
//! reported as their own finding line, an invalid target ends the scan,
//! any other transport failure is swallowed.

use vstd::prelude::*;

use crate::probe::{
    protocol_name, DetectedProtocol, HttpProtocol, ProbeAction, ProbeError, RequestSpec,
};
use crate::probe::user_agent_header;
use crate::text::{join_lines, join_with_newlines, opt_view, views_of};

verus! {

/// The finding for a gateway timeout observed over `proto`.
pub open spec fn gateway_timeout_finding(proto: HttpProtocol, target: Seq<char>) -> Seq<char> {
    "[+] gateway timeout! "@ + protocol_name(proto) + " "@ + target
}

/// The finding for a probe that timed out over `proto`.
pub open spec fn probe_timeout_finding(proto: HttpProtocol, target: Seq<char>) -> Seq<char> {
    "[!] timeout "@ + protocol_name(proto) + " "@ + target
}

/// What a response status means for this probe: 504 is a finding,
/// everything else is not.
pub open spec fn spec_interpret_status(
    proto: HttpProtocol,
    status: u16,
    target: Seq<char>,
) -> Option<Seq<char>> {
    if status == 504 {
        Some(gateway_timeout_finding(proto, target))
    } else {
        None
    }
}

/// The fields every `TrailMerge` request shares: a `POST` to the target
/// with the scan's marker headers, the trailer capability announced, a
/// small body, redirects followed, and the detected port applied.
pub open spec fn common_request_spec(r: RequestSpec, target: Seq<char>, port: Option<u16>) -> bool {
    &&& r.url@ == target
    &&& r.method@ == "POST"@
    &&& views_of(r.headers@) == seq![
        "user-agent: Mozilla/5.0 (compatible; trailscan)"@,
        "bug-bounty: scan"@,
        "te: trailers"@,
    ]
    &&& r.body@ == "test"@
    &&& r.connect_timeout_secs == 3
    &&& r.io_timeout_secs == 10
    &&& r.follow_redirects
    &&& r.port == port
}

/// The baseline request: common fields with the innocuous trailer.
pub open spec fn baseline_request_spec(
    r: RequestSpec,
    target: Seq<char>,
    port: Option<u16>,
) -> bool {
    &&& common_request_spec(r, target, port)
    &&& views_of(r.trailers@) == seq!["test: test"@]
}

/// The attack request: common fields with a `content-length` trailer
/// that a merging intermediary may forward into the origin request.
pub open spec fn attack_request_spec(r: RequestSpec, target: Seq<char>, port: Option<u16>) -> bool {
    &&& common_request_spec(r, target, port)
    &&& views_of(r.trailers@) == seq!["content-length: 10000"@]
}

/// The `TrailMerge` probe family; stateless, shared across targets.
#[derive(Debug, Clone, Copy, Default)]
pub struct TrailMergeTask;

impl TrailMergeTask {
    /// A `TrailMerge` probe.
    pub fn new() -> (r: TrailMergeTask) {
        TrailMergeTask
    }

    /// The benign baseline request for `target`.
    pub fn build_test_request(target: &str, port: Option<u16>) -> (r: RequestSpec)
        ensures
            baseline_request_spec(r, target@, port),
    {
        let r = Self::build_common_request(target, port);
        let mut trailers: Vec<String> = Vec::new();
        trailers.push(literal_string("test: test"));
        proof {
            assert(views_of(trailers@) =~= seq!["test: test"@]);
        }
        RequestSpec { trailers, ..r }
    }

    /// The attack request for `target`: the `content-length` trailer.
    pub fn build_timeout_request(target: &str, port: Option<u16>) -> (r: RequestSpec)
        ensures
            attack_request_spec(r, target@, port),
    {
        let r = Self::build_common_request(target, port);
        let mut trailers: Vec<String> = Vec::new();
        trailers.push(literal_string("content-length: 10000"));
        proof {
            assert(views_of(trailers@) =~= seq!["content-length: 10000"@]);
        }
        RequestSpec { trailers, ..r }
    }

    fn build_common_request(target: &str, port: Option<u16>) -> (r: RequestSpec)
        ensures
            common_request_spec(r, target@, port),
            r.trailers@.len() == 0,
    {
        let mut headers: Vec<String> = Vec::new();
        headers.push(user_agent_header().to_owned());
        headers.push(literal_string("bug-bounty: scan"));
        headers.push(literal_string("te: trailers"));
        proof {
            assert(views_of(headers@) =~= seq![
                "user-agent: Mozilla/5.0 (compatible; trailscan)"@,
                "bug-bounty: scan"@,
                "te: trailers"@,
            ]);
        }
        RequestSpec {
            url: target.to_owned(),
            method: literal_string("POST"),
            headers,
            trailers: Vec::new(),
            body: literal_string("test"),
            connect_timeout_secs: 3,
            io_timeout_secs: 10,
            follow_redirects: true,
            port,
        }
    }

    /// Begins a scan of `target`; the returned action asks the driver
    /// for the protocol detection.
    pub fn start(&self, target: String) -> (r: (TrailMergeScan, ProbeAction))
        ensures
            r.0.wf(),
            r.0.target == target,
            r.0.findings@.len() == 0,
            r.0.phase is Detecting,
            r.1 is Detect,
    {
        (
            TrailMergeScan {
                target,
                protocols: Vec::new(),
                findings: Vec::new(),
                phase: TrailMergePhase::Detecting,
            },
            ProbeAction::Detect,
        )
    }
}

fn literal_string(s: &'static str) -> (r: String)
    ensures
        r@ == s@,
{
    s.to_owned()
}

/// Where a `TrailMerge` scan stands.
#[derive(Debug)]
pub enum TrailMergePhase {
    /// Waiting for the protocol detector's answer.
    Detecting,
    /// Waiting for the baseline response over protocol `idx`.
    Baseline { idx: usize },
    /// Waiting for the attack response over protocol `idx`.
    Attack { idx: usize },
    /// The scan is over; no further event is expected.
    Finished,
}

/// One `TrailMerge` scan: the decisions of [`TrailMergeTask`]'s
/// algorithm for a single target, stepped by driver events.
#[derive(Debug)]
pub struct TrailMergeScan {
    /// The target URL under scan.
    pub target: String,
    /// The detector's answers, once received.
    pub protocols: Vec<DetectedProtocol>,
    /// The finding lines accumulated so far.
    pub findings: Vec<String>,
    /// Where the scan stands.
    pub phase: TrailMergePhase,
}

/// The scan at `pre` has moved past protocol `i`: the findings grew by
/// `pushed`, and either the baseline of the next protocol went out or
/// the scan finished with the joined findings.
pub open spec fn advanced_past(
    pre: TrailMergeScan,
    post: TrailMergeScan,
    action: ProbeAction,
    i: int,
    pushed: Seq<Seq<char>>,
) -> bool {
    &&& post.target == pre.target
    &&& post.protocols == pre.protocols
    &&& views_of(post.findings@) == views_of(pre.findings@) + pushed
    &&& if i + 1 < pre.protocols@.len() {
        &&& post.phase == (TrailMergePhase::Baseline { idx: (i + 1) as usize })
        &&& action matches ProbeAction::Send { request, protocol } && protocol
            == pre.protocols@[i + 1].protocol && baseline_request_spec(
            request,
            pre.target@,
            pre.protocols@[i + 1].port,
        )
    } else {
        &&& post.phase is Finished
        &&& action matches ProbeAction::Finish { result } && (result matches Ok(s) && s@
            == join_lines(views_of(post.findings@)))
    }
}

impl TrailMergeScan {
    /// The phase index always points into the protocol list.
    pub open spec fn wf(self) -> bool {
        match self.phase {
            TrailMergePhase::Baseline { idx } => idx < self.protocols@.len(),
            TrailMergePhase::Attack { idx } => idx < self.protocols@.len(),
            _ => true,
        }
    }

    /// Whether the scan waits for the detector.
    pub fn awaiting_detection(&self) -> (r: bool)
        ensures
            r == (self.phase is Detecting),
    {
        match self.phase {
            TrailMergePhase::Detecting => true,
            _ => false,
        }
    }

    /// Whether the scan waits for a response or send outcome.
    pub fn awaiting_response(&self) -> (r: bool)
        ensures
            r == (self.phase matches TrailMergePhase::Baseline { .. } || self.phase matches
                TrailMergePhase::Attack { .. }),
    {
        match self.phase {
            TrailMergePhase::Baseline { .. } => true,
            TrailMergePhase::Attack { .. } => true,
            _ => false,
        }
    }

    /// Takes the detector's answer: no protocols ends the scan with no
    /// findings, otherwise the first baseline goes out.
    pub fn on_protocols(&mut self, list: Vec<DetectedProtocol>) -> (action: ProbeAction)
        requires
            old(self).phase is Detecting,
        ensures
            final(self).wf(),
            final(self).target == old(self).target,
            final(self).findings == old(self).findings,
            final(self).protocols == list,
            list@.len() == 0 ==> final(self).phase is Finished && (action matches
                ProbeAction::Finish { result } && (result matches Ok(s) && s@ == join_lines(
                views_of(final(self).findings@),
            ))),
            list@.len() > 0 ==> final(self).phase == (TrailMergePhase::Baseline { idx: 0usize })
                && (action matches ProbeAction::Send { request, protocol } && protocol
                == list@[0].protocol && baseline_request_spec(
                request,
                old(self).target@,
                list@[0].port,
            )),
    {
        self.protocols = list;
        if self.protocols.len() == 0 {
            self.phase = TrailMergePhase::Finished;
            let joined = join_with_newlines(&self.findings);
            ProbeAction::Finish { result: Ok(joined) }
        } else {
            self.phase = TrailMergePhase::Baseline { idx: 0 };
            let det = self.protocols[0];
            let request = TrailMergeTask::build_test_request(self.target.as_str(), det.port);
            ProbeAction::Send { request, protocol: det.protocol }
        }
    }

    /// Takes a detector failure: the scan ends with that error, as the
    /// detector's answer is the ground the whole probe stands on.
    pub fn on_detect_failed(&mut self, error: ProbeError) -> (action: ProbeAction)
        requires
            old(self).phase is Detecting,
        ensures
            final(self).wf(),
            final(self).phase is Finished,
            action matches ProbeAction::Finish { result } && (result matches Err(e) && e
                == error),
    {
        self.phase = TrailMergePhase::Finished;
        ProbeAction::Finish { result: Err(error) }
    }

    /// Takes a response status.  On the baseline: a status that already
    /// counts as a finding skips the attack for this protocol, any other
    /// lets the attack go out.  On the attack: a finding status is
    /// recorded; then the scan moves to the next protocol.
    pub fn on_response(&mut self, status: u16) -> (action: ProbeAction)
        requires
            old(self).wf(),
            old(self).phase matches TrailMergePhase::Baseline { .. } || old(self).phase matches
                TrailMergePhase::Attack { .. },
        ensures
            final(self).wf(),
            old(self).phase matches TrailMergePhase::Baseline { idx } ==> ({
                let proto = old(self).protocols@[idx as int].protocol;
                if spec_interpret_status(proto, status, old(self).target@) is Some {
                    advanced_past(*old(self), *final(self), action, idx as int, Seq::empty())
                } else {
                    &&& final(self).target == old(self).target
                    &&& final(self).protocols == old(self).protocols
                    &&& final(self).findings == old(self).findings
                    &&& final(self).phase == (TrailMergePhase::Attack { idx })
                    &&& action matches ProbeAction::Send { request, protocol } && protocol
                        == proto && attack_request_spec(
                        request,
                        old(self).target@,
                        old(self).protocols@[idx as int].port,
                    )
                }
            }),
            old(self).phase matches TrailMergePhase::Attack { idx } ==> ({
                let proto = old(self).protocols@[idx as int].protocol;
                match spec_interpret_status(proto, status, old(self).target@) {
                    Some(f) => advanced_past(*old(self), *final(self), action, idx as int, seq![f]),
                    None => advanced_past(
                        *old(self),
                        *final(self),
                        action,
                        idx as int,
                        Seq::empty(),
                    ),
                }
            }),
    {
        match self.phase {
            TrailMergePhase::Baseline { idx } => {
                let det = self.protocols[idx];
                match interpret_status(&det, status, self.target.as_str()) {
                    Some(_) => self.advance(idx),
                    None => {
                        let request = TrailMergeTask::build_timeout_request(
                            self.target.as_str(),
                            det.port,
                        );
                        self.phase = TrailMergePhase::Attack { idx };
                        ProbeAction::Send { request, protocol: det.protocol }
                    },
                }
            },
            TrailMergePhase::Attack { idx } => {
                let det = self.protocols[idx];
                match interpret_status(&det, status, self.target.as_str()) {
                    Some(f) => {
                        proof {
                            assert(views_of(self.findings@.push(f)) =~= views_of(self.findings@)
                                + seq![f@]);
                        }
                        self.findings.push(f);
                        self.advance(idx)
                    },
                    None => self.advance(idx),
                }
            },
            _ => unreached(),
        }
    }

    /// Takes a send failure: a timeout becomes its own finding line, an
    /// invalid target ends the scan with that error, anything else is
    /// swallowed; then the scan moves to the next protocol.
    pub fn on_error(&mut self, error: ProbeError) -> (action: ProbeAction)
        requires
            old(self).wf(),
            old(self).phase matches TrailMergePhase::Baseline { .. } || old(self).phase matches
                TrailMergePhase::Attack { .. },
        ensures
            final(self).wf(),
            ({
                let idx = trailmerge_phase_idx(old(self).phase);
                let proto = old(self).protocols@[idx].protocol;
                match error {
                    ProbeError::Timeout => advanced_past(
                        *old(self),
                        *final(self),
                        action,
                        idx,
                        seq![probe_timeout_finding(proto, old(self).target@)],
                    ),
                    ProbeError::InvalidTarget { .. } => final(self).phase is Finished && (action
                        matches ProbeAction::Finish { result } && (result matches Err(e) && e
                        == error)),
                    _ => advanced_past(*old(self), *final(self), action, idx, Seq::empty()),
                }
            }),
    {
        let idx = match self.phase {
            TrailMergePhase::Baseline { idx } => idx,
            TrailMergePhase::Attack { idx } => idx,
            _ => unreached(),
        };
        match &error {
            ProbeError::Timeout => {
                let det = self.protocols[idx];
                let f = build_timeout_line(det.protocol, self.target.as_str());
                proof {
                    assert(views_of(self.findings@.push(f)) =~= views_of(self.findings@)
                        + seq![f@]);
                }
                self.findings.push(f);
                self.advance(idx)
            },
            ProbeError::InvalidTarget { .. } => {
                self.phase = TrailMergePhase::Finished;
                ProbeAction::Finish { result: Err(error) }
            },
            _ => self.advance(idx),
        }
    }

    fn advance(&mut self, idx: usize) -> (action: ProbeAction)
        requires
            old(self).wf(),
            idx < old(self).protocols@.len(),
        ensures
            final(self).wf(),
            advanced_past(*old(self), *final(self), action, idx as int, Seq::empty()),
    {
        proof {
            assert(views_of(self.findings@) =~= views_of(self.findings@) + Seq::<
                Seq<char>,
            >::empty());
        }
        let n = self.protocols.len();
        if idx + 1 < n {
            let next = idx + 1;
            let det = self.protocols[next];
            let request = TrailMergeTask::build_test_request(self.target.as_str(), det.port);
            self.phase = TrailMergePhase::Baseline { idx: next };
            ProbeAction::Send { request, protocol: det.protocol }
        } else {
            self.phase = TrailMergePhase::Finished;
            let joined = join_with_newlines(&self.findings);
            ProbeAction::Finish { result: Ok(joined) }
        }
    }
}

/// The protocol index a waiting phase points at.
pub open spec fn trailmerge_phase_idx(phase: TrailMergePhase) -> int {
    match phase {
        TrailMergePhase::Baseline { idx } => idx as int,
        TrailMergePhase::Attack { idx } => idx as int,
        _ => 0,
    }
}

/// Reads a response status for this probe: 504 yields the gateway
/// timeout finding, every other status none.
pub fn interpret_status(detected: &DetectedProtocol, status: u16, target: &str) -> (r: Option<
    String,
>)
    ensures
        opt_view(r) == spec_interpret_status(detected.protocol, status, target@),
{
    if status == 504 {
        let mut s = String::new();
        s.append("[+] gateway timeout! ");
        s.append(detected.protocol.name());
        s.append(" ");
        s.append(target);
        proof {
            assert(s@ =~= gateway_timeout_finding(detected.protocol, target@));
        }
        Some(s)
    } else {
        None
    }
}

fn build_timeout_line(proto: HttpProtocol, target: &str) -> (r: String)
    ensures
        r@ == probe_timeout_finding(proto, target@),
{
    let mut s = String::new();
    s.append("[!] timeout ");
    s.append(proto.name());
    s.append(" ");
    s.append(target);
    proof {
        assert(s@ =~= probe_timeout_finding(proto, target@));
    }
    s
}

} // verus!
