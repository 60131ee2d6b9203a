use trailscan::probe::{DetectedProtocol, HttpProtocol, ProbeAction, ProbeError};
use trailscan::trailmerge::{interpret_status, TrailMergeTask};
use trailscan::trailsmug::TrailSmugTask;

fn expect_send(action: ProbeAction) -> (trailscan::probe::RequestSpec, HttpProtocol) {
    match action {
        ProbeAction::Send { request, protocol } => (request, protocol),
        other => panic!("expected a Send action, got {:?}", other),
    }
}

fn expect_raw(action: ProbeAction) -> String {
    match action {
        ProbeAction::SendRaw { payload } => payload,
        other => panic!("expected a SendRaw action, got {:?}", other),
    }
}

fn expect_finish_ok(action: ProbeAction) -> String {
    match action {
        ProbeAction::Finish { result: Ok(s) } => s,
        other => panic!("expected a successful Finish action, got {:?}", other),
    }
}

#[test]
fn trailmerge_gateway_timeout_is_a_finding() {
    // Detector sees HTTP/1 only; baseline is healthy; attack times the
    // gateway out.
    let (mut scan, action) = TrailMergeTask::new().start(String::from("http://example"));
    assert!(matches!(action, ProbeAction::Detect));
    let action = scan.on_protocols(vec![DetectedProtocol {
        protocol: HttpProtocol::Http1,
        port: None,
    }]);
    let (baseline, proto) = expect_send(action);
    assert_eq!(proto, HttpProtocol::Http1);
    assert_eq!(baseline.method, "POST");
    assert_eq!(baseline.trailers, vec![String::from("test: test")]);
    let action = scan.on_response(200);
    let (attack, _) = expect_send(action);
    assert_eq!(attack.trailers, vec![String::from("content-length: 10000")]);
    let action = scan.on_response(504);
    assert_eq!(
        expect_finish_ok(action),
        "[+] gateway timeout! HTTP/1.1 http://example"
    );
}

#[test]
fn trailmerge_healthy_target_yields_no_finding() {
    let (mut scan, _) = TrailMergeTask::new().start(String::from("http://example"));
    let action = scan.on_protocols(vec![DetectedProtocol {
        protocol: HttpProtocol::Http1,
        port: None,
    }]);
    expect_send(action);
    expect_send(scan.on_response(200));
    assert_eq!(expect_finish_ok(scan.on_response(200)), "");
}

#[test]
fn trailmerge_suspicious_baseline_skips_the_attack() {
    // A baseline that already times out at the gateway is skipped, not
    // reported.
    let (mut scan, _) = TrailMergeTask::new().start(String::from("http://example"));
    let action = scan.on_protocols(vec![DetectedProtocol {
        protocol: HttpProtocol::Http1,
        port: None,
    }]);
    expect_send(action);
    assert_eq!(expect_finish_ok(scan.on_response(504)), "");
}

#[test]
fn trailmerge_walks_every_detected_protocol() {
    let (mut scan, _) = TrailMergeTask::new().start(String::from("http://example"));
    let action = scan.on_protocols(vec![
        DetectedProtocol { protocol: HttpProtocol::Http1, port: None },
        DetectedProtocol { protocol: HttpProtocol::Http3, port: Some(8443) },
    ]);
    expect_send(action);
    expect_send(scan.on_response(200));
    // First protocol finds a gateway timeout; the second is still probed.
    let (baseline2, proto2) = expect_send(scan.on_response(504));
    assert_eq!(proto2, HttpProtocol::Http3);
    assert_eq!(baseline2.port, Some(8443));
    expect_send(scan.on_response(200));
    let joined = expect_finish_ok(scan.on_response(504));
    assert_eq!(
        joined,
        "[+] gateway timeout! HTTP/1.1 http://example\n[+] gateway timeout! HTTP/3 http://example"
    );
}

#[test]
fn trailmerge_timeout_becomes_its_own_line() {
    let (mut scan, _) = TrailMergeTask::new().start(String::from("http://example"));
    let action = scan.on_protocols(vec![DetectedProtocol {
        protocol: HttpProtocol::Http2,
        port: None,
    }]);
    expect_send(action);
    let action = scan.on_error(ProbeError::Timeout);
    assert_eq!(expect_finish_ok(action), "[!] timeout HTTP/2 http://example");
}

#[test]
fn trailmerge_invalid_target_is_terminal() {
    let (mut scan, _) = TrailMergeTask::new().start(String::from("::nonsense::"));
    let action = scan.on_protocols(vec![DetectedProtocol {
        protocol: HttpProtocol::Http1,
        port: None,
    }]);
    expect_send(action);
    let action = scan.on_error(ProbeError::InvalidTarget { message: String::from("bad url") });
    assert!(matches!(action, ProbeAction::Finish { result: Err(ProbeError::InvalidTarget { .. }) }));
}

#[test]
fn trailmerge_transport_errors_are_swallowed() {
    let (mut scan, _) = TrailMergeTask::new().start(String::from("http://example"));
    let action = scan.on_protocols(vec![DetectedProtocol {
        protocol: HttpProtocol::Http1,
        port: None,
    }]);
    expect_send(action);
    let action = scan.on_error(ProbeError::Transport { message: String::from("refused") });
    assert_eq!(expect_finish_ok(action), "");
}

#[test]
fn trailmerge_no_protocols_means_no_findings() {
    let (mut scan, _) = TrailMergeTask::new().start(String::from("http://example"));
    assert_eq!(expect_finish_ok(scan.on_protocols(Vec::new())), "");
}

#[test]
fn interpret_status_only_flags_504() {
    let det = DetectedProtocol { protocol: HttpProtocol::Http1, port: None };
    assert_eq!(
        interpret_status(&det, 504, "http://x"),
        Some(String::from("[+] gateway timeout! HTTP/1.1 http://x"))
    );
    assert_eq!(interpret_status(&det, 502, "http://x"), None);
    assert_eq!(interpret_status(&det, 200, "http://x"), None);
}

#[test]
fn trailsmug_builds_five_payloads_over_path_and_authority() {
    let payloads = TrailSmugTask::build_attack_requests("http://example/dir/page").unwrap();
    assert_eq!(payloads.len(), 5);
    assert!(payloads[0].starts_with("GET /dir/page?cb=bbscan&nxoec=kmceo HTTP/1.1\r\nHost: example\r\n"));
    assert!(payloads[0].contains("Upgrade:\r\n\th2c,websocket\r\n"));
    assert!(payloads[0].contains("Content-Length: 39\r\n"));
    assert!(payloads[0].ends_with("TRACE /vcmapfqpie/xsqweer HTTP/1.1\r\nX: "));
    assert!(payloads[1].starts_with("HEAD "));
    assert!(payloads[2].starts_with("OPTIONS "));
    assert!(payloads[3].contains("Upgrade: h2c,websocket\r\n"));
    assert!(payloads[4].starts_with("OPTIONS "));
}

#[test]
fn trailsmug_unparsable_target_finishes_empty() {
    let (scan, action) = TrailSmugTask::new().start(String::from("not a url"));
    assert!(scan.is_finished());
    assert_eq!(expect_finish_ok(action), "");
}

#[test]
fn trailsmug_unsuitable_baseline_finishes_empty() {
    let (mut scan, action) = TrailSmugTask::new().start(String::from("http://example"));
    let (baseline, proto) = expect_send(action);
    assert_eq!(proto, HttpProtocol::Http1);
    assert_eq!(baseline.method, "GET");
    assert!(!baseline.follow_redirects);
    assert_eq!(expect_finish_ok(scan.on_baseline_status(404)), "");
}

#[test]
fn trailsmug_double_divergence_is_a_finding() {
    let payloads = TrailSmugTask::build_attack_requests("http://example").unwrap();
    let (mut scan, action) = TrailSmugTask::new().start(String::from("http://example"));
    expect_send(action);
    // Healthy baseline; the first payload goes out raw.
    let raw = expect_raw(scan.on_baseline_status(200));
    assert_eq!(raw, payloads[0]);
    // First iteration: the re-check diverges; the probe pauses.
    expect_send(scan.on_done());
    assert!(matches!(scan.on_recheck_status(500), ProbeAction::Sleep { millis: 2000 }));
    // Second iteration against the same payload: diverges again.
    let raw_again = expect_raw(scan.on_done());
    assert_eq!(raw_again, payloads[0]);
    expect_send(scan.on_done());
    let next = expect_raw(scan.on_recheck_status(500));
    assert_eq!(next, payloads[1]);
    // The remaining payloads stay quiet.
    for _ in 1..5 {
        expect_send(scan.on_done());
        let _ = scan.on_recheck_status(200);
    }
    assert!(scan.is_finished());
    let expected = format!(
        "[!] http://example resp difference: baseline 200 curr 500 payload {}",
        payloads[0]
    );
    assert_eq!(scan.findings, vec![expected]);
}

#[test]
fn trailsmug_single_divergence_is_not_confirmed() {
    let (mut scan, action) = TrailSmugTask::new().start(String::from("http://example"));
    expect_send(action);
    expect_raw(scan.on_baseline_status(200));
    expect_send(scan.on_done());
    assert!(matches!(scan.on_recheck_status(500), ProbeAction::Sleep { .. }));
    expect_raw(scan.on_done());
    expect_send(scan.on_done());
    // The second iteration returns to the baseline: no finding.
    expect_raw(scan.on_recheck_status(200));
    for _ in 1..5 {
        expect_send(scan.on_done());
        let _ = scan.on_recheck_status(200);
    }
    assert!(scan.is_finished());
    assert!(scan.findings.is_empty());
}

#[test]
fn trailsmug_ignored_statuses_do_not_diverge() {
    let (mut scan, action) = TrailSmugTask::new().start(String::from("http://example"));
    expect_send(action);
    expect_raw(scan.on_baseline_status(200));
    expect_send(scan.on_done());
    // 429 differs from the baseline but sits in the ignored set.
    let next = expect_raw(scan.on_recheck_status(429));
    let payloads = TrailSmugTask::build_attack_requests("http://example").unwrap();
    assert_eq!(next, payloads[1]);
}

#[test]
fn trailsmug_send_error_returns_findings_so_far() {
    let (mut scan, action) = TrailSmugTask::new().start(String::from("http://example"));
    expect_send(action);
    expect_raw(scan.on_baseline_status(200));
    let out = scan.on_send_failed(ProbeError::Transport { message: String::from("reset") });
    assert_eq!(expect_finish_ok(out), "");
}
