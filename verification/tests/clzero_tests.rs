use trailscan::clzero::CLzeroTask;
use trailscan::probe::{ProbeAction, ProbeError};

fn expect_raw(action: ProbeAction) -> String {
    match action {
        ProbeAction::SendRaw { payload } => payload,
        other => panic!("expected a SendRaw action, got {:?}", other),
    }
}

fn expect_send(action: ProbeAction) {
    match action {
        ProbeAction::Send { .. } => {},
        other => panic!("expected a Send action, got {:?}", other),
    }
}

fn expect_finish_ok(action: ProbeAction) -> String {
    match action {
        ProbeAction::Finish { result: Ok(s) } => s,
        other => panic!("expected a successful Finish action, got {:?}", other),
    }
}

#[test]
fn payloads_cover_the_four_methods() {
    let payloads = CLzeroTask::build_attack_requests("http://example/x").unwrap();
    assert_eq!(payloads.len(), 4);
    assert!(payloads[0].starts_with("GET /x HTTP/1.1\r\nHost: example\r\n"));
    assert!(payloads[1].starts_with("HEAD "));
    assert!(payloads[2].starts_with("POST "));
    assert!(payloads[3].starts_with("OPTIONS "));
    assert!(payloads[3].contains("Expect: 100-continue\r\n"));
    assert!(payloads[0].contains("Content-Length: 33\r\n"));
    assert!(payloads[0].contains("a\r\n\r\n"));
    assert!(payloads[0].ends_with("TRACE /hopefully404 HTTP/1.1\r\nX: "));
}

#[test]
fn both_iterations_run_and_confirmations_need_two_divergences() {
    let payloads = CLzeroTask::build_attack_requests("http://example").unwrap();
    let (mut scan, action) = CLzeroTask::new().start(String::from("http://example"));
    expect_send(action);
    // Healthy baseline starts payload 0.
    assert_eq!(expect_raw(scan.on_baseline_status(200)), payloads[0]);
    // First iteration diverges; the second raw write goes out at once.
    expect_send(scan.on_done());
    assert_eq!(expect_raw(scan.on_recheck_status(500)), payloads[0]);
    // Second iteration diverges too: a finding, then payload 1.
    expect_send(scan.on_done());
    assert_eq!(expect_raw(scan.on_recheck_status(500)), payloads[1]);
    // Remaining payloads run both iterations without divergence.
    for _ in 0..3 {
        expect_send(scan.on_done());
        let _ = scan.on_recheck_status(200);
        expect_send(scan.on_done());
        let _ = scan.on_recheck_status(200);
    }
    assert!(scan.is_finished());
    assert_eq!(
        scan.findings,
        vec![format!(
            "[!] http://example resp difference: baseline 200 curr 500 payload {}",
            payloads[0]
        )]
    );
}

#[test]
fn a_single_divergence_is_not_confirmed() {
    let (mut scan, action) = CLzeroTask::new().start(String::from("http://example"));
    expect_send(action);
    expect_raw(scan.on_baseline_status(200));
    expect_send(scan.on_done());
    // Diverges once...
    expect_raw(scan.on_recheck_status(500));
    expect_send(scan.on_done());
    // ...but returns to the baseline on the confirming iteration.
    let _ = scan.on_recheck_status(200);
    for _ in 0..3 {
        expect_send(scan.on_done());
        let _ = scan.on_recheck_status(200);
        expect_send(scan.on_done());
        let _ = scan.on_recheck_status(200);
    }
    assert!(scan.is_finished());
    assert!(scan.findings.is_empty());
}

#[test]
fn unsuitable_baseline_ends_empty() {
    let (mut scan, action) = CLzeroTask::new().start(String::from("http://example"));
    expect_send(action);
    assert_eq!(expect_finish_ok(scan.on_baseline_status(502)), "");
}

#[test]
fn raw_write_failure_is_terminal() {
    let (mut scan, action) = CLzeroTask::new().start(String::from("http://example"));
    expect_send(action);
    expect_raw(scan.on_baseline_status(200));
    let out = scan.on_raw_failed(ProbeError::Timeout);
    assert!(matches!(out, ProbeAction::Finish { result: Err(ProbeError::Timeout) }));
}

#[test]
fn unparsable_target_ends_empty() {
    let (scan, action) = CLzeroTask::new().start(String::from("::"));
    assert!(scan.is_finished());
    assert_eq!(expect_finish_ok(action), "");
}
