use trailscan::protocol::{determine_protocol, extract_alt_svc_port, SelectedProtocol};

#[test]
fn no_flag_defaults_to_http1() {
    assert_eq!(determine_protocol(false, false, false), Ok(SelectedProtocol::Http1));
}

#[test]
fn each_single_flag_selects_its_protocol() {
    assert_eq!(determine_protocol(true, false, false), Ok(SelectedProtocol::Http1));
    assert_eq!(determine_protocol(false, true, false), Ok(SelectedProtocol::Http2));
    assert_eq!(determine_protocol(false, false, true), Ok(SelectedProtocol::Http3));
}

#[test]
fn two_flags_are_refused() {
    assert!(determine_protocol(true, true, false).is_err());
    assert!(determine_protocol(true, false, true).is_err());
    assert!(determine_protocol(false, true, true).is_err());
    assert!(determine_protocol(true, true, true).is_err());
}

#[test]
fn alt_svc_h3_port_is_extracted() {
    assert_eq!(extract_alt_svc_port("h3=\":443\"; ma=86400"), Some(443));
    assert_eq!(extract_alt_svc_port("h3-29=\"alt.example:8443\""), Some(8443));
}

#[test]
fn alt_svc_first_h3_entry_wins() {
    assert_eq!(
        extract_alt_svc_port("h2=\":8080\", h3=\":443\", h3=\":9999\""),
        Some(443)
    );
}

#[test]
fn alt_svc_without_h3_yields_none() {
    assert_eq!(extract_alt_svc_port("h2=\":443\""), None);
    assert_eq!(extract_alt_svc_port(""), None);
    assert_eq!(extract_alt_svc_port("garbage"), None);
}

#[test]
fn alt_svc_bad_ports_yield_none() {
    assert_eq!(extract_alt_svc_port("h3=\":notaport\""), None);
    assert_eq!(extract_alt_svc_port("h3=\":70000\""), None);
    assert_eq!(extract_alt_svc_port("h3=\"unclosed"), None);
}
