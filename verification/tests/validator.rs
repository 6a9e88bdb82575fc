use linkcheck::classify::TransportErrorKind;
use linkcheck::probe::{choose_probe_method, is_baidu_proxy_link, ProbeMethod, PROBE_TIMEOUT_SECS};
use linkcheck::validator::{build_check_result, precheck_blank_link, ProbeOutcome};

#[test]
fn blank_link_short_circuits_without_probe() {
    for blank in ["", " ", "\t\n  ", "\u{a0}\u{3000}"] {
        let r = precheck_blank_link(blank.to_string()).expect_err("blank must short-circuit");
        assert_eq!(r.link, blank.to_string());
        assert!(!r.is_valid);
        assert_eq!(r.status_code, None);
        assert_eq!(r.error, Some("link is empty".to_string()));
        assert_eq!(r.error_type, "network".to_string());
        assert_eq!(r.suggestion, Some("link is empty".to_string()));
        assert_eq!(r.response_time, None);
    }
}

#[test]
fn nonblank_link_passes_precheck_unchanged() {
    let link = " https://example.com/a.jpg ".to_string();
    let back = precheck_blank_link(link.clone()).expect("non-blank must be probed");
    assert_eq!(back, link);
}

#[test]
fn baidu_proxy_links_use_ranged_get() {
    assert!(is_baidu_proxy_link("https://image.baidu.com/search/detail?x=1"));
    assert!(is_baidu_proxy_link("image.baidu.com"));
    assert_eq!(
        choose_probe_method("http://a.example/image.baidu.com/p.jpg"),
        ProbeMethod::RangedGet
    );
}

#[test]
fn ordinary_links_use_head() {
    assert!(!is_baidu_proxy_link("https://example.com/a.jpg"));
    assert!(!is_baidu_proxy_link("https://image.baidu.org/a.jpg"));
    assert!(!is_baidu_proxy_link(""));
    assert_eq!(choose_probe_method("https://example.com/a.jpg"), ProbeMethod::Head);
}

#[test]
fn partial_content_response_is_a_valid_link() {
    let r = build_check_result(
        "https://image.baidu.com/p.jpg".to_string(),
        ProbeOutcome::Response { status: 206 },
        37,
    );
    assert!(r.is_valid);
    assert_eq!(r.status_code, Some(206));
    assert_eq!(r.error, None);
    assert_eq!(r.error_type, "success".to_string());
    assert_eq!(r.suggestion, None);
    assert_eq!(r.response_time, Some(37));
}

#[test]
fn not_found_response_is_reported_with_status_text() {
    let r = build_check_result(
        "https://example.com/gone.jpg".to_string(),
        ProbeOutcome::Response { status: 404 },
        120,
    );
    assert!(!r.is_valid);
    assert_eq!(r.status_code, Some(404));
    assert_eq!(r.error, Some("HTTP 404".to_string()));
    assert_eq!(r.error_type, "http_4xx".to_string());
    assert!(r.suggestion.is_some());
    assert_eq!(r.response_time, Some(120));
}

#[test]
fn timed_out_probe_is_classified_timeout_without_status() {
    let r = build_check_result(
        "https://slow.example/a.jpg".to_string(),
        ProbeOutcome::Failed {
            kind: TransportErrorKind::TimedOut,
            detail: "operation timed out".to_string(),
        },
        PROBE_TIMEOUT_SECS * 1000,
    );
    assert!(!r.is_valid);
    assert_eq!(r.status_code, None);
    assert_eq!(r.error, Some("request timed out".to_string()));
    assert_eq!(r.error_type, "timeout".to_string());
    assert!(r.suggestion.is_some());
    assert_eq!(r.response_time, Some(10_000));
}

#[test]
fn connection_failure_is_classified_network() {
    let r = build_check_result(
        "https://refused.example/a.jpg".to_string(),
        ProbeOutcome::Failed {
            kind: TransportErrorKind::ConnectFailed,
            detail: "connection refused".to_string(),
        },
        3,
    );
    assert!(!r.is_valid);
    assert_eq!(r.status_code, None);
    assert_eq!(r.error, Some("connection failed".to_string()));
    assert_eq!(r.error_type, "network".to_string());
    assert_eq!(
        r.suggestion,
        Some("connection failed; check network or firewall settings".to_string())
    );
    assert_eq!(r.response_time, Some(3));
}

#[test]
fn other_transport_failure_keeps_the_transports_words() {
    let r = build_check_result(
        "https://odd.example/a.jpg".to_string(),
        ProbeOutcome::Failed {
            kind: TransportErrorKind::Other,
            detail: "invalid TLS certificate".to_string(),
        },
        9,
    );
    assert!(!r.is_valid);
    assert_eq!(r.error, Some("invalid TLS certificate".to_string()));
    assert_eq!(r.error_type, "network".to_string());
    assert_eq!(r.suggestion, Some("unknown error".to_string()));
}

#[test]
fn every_result_is_valid_iff_its_label_is_success() {
    let outcomes = [
        ProbeOutcome::Response { status: 200 },
        ProbeOutcome::Response { status: 206 },
        ProbeOutcome::Response { status: 301 },
        ProbeOutcome::Response { status: 404 },
        ProbeOutcome::Response { status: 503 },
        ProbeOutcome::Failed { kind: TransportErrorKind::TimedOut, detail: String::new() },
        ProbeOutcome::Failed { kind: TransportErrorKind::Other, detail: "x".to_string() },
    ];
    for outcome in outcomes {
        let r = build_check_result("https://example.com".to_string(), outcome, 1);
        assert_eq!(r.is_valid, r.error_type == "success");
        assert_eq!(r.suggestion.is_some(), !r.is_valid);
    }
}
