use flowstate::host::{HTTPHost, Host};
use flowstate::monitor::{HTTPError, ProbeResponse};

fn http_host(status: Option<u16>, pattern: Option<&str>) -> HTTPHost {
    HTTPHost::new(
        "Test Host".to_string(),
        "http://example.com".to_string(),
        status,
        pattern.map(str::to_string),
    )
    .expect("expectations must be valid")
}

fn response(status: u16, body: &str) -> Option<ProbeResponse> {
    Some(ProbeResponse {
        status,
        body: Some(body.to_string()),
    })
}

#[test]
fn test_monitor_host_successful() {
    let host = http_host(None, None);
    let result = host.evaluate(response(200, "OK"));
    assert!(result.is_ok());
}

#[test]
fn test_monitor_host_with_status_check_success() {
    let host = http_host(Some(200), None);
    let result = host.evaluate(response(200, "OK"));
    assert!(result.is_ok());
}

#[test]
fn test_monitor_host_with_status_check_failure() {
    let host = http_host(Some(200), None);
    let result = host.evaluate(response(404, "Not Found"));
    assert!(result.is_err());
    assert!(matches!(result.unwrap_err(), HTTPError::InvalidStatus));
}

#[test]
fn test_monitor_host_with_regex_check_success() {
    let host = http_host(None, Some("success"));
    let result = host.evaluate(response(200, "success message"));
    assert!(result.is_ok());
}

#[test]
fn test_monitor_host_with_regex_check_failure() {
    let host = http_host(None, Some("success"));
    let result = host.evaluate(response(200, "error message"));
    assert!(result.is_err());
    assert!(matches!(result.unwrap_err(), HTTPError::InvalidBody));
}

#[test]
fn test_monitor_host_with_both_checks_success() {
    let host = http_host(Some(201), Some("created"));
    let result = host.evaluate(response(201, "created successfully"));
    assert!(result.is_ok());
}

#[test]
fn test_monitor_host_with_both_checks_status_fails() {
    let host = http_host(Some(201), Some("created"));
    let result = host.evaluate(response(200, "created successfully"));
    assert!(result.is_err());
    assert!(matches!(result.unwrap_err(), HTTPError::InvalidStatus));
}

#[test]
fn test_monitor_host_with_both_checks_regex_fails() {
    let host = http_host(Some(201), Some("created"));
    let result = host.evaluate(response(201, "error message"));
    assert!(result.is_err());
    assert!(matches!(result.unwrap_err(), HTTPError::InvalidBody));
}

#[test]
fn test_monitor_host_unresponsive() {
    let host = http_host(None, None);
    let result = host.evaluate(None);
    assert!(result.is_err());
    assert!(matches!(result.unwrap_err(), HTTPError::Unresponsive));
}

#[test]
fn test_monitor_host_complex_regex() {
    let host = http_host(None, Some(r#""status":"ok""#));
    let result = host.evaluate(response(200, r#"{"status":"ok","code":123}"#));
    assert!(result.is_ok());
}

#[test]
fn test_status_precedence_over_failing_pattern() {
    // Both expectations are violated; the status mismatch is reported.
    let host = http_host(Some(200), Some("created"));
    let result = host.evaluate(response(201, "created successfully"));
    assert_eq!(result.unwrap_err(), HTTPError::InvalidStatus);
}

#[test]
fn test_unreadable_body_is_invalid_body() {
    let host = http_host(None, None);
    let result = host.evaluate(Some(ProbeResponse {
        status: 200,
        body: None,
    }));
    assert_eq!(result.unwrap_err(), HTTPError::InvalidBody);
}

#[test]
fn test_status_mismatch_precedes_unreadable_body() {
    let host = http_host(Some(200), None);
    let result = host.evaluate(Some(ProbeResponse {
        status: 500,
        body: None,
    }));
    assert_eq!(result.unwrap_err(), HTTPError::InvalidStatus);
}

#[test]
fn test_unexpected_status_passes_without_expectation() {
    // Without a status expectation, any status code with a readable body is
    // healthy.
    let host = http_host(None, None);
    assert!(host.evaluate(response(404, "Not Found")).is_ok());
    assert!(host.evaluate(response(503, "unavailable")).is_ok());
}

#[test]
fn test_dispatch_over_target_kinds() {
    let host = Host::HTTP(http_host(Some(200), Some("ok")));
    assert!(host.evaluate(response(200, "all ok")).is_ok());
    assert_eq!(
        host.evaluate(None).unwrap_err(),
        HTTPError::Unresponsive
    );
    assert_eq!(host.label(), "Test Host");
}
