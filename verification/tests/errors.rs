use webreg::api::AuditQueryParams;
use webreg::error::DegreeAuditError;

fn all() -> Vec<DegreeAuditError> {
    vec![
        DegreeAuditError::Network { message: "m".to_string() },
        DegreeAuditError::SessionExpired { redirect_url: "u".to_string() },
        DegreeAuditError::NoSession { message: "m".to_string() },
        DegreeAuditError::UnexpectedResponse { message: "m".to_string() },
        DegreeAuditError::NoJobFound,
        DegreeAuditError::JobFailed { reason: "r".to_string() },
        DegreeAuditError::PollTimeout { attempts: 31, elapsed_millis: 120_049 },
        DegreeAuditError::ParseError { message: "m".to_string() },
        DegreeAuditError::UrlError { message: "m".to_string() },
        DegreeAuditError::CircuitBreakerOpen,
        DegreeAuditError::OperationInProgress,
        DegreeAuditError::CookieFetchError { message: "m".to_string() },
    ]
}

#[test]
fn retryable_kinds() {
    let retryable: Vec<bool> = all().iter().map(|e| e.is_retryable()).collect();
    assert_eq!(
        retryable,
        vec![true, false, false, true, false, false, true, false, false, false, false, false]
    );
}

#[test]
fn reauth_kinds() {
    let reauth: Vec<bool> = all().iter().map(|e| e.needs_reauth()).collect();
    assert_eq!(
        reauth,
        vec![false, true, true, false, false, false, false, false, false, false, false, false]
    );
}

#[test]
fn status_codes() {
    let codes: Vec<u16> = all().iter().map(|e| e.status_code()).collect();
    assert_eq!(codes, vec![500, 401, 401, 500, 500, 500, 504, 500, 500, 503, 500, 502]);
}

#[test]
fn public_messages() {
    let messages: Vec<&str> = all().iter().map(|e| e.public_message()).collect();
    assert_eq!(
        messages,
        vec![
            "Failed to fetch degree audit",
            "Session expired - please re-authenticate",
            "No active session",
            "Failed to fetch degree audit",
            "Failed to fetch degree audit",
            "Failed to fetch degree audit",
            "Audit generation timed out",
            "Failed to fetch degree audit",
            "Failed to fetch degree audit",
            "Service temporarily unavailable due to repeated failures",
            "Failed to fetch degree audit",
            "Failed to fetch authentication cookies",
        ]
    );
}

#[test]
fn descriptions() {
    let texts: Vec<String> = all().iter().map(|e| e.describe()).collect();
    assert_eq!(
        texts,
        vec![
            "Network error: m",
            "Session expired, redirected to: u",
            "No active session: m",
            "Unexpected response: m",
            "No audit job found in list page",
            "Audit job failed: r",
            "Poll timeout after 31 attempts (120.0s elapsed)",
            "Parse error: m",
            "URL error: m",
            "Circuit breaker open - too many recent failures",
            "Audit operation already in progress for this session",
            "Failed to fetch cookies from auth server: m",
        ]
    );
}

#[test]
fn elapsed_time_is_rounded_to_tenths() {
    let text = |elapsed_millis: u64| {
        DegreeAuditError::PollTimeout { attempts: 0, elapsed_millis }.describe()
    };
    assert_eq!(text(0), "Poll timeout after 0 attempts (0.0s elapsed)");
    assert_eq!(text(49), "Poll timeout after 0 attempts (0.0s elapsed)");
    assert_eq!(text(50), "Poll timeout after 0 attempts (0.1s elapsed)");
    assert_eq!(text(950), "Poll timeout after 0 attempts (1.0s elapsed)");
    assert_eq!(text(12_345), "Poll timeout after 0 attempts (12.3s elapsed)");
    assert_eq!(
        text(u64::MAX),
        "Poll timeout after 0 attempts (18446744073709551.6s elapsed)"
    );
    assert_eq!(
        DegreeAuditError::PollTimeout { attempts: u32::MAX, elapsed_millis: 1000 }.describe(),
        "Poll timeout after 4294967295 attempts (1.0s elapsed)"
    );
}

#[test]
fn refresh_is_off_by_default() {
    assert!(!AuditQueryParams::default().refresh);
}
