use webreg::client::backoff;
use webreg::client::check_session_valid;
use webreg::client::joined;
use webreg::client::names_sign_on;
use webreg::client::draw_jitter;
use webreg::client::growth_factor;
use webreg::client::report_is_short;
use webreg::client::status_is_success;
use webreg::client::DegreeAuditConfig;
use webreg::client::HttpReply;
use webreg::client::PollStep;
use webreg::error::DegreeAuditError;
use webreg::job::JobStatus;

const MILLI: u128 = 1_000_000;

fn reply(status: u16, url: &str, location: Option<&str>, body: &str) -> HttpReply {
    let parsed = url::Url::parse(url).unwrap();
    HttpReply {
        status,
        status_text: format!("{} Reason", status),
        url: url.to_string(),
        host: parsed.host_str().map(String::from),
        path: parsed.path().to_string(),
        location: location.map(String::from),
        body: body.to_string(),
    }
}

const PORTAL: &str = "https://act.ucsd.edu/studentDarsSelfservice";

#[test]
fn test_poll_delay_backoff() {
    let config = DegreeAuditConfig::default();

    let d1 = config.calculate_poll_delay(1);
    let d2 = config.calculate_poll_delay(2);
    let d3 = config.calculate_poll_delay(3);

    // Each should be roughly double (with jitter)
    assert!(d2 > d1);
    assert!(d3 > d2);
}

#[test]
fn backoff_doubles_and_is_capped() {
    assert_eq!(backoff(500, 0), 500);
    assert_eq!(backoff(500, 1), 500);
    assert_eq!(backoff(500, 2), 1000);
    assert_eq!(backoff(500, 3), 2000);
    assert_eq!(backoff(500, 4), 4000);
    assert_eq!(backoff(500, 5), 8000);
    assert_eq!(backoff(500, 6), 10_000);
    assert_eq!(backoff(500, 7), 10_000);
    assert_eq!(backoff(500, u32::MAX), 10_000);
    assert_eq!(backoff(0, 9), 0);
    assert_eq!(backoff(10_000, 1), 10_000);
    assert_eq!(backoff(10_001, 1), 10_000);
    assert_eq!(backoff(u128::MAX, 1), 10_000);
    assert_eq!(backoff(312, 6), 9984);
    assert_eq!(backoff(313, 6), 10_000);
    assert_eq!(growth_factor(6), 32);
    assert_eq!(growth_factor(100), 32);
}

#[test]
fn delay_adds_jitter_up_to_a_fifth() {
    let config = DegreeAuditConfig::default();
    assert_eq!(config.poll_delay_with(1, 0), 500 * MILLI);
    assert_eq!(config.poll_delay_with(1, 100), 600 * MILLI);
    assert_eq!(config.poll_delay_with(1, 101), 600 * MILLI);
    assert_eq!(config.poll_delay_with(3, 7), 2007 * MILLI);
    assert_eq!(config.poll_delay_with(9, u64::MAX), 12_000 * MILLI);
    for attempt in 1..8u32 {
        let base = backoff(500, attempt) as u128;
        for _ in 0..50 {
            assert!(draw_jitter(&config, attempt) as u128 <= base / 5);
            let delay = config.calculate_poll_delay(attempt);
            assert!(delay >= base * MILLI && delay <= (base + base / 5) * MILLI);
        }
    }
}

#[test]
fn jitter_is_not_constant() {
    let config = DegreeAuditConfig::default();
    let first = config.calculate_poll_delay(6);
    let mut differs = false;
    for _ in 0..200 {
        if config.calculate_poll_delay(6) != first {
            differs = true;
        }
    }
    assert!(differs);
}

#[test]
fn sub_millisecond_base_counts_as_zero() {
    let mut config = DegreeAuditConfig::default();
    config.poll_interval_base = MILLI - 1;
    assert_eq!(config.poll_delay_with(4, 3), 0);
    assert_eq!(config.calculate_poll_delay(4), 0);
}

#[test]
fn default_config() {
    let config = DegreeAuditConfig::default();
    assert_eq!(config.base_url, PORTAL);
    assert_eq!(config.max_poll_attempts, 30);
    assert_eq!(config.poll_interval_base, 500 * MILLI);
    assert_eq!(config.max_poll_timeout, 120_000 * MILLI);
    assert!(config.user_agent.starts_with("Mozilla/5.0"));
    assert_eq!(config.duplicate(), config);
}

#[test]
fn addresses() {
    let config = DegreeAuditConfig::default();
    assert_eq!(config.create_url(), format!("{}/audit/create.html", PORTAL));
    assert_eq!(config.list_url(), format!("{}/audit/list.html?autoPoll=true", PORTAL));
    assert_eq!(
        config.read_url("JobQueueRun!!!!X1"),
        format!("{}/audit/read.html?id=JobQueueRun%21%21%21%21X1", PORTAL)
    );
    let raw = config.raw_response(
        "JobQueueRun!!!!X1".to_string(),
        "2024-01-01T00:00:00+00:00".to_string(),
        "<html/>".to_string(),
    );
    assert_eq!(raw.audit_id, "JobQueueRun!!!!X1");
    assert_eq!(raw.scraped_at, "2024-01-01T00:00:00+00:00");
    assert_eq!(raw.url, format!("{}/audit/read.html?id=JobQueueRun!!!!X1", PORTAL));
    assert_eq!(raw.html, "<html/>");
    assert_eq!(joined("ab", "cd"), "abcd");
}

#[test]
fn sign_on_addresses_mean_an_expired_session() {
    for url in [
        "https://login.ucsd.edu/start",
        "https://SSO.UCSD.EDU/",
        "https://a.ucsd.edu/Shibboleth.sso",
        "https://idp.example/",
        "https://x/SAML2/redirect",
        "https://x/app/login?next=1",
        "https://x/Login",
        "https://auth.ucsd.edu/",
    ] {
        assert_eq!(
            check_session_valid(&reply(200, url, None, "")),
            Err(DegreeAuditError::SessionExpired { redirect_url: url.to_string() })
        );
    }
    assert_eq!(
        check_session_valid(&reply(500, "https://act.ucsd.edu/studentDarsSelfservice/audit/list.html", None, "")),
        Ok(())
    );
}

#[test]
fn the_query_is_not_searched_for_sign_on_pages() {
    for url in [
        "https://act.ucsd.edu/studentDarsSelfservice/audit/read.html?id=JobQueueRun%21%21%21%21SAML1",
        "https://act.ucsd.edu/audit/list.html?next=/login",
        "https://act.ucsd.edu/audit/read.html?id=shibboleth&from=sso.ucsd.edu#idp",
        "https://act.ucsd.edu/audit/dologin?x=1",
    ] {
        assert_eq!(check_session_valid(&reply(200, url, None, "")), Ok(()));
    }
    assert!(names_sign_on("Login.UCSD.edu"));
    assert!(names_sign_on("/a/SAML/b"));
    assert!(!names_sign_on("act.ucsd.edu"));
    assert!(!names_sign_on(""));
    let mut odd = reply(200, "https://act.ucsd.edu/audit/list.html", None, "");
    odd.host = None;
    assert_eq!(check_session_valid(&odd), Ok(()));
    odd.host = Some("SSO.ucsd.edu".to_string());
    assert_eq!(
        check_session_valid(&odd),
        Err(DegreeAuditError::SessionExpired {
            redirect_url: "https://act.ucsd.edu/audit/list.html".to_string()
        })
    );
}

#[test]
fn create_redirect_is_resolved() {
    let config = DegreeAuditConfig::default();
    let at = format!("{}/audit/create.html", PORTAL);
    for status in [301u16, 302, 303] {
        assert_eq!(
            config.after_create(&reply(status, &at, Some("https://other/list.html"), "")),
            Ok("https://other/list.html".to_string())
        );
    }
    assert_eq!(
        config.after_create(&reply(302, &at, Some("/studentDarsSelfservice/audit/list.html?autoPoll=true"), "")),
        Ok("https://act.ucsd.edu/studentDarsSelfservice/audit/list.html?autoPoll=true".to_string())
    );
    assert_eq!(
        config.after_create(&reply(302, &at, Some("list.html?autoPoll=true"), "")),
        Ok(format!("{}/list.html?autoPoll=true", PORTAL))
    );
    assert_eq!(
        config.after_create(&reply(302, &at, Some(""), "")),
        Ok(format!("{}/", PORTAL))
    );
}

#[test]
fn create_without_redirect() {
    let config = DegreeAuditConfig::default();
    let at = format!("{}/audit/create.html", PORTAL);
    assert_eq!(
        config.after_create(&reply(200, &at, None, "")),
        Ok(format!("{}/audit/list.html?autoPoll=true", PORTAL))
    );
    assert_eq!(
        config.after_create(&reply(302, &at, None, "")),
        Err(DegreeAuditError::UnexpectedResponse {
            message: "302 response missing Location header".to_string()
        })
    );
    assert_eq!(
        config.after_create(&reply(500, &at, Some("list.html"), "")),
        Err(DegreeAuditError::UnexpectedResponse {
            message: "Expected 302 redirect from create.html, got 500 Reason".to_string()
        })
    );
    assert_eq!(
        config.after_create(&reply(302, "https://login.ucsd.edu/x", Some("list.html"), "")),
        Err(DegreeAuditError::SessionExpired {
            redirect_url: "https://login.ucsd.edu/x".to_string()
        })
    );
}

#[test]
fn host_relative_redirect_needs_a_portal_address_that_parses() {
    let mut config = DegreeAuditConfig::default();
    config.base_url = "not a url".to_string();
    assert!(matches!(
        config.absolute_url("/audit/list.html"),
        Err(DegreeAuditError::UrlError { .. })
    ));
    assert_eq!(
        config.absolute_url("list.html"),
        Ok("not a url/list.html".to_string())
    );
    config.base_url = "HTTP://Example.COM:8080/base".to_string();
    assert_eq!(
        config.absolute_url("/x"),
        Ok("http://example.com:8080/x".to_string())
    );
    config.base_url = "http://127.0.0.1:8080/dars".to_string();
    assert_eq!(
        config.after_create(&reply(
            302,
            "http://127.0.0.1:8080/dars/audit/create.html",
            Some("/dars/audit/list.html?autoPoll=true"),
            ""
        )),
        Ok("http://127.0.0.1:8080/dars/audit/list.html?autoPoll=true".to_string())
    );
    config.base_url = "http://example.com:80/base".to_string();
    assert_eq!(config.absolute_url("/x"), Ok("http://example.com/x".to_string()));
    config.base_url = "https://example.com:65535/".to_string();
    assert_eq!(config.absolute_url("/"), Ok("https://example.com:65535/".to_string()));
    config.base_url = "https://[::1]:9/".to_string();
    assert_eq!(config.absolute_url("/y"), Ok("https://[::1]:9/y".to_string()));
    config.base_url = "data:text/plain,hello".to_string();
    assert_eq!(config.absolute_url("/x"), Ok("data:///x".to_string()));
}

#[test]
fn list_response() {
    let config = DegreeAuditConfig::default();
    let at = format!("{}/audit/list.html", PORTAL);
    let page = "<table><tr><td>Processing <a href=\"read.html?id=J1\">x</a></td></tr></table>";
    let job = config.after_list(&reply(200, &at, None, page)).unwrap();
    assert_eq!(job.job_id, "J1");
    assert_eq!(job.status, JobStatus::Processing);
    assert_eq!(
        config.after_list(&reply(404, &at, None, page)),
        Err(DegreeAuditError::UnexpectedResponse {
            message: "list.html returned status 404 Reason".to_string()
        })
    );
    assert_eq!(
        config.after_list(&reply(200, &at, None, "<p>empty</p>")),
        Err(DegreeAuditError::NoJobFound)
    );
    assert_eq!(
        config.after_list(&reply(200, "https://x/login", None, page)),
        Err(DegreeAuditError::SessionExpired { redirect_url: "https://x/login".to_string() })
    );
}

#[test]
fn report_response() {
    let config = DegreeAuditConfig::default();
    let at = format!("{}/audit/read.html", PORTAL);
    assert_eq!(config.after_read(reply(200, &at, None, "tiny")), Ok("tiny".to_string()));
    assert_eq!(config.after_read(reply(299, &at, None, "")), Ok(String::new()));
    assert_eq!(
        config.after_read(reply(300, &at, None, "x")),
        Err(DegreeAuditError::UnexpectedResponse {
            message: "read.html returned status 300 Reason".to_string()
        })
    );
    assert_eq!(
        config.after_read(reply(200, "https://sso.ucsd.edu/", None, "x")),
        Err(DegreeAuditError::SessionExpired { redirect_url: "https://sso.ucsd.edu/".to_string() })
    );
    assert!(status_is_success(200) && status_is_success(299));
    assert!(!status_is_success(199) && !status_is_success(300));
    assert!(report_is_short(""));
    assert!(report_is_short(&"x".repeat(999)));
    assert!(!report_is_short(&"x".repeat(1000)));
    assert!(!report_is_short(&"é".repeat(500)));
}

#[test]
fn poll_steps() {
    let config = DegreeAuditConfig::default();
    assert_eq!(config.poll_step(&JobStatus::Complete, 99, u128::MAX), PollStep::Ready);
    assert_eq!(
        config.poll_step(&JobStatus::Error("bad \"x\"".to_string()), 0, 0),
        PollStep::GiveUp(DegreeAuditError::JobFailed { reason: "bad \"x\"".to_string() })
    );
    assert_eq!(config.poll_step(&JobStatus::Processing, 0, 0), PollStep::Wait(1));
    assert_eq!(
        config.poll_step(&JobStatus::Unknown("?".to_string()), 29, 120_000 * MILLI),
        PollStep::Wait(30)
    );
    assert_eq!(
        config.poll_step(&JobStatus::Processing, 30, 5_432 * MILLI + 999),
        PollStep::GiveUp(DegreeAuditError::PollTimeout { attempts: 31, elapsed_millis: 5_432 })
    );
    assert_eq!(
        config.poll_step(&JobStatus::Processing, 3, 120_000 * MILLI + 1),
        PollStep::GiveUp(DegreeAuditError::PollTimeout { attempts: 4, elapsed_millis: 120_000 })
    );
    assert_eq!(
        config.poll_step(&JobStatus::Processing, u32::MAX, u128::MAX),
        PollStep::GiveUp(DegreeAuditError::PollTimeout {
            attempts: u32::MAX,
            elapsed_millis: u64::MAX
        })
    );
}
