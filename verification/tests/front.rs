use digest_server::config::{
    is_db_path_allowed, listen_address, resolve_db_path, resolve_digest_name, resolve_port,
    SiteConfig, StartupError,
};
use digest_server::date::is_valid_date;
use digest_server::digest_page::digest_page;
use digest_server::front::{
    check_date, conclude_subscription, plan_subscription, upstream_accepted, upstream_failure,
    upstream_failure_of, Failure,
};

fn site(key: Option<&str>, audience: Option<&str>) -> SiteConfig {
    SiteConfig {
        db_path: String::from("/data/digest.db"),
        digest_name: String::from("News Digest"),
        css_url: None,
        homepage_url: None,
        source_url: None,
        resend_api_key: key.map(String::from),
        resend_audience_id: audience.map(String::from),
    }
}

#[test]
fn failures_have_their_status_codes() {
    let detail = || String::from("boom");
    assert_eq!(Failure::InvalidDate.status_code(), 400);
    assert_eq!(Failure::NoDigest { date: detail() }.status_code(), 404);
    assert_eq!(Failure::Store { detail: detail() }.status_code(), 500);
    assert_eq!(Failure::Query { detail: detail() }.status_code(), 500);
    assert_eq!(Failure::Unreachable { detail: detail() }.status_code(), 503);
    assert_eq!(Failure::ProbeFailed { detail: detail() }.status_code(), 503);
    assert_eq!(Failure::NotConfigured.status_code(), 503);
    assert_eq!(Failure::Transport { detail: detail() }.status_code(), 500);
    assert_eq!(Failure::Upstream { status: detail(), body: detail() }.status_code(), 500);
}

#[test]
fn failures_have_their_messages() {
    let detail = || String::from("boom");
    assert_eq!(Failure::InvalidDate.message(), "Invalid date format");
    assert_eq!(Failure::NoDigest { date: String::from("2026-01-24") }.message(), "No digest for 2026-01-24");
    assert_eq!(Failure::Store { detail: detail() }.message(), "DB error: boom");
    assert_eq!(Failure::Query { detail: detail() }.message(), "Query error: boom");
    assert_eq!(Failure::Unreachable { detail: detail() }.message(), "DB error: boom");
    assert_eq!(Failure::ProbeFailed { detail: detail() }.message(), "DB query failed: boom");
    assert_eq!(Failure::NotConfigured.message(), "Subscriptions not configured");
    assert_eq!(Failure::Transport { detail: detail() }.message(), "Request failed: boom");
    assert_eq!(
        Failure::Upstream { status: String::from("418 I'm a teapot"), body: String::from("{}") }.message(),
        "Resend error 418 I'm a teapot: {}"
    );
}

#[test]
fn malformed_date_is_a_bad_request() {
    assert!(check_date("2026-01-24").is_ok());
    assert!(check_date("2026-02-31").is_ok());
    match check_date("2026-13-01") {
        Ok(()) => panic!("month 13 is no month"),
        Err(f) => {
            assert!(matches!(f, Failure::InvalidDate));
            assert_eq!(f.status_code(), 400);
        }
    }
    assert!(check_date("../etc/passwd").is_err());
    assert!(check_date("").is_err());
}

#[test]
fn valid_date_without_record_is_not_found() {
    assert!(is_valid_date("2026-02-31"));
    assert!(check_date("2026-02-31").is_ok());
    let answer = digest_page("2026-02-31", None);
    let failure = answer.err().unwrap();
    assert_eq!(failure.status_code(), 404);
}

#[test]
fn subscription_without_credentials_is_not_configured() {
    for config in [site(None, None), site(Some("key"), None), site(None, Some("audience"))] {
        match plan_subscription(&config, String::from("reader@example.org")) {
            Ok(_) => panic!("no request may be planned"),
            Err(f) => {
                assert!(matches!(f, Failure::NotConfigured));
                assert_eq!(f.status_code(), 503);
                assert_eq!(f.message(), "Subscriptions not configured");
            }
        }
    }
}

#[test]
fn subscription_request_names_audience_and_key() {
    let config = site(Some("re_123"), Some("aud-9"));
    let request = plan_subscription(&config, String::from("reader@example.org")).ok().unwrap();
    assert_eq!(request.url, "https://api.resend.com/audiences/aud-9/contacts");
    assert_eq!(request.authorization, "Bearer re_123");
    assert_eq!(request.email, "reader@example.org");
}

#[test]
fn upstream_success_is_200_to_299() {
    assert!(upstream_accepted(200));
    assert!(upstream_accepted(201));
    assert!(upstream_accepted(299));
    assert!(!upstream_accepted(199));
    assert!(!upstream_accepted(300));
    assert!(!upstream_accepted(404));
    assert!(!upstream_accepted(500));
    assert!(!upstream_accepted(100));
    assert!(!upstream_accepted(999));
    assert!(!upstream_accepted(0));
    assert!(!upstream_accepted(99));
    assert!(!upstream_accepted(1000));
    assert!(!upstream_accepted(u16::MAX));
}

#[test]
fn upstream_refusal_carries_status_and_body() {
    let f = upstream_failure(404, String::from("{\"message\":\"no such audience\"}"));
    assert_eq!(f.status_code(), 500);
    assert_eq!(f.message(), "Resend error 404 Not Found: {\"message\":\"no such audience\"}");
    let f = upstream_failure(422, String::new());
    assert_eq!(f.message(), "Resend error 422 Unprocessable Entity: ");
    let f = upstream_failure(599, String::from("x"));
    assert_eq!(f.message(), "Resend error 599 <unknown status code>: x");
    let f = upstream_failure_of(String::from("401 Unauthorized"), String::from("denied"));
    assert_eq!(f.message(), "Resend error 401 Unauthorized: denied");
    assert_eq!(f.status_code(), 500);
}

#[test]
fn subscription_ends_in_redirect_or_failure() {
    assert_eq!(conclude_subscription(200, String::new()).ok(), Some("/?subscribed=1"));
    assert_eq!(conclude_subscription(201, String::from("ignored")).ok(), Some("/?subscribed=1"));
    let f = conclude_subscription(500, String::from("down")).err().unwrap();
    assert_eq!(f.status_code(), 500);
    assert_eq!(f.message(), "Resend error 500 Internal Server Error: down");
    assert!(conclude_subscription(302, String::new()).is_err());
}

#[test]
fn database_must_lie_under_an_allowed_directory() {
    assert!(is_db_path_allowed("/data/digest.db"));
    assert!(is_db_path_allowed("/app/data/digest.db"));
    assert!(is_db_path_allowed("./data/digest.db"));
    assert!(is_db_path_allowed("/data/"));
    assert!(!is_db_path_allowed("/data"));
    assert!(!is_db_path_allowed("data/digest.db"));
    assert!(!is_db_path_allowed("/etc/passwd"));
    assert!(!is_db_path_allowed("/tmp/data/digest.db"));
    assert!(!is_db_path_allowed(""));
    assert!(!is_db_path_allowed(" /data/x"));
    assert_eq!(resolve_db_path(None).ok(), Some(String::from("/data/digest.db")));
    assert_eq!(resolve_db_path(Some(String::from("./data/x.db"))).ok(), Some(String::from("./data/x.db")));
    let e = resolve_db_path(Some(String::from("/var/x.db"))).err().unwrap();
    assert!(matches!(e, StartupError::PathNotAllowed));
    assert_eq!(e.message(), "DATABASE_PATH must be within /data/, /app/data/, or ./data/");
}

#[test]
fn startup_errors_have_their_messages() {
    assert_eq!(
        StartupError::CannotOpen { detail: String::from("unable to open database file") }.message(),
        "Database error: Cannot open database: unable to open database file"
    );
    assert_eq!(StartupError::MissingTable.message(), "Database error: Table 'digests' not found");
}

#[test]
fn port_is_read_or_defaults() {
    assert_eq!(resolve_port(None), 8080);
    assert_eq!(resolve_port(Some("3000")), 3000);
    assert_eq!(resolve_port(Some("+3000")), 3000);
    assert_eq!(resolve_port(Some("0")), 0);
    assert_eq!(resolve_port(Some("65535")), 65535);
    assert_eq!(resolve_port(Some("65536")), 8080);
    assert_eq!(resolve_port(Some("")), 8080);
    assert_eq!(resolve_port(Some("http")), 8080);
    assert_eq!(resolve_port(Some(" 80")), 8080);
    assert_eq!(resolve_port(Some("-1")), 8080);
    assert_eq!(listen_address(8080), "0.0.0.0:8080");
    assert_eq!(listen_address(0), "0.0.0.0:0");
    assert_eq!(listen_address(65535), "0.0.0.0:65535");
}

#[test]
fn digest_name_defaults() {
    assert_eq!(resolve_digest_name(None), "News Digest");
    assert_eq!(resolve_digest_name(Some(String::from("Brief"))), "Brief");
    assert_eq!(resolve_digest_name(Some(String::new())), "");
}
