//! What the HTTP front decides: which failure a request ends in, with which
//! status code and message, and what a subscription asks of the mail
//! provider.

use crate::config::SiteConfig;
use crate::date::{is_valid_date, valid_date};
use reqwest::StatusCode;
use vstd::prelude::*;
use vstd::string::*;

verus! {

/// Status code of a malformed request.
pub const BAD_REQUEST: u16 = 400;

/// Status code of a request for what does not exist.
pub const NOT_FOUND: u16 = 404;

/// Status code of a failure on the server's side.
pub const INTERNAL_SERVER_ERROR: u16 = 500;

/// Status code of a service that is not available.
pub const SERVICE_UNAVAILABLE: u16 = 503;

/// Body of the answer of a healthy service.
pub const HEALTHY: &'static str = "ok";

/// Where a reader is sent after subscribing.
pub const SUBSCRIBED_REDIRECT: &'static str = "/?subscribed=1";

/// Message of a date that is no date key.
pub const INVALID_DATE: &'static str = "Invalid date format";

/// What the message of a missing digest starts with.
pub const NO_DIGEST: &'static str = "No digest for ";

/// What the message of a database that does not open starts with.
pub const DB_ERROR: &'static str = "DB error: ";

/// What the message of a failed query starts with.
pub const QUERY_ERROR: &'static str = "Query error: ";

/// What the message of a failed health probe starts with.
pub const PROBE_ERROR: &'static str = "DB query failed: ";

/// Message of a subscription without a configured mail provider.
pub const NOT_CONFIGURED: &'static str = "Subscriptions not configured";

/// What the message of a request that did not reach the mail provider
/// starts with.
pub const REQUEST_FAILED: &'static str = "Request failed: ";

/// What the message of a refusal by the mail provider starts with.
pub const UPSTREAM_ERROR: &'static str = "Resend error ";

/// Between the status and the body of a refusal by the mail provider.
pub const UPSTREAM_BODY: &'static str = ": ";

/// What the address of an audience's contacts starts with.
pub const CONTACTS_URL_OPEN: &'static str = "https://api.resend.com/audiences/";

/// What the address of an audience's contacts ends with.
pub const CONTACTS_URL_CLOSE: &'static str = "/contacts";

/// What the authorization of a request to the mail provider starts with.
pub const BEARER: &'static str = "Bearer ";

/// How a request can fail.
#[derive(Clone, Debug)]
pub enum Failure {
    /// The date of the request is no date key.
    InvalidDate,
    /// No digest is stored for the date.
    NoDigest { date: String },
    /// The database did not open.
    Store { detail: String },
    /// A query on the database failed.
    Query { detail: String },
    /// The database did not open for the health probe.
    Unreachable { detail: String },
    /// The health probe's query failed.
    ProbeFailed { detail: String },
    /// No mail provider is configured.
    NotConfigured,
    /// The request to the mail provider did not get through.
    Transport { detail: String },
    /// The mail provider refused; `status` is its status line, `body` what
    /// it answered.
    Upstream { status: String, body: String },
}

/// The status code that a failure is answered with.
pub open spec fn failure_status(f: Failure) -> u16 {
    match f {
        Failure::InvalidDate => BAD_REQUEST,
        Failure::NoDigest { .. } => NOT_FOUND,
        Failure::Store { .. } => INTERNAL_SERVER_ERROR,
        Failure::Query { .. } => INTERNAL_SERVER_ERROR,
        Failure::Unreachable { .. } => SERVICE_UNAVAILABLE,
        Failure::ProbeFailed { .. } => SERVICE_UNAVAILABLE,
        Failure::NotConfigured => SERVICE_UNAVAILABLE,
        Failure::Transport { .. } => INTERNAL_SERVER_ERROR,
        Failure::Upstream { .. } => INTERNAL_SERVER_ERROR,
    }
}

/// The message that a failure is answered with.
pub open spec fn failure_message(f: Failure) -> Seq<char> {
    match f {
        Failure::InvalidDate => INVALID_DATE@,
        Failure::NoDigest { date } => NO_DIGEST@ + date@,
        Failure::Store { detail } => DB_ERROR@ + detail@,
        Failure::Query { detail } => QUERY_ERROR@ + detail@,
        Failure::Unreachable { detail } => DB_ERROR@ + detail@,
        Failure::ProbeFailed { detail } => PROBE_ERROR@ + detail@,
        Failure::NotConfigured => NOT_CONFIGURED@,
        Failure::Transport { detail } => REQUEST_FAILED@ + detail@,
        Failure::Upstream { status, body } => UPSTREAM_ERROR@ + status@ + UPSTREAM_BODY@ + body@,
    }
}

/// `open` followed by `rest`.
fn prefixed(open: &str, rest: &str) -> (m: String)
    ensures
        m@ == open@ + rest@,
{
    let mut m = open.to_owned();
    m.append(rest);
    m
}

impl Failure {
    /// The status code that the failure is answered with.
    pub fn status_code(&self) -> (code: u16)
        ensures
            code == failure_status(*self),
    {
        match self {
            Failure::InvalidDate => BAD_REQUEST,
            Failure::NoDigest { .. } => NOT_FOUND,
            Failure::Store { .. } => INTERNAL_SERVER_ERROR,
            Failure::Query { .. } => INTERNAL_SERVER_ERROR,
            Failure::Unreachable { .. } => SERVICE_UNAVAILABLE,
            Failure::ProbeFailed { .. } => SERVICE_UNAVAILABLE,
            Failure::NotConfigured => SERVICE_UNAVAILABLE,
            Failure::Transport { .. } => INTERNAL_SERVER_ERROR,
            Failure::Upstream { .. } => INTERNAL_SERVER_ERROR,
        }
    }

    /// The message that the failure is answered with.
    pub fn message(&self) -> (m: String)
        ensures
            m@ == failure_message(*self),
    {
        match self {
            Failure::InvalidDate => INVALID_DATE.to_owned(),
            Failure::NoDigest { date } => prefixed(NO_DIGEST, date.as_str()),
            Failure::Store { detail } => prefixed(DB_ERROR, detail.as_str()),
            Failure::Query { detail } => prefixed(QUERY_ERROR, detail.as_str()),
            Failure::Unreachable { detail } => prefixed(DB_ERROR, detail.as_str()),
            Failure::ProbeFailed { detail } => prefixed(PROBE_ERROR, detail.as_str()),
            Failure::NotConfigured => NOT_CONFIGURED.to_owned(),
            Failure::Transport { detail } => prefixed(REQUEST_FAILED, detail.as_str()),
            Failure::Upstream { status, body } => {
                let mut m = prefixed(UPSTREAM_ERROR, status.as_str());
                m.append(UPSTREAM_BODY);
                m.append(body.as_str());
                m
            },
        }
    }
}

/// Every failure is answered with one of four status codes; none of them is
/// a success.
pub proof fn lemma_failure_status_is_an_error(f: Failure)
    ensures
        failure_status(f) == BAD_REQUEST || failure_status(f) == NOT_FOUND || failure_status(f)
            == INTERNAL_SERVER_ERROR || failure_status(f) == SERVICE_UNAVAILABLE,
        !is_success_code(failure_status(f)),
{
}

/// Lets a request for a digest through if its date is a date key.
pub fn check_date(date: &str) -> (r: Result<(), Failure>)
    ensures
        r is Ok <==> valid_date(date@),
        r is Err ==> r == Err::<(), Failure>(Failure::InvalidDate),
{
    if is_valid_date(date) {
        Ok(())
    } else {
        Err(Failure::InvalidDate)
    }
}

/// What the service asks of the mail provider to add a contact.
#[derive(Clone, Debug)]
pub struct ContactRequest {
    /// Where the request goes.
    pub url: String,
    /// Its authorization header.
    pub authorization: String,
    /// The address to add.
    pub email: String,
}

/// The request that adds `email` to the configured audience. Without both
/// the key and the audience there is no request, and the subscription fails
/// as not configured.
pub fn plan_subscription(config: &SiteConfig, email: String) -> (r: Result<ContactRequest, Failure>)
    ensures
        r is Ok <==> config@.subscriptions(),
        r matches Ok(req) ==> {
            &&& req.url@ == CONTACTS_URL_OPEN@ + config@.resend_audience_id->0 + CONTACTS_URL_CLOSE@
            &&& req.authorization@ == BEARER@ + config@.resend_api_key->0
            &&& req.email == email
        },
        r matches Err(f) ==> f == Failure::NotConfigured && failure_status(f)
            == SERVICE_UNAVAILABLE,
{
    match (&config.resend_api_key, &config.resend_audience_id) {
        (Some(key), Some(audience)) => {
            let mut url = prefixed(CONTACTS_URL_OPEN, audience.as_str());
            url.append(CONTACTS_URL_CLOSE);
            let authorization = prefixed(BEARER, key.as_str());
            Ok(ContactRequest { url, authorization, email })
        },
        _ => Err(Failure::NotConfigured),
    }
}

/// Whether a status code says that the request succeeded: 200 to 299.
pub open spec fn is_success_code(code: u16) -> bool {
    200 <= code <= 299
}

/// What `StatusCode` displays for the status with the number `code`: the
/// number and the reason phrase that belongs to it.
pub uninterp spec fn status_line(code: u16) -> Seq<char>;

/// Calls `StatusCode::is_success` on the status with the number `code`,
/// which is true from 200 to 299. A number that `StatusCode::from_u16`
/// refuses, below 100 or above 999, is no success.
#[verifier::external_body]
fn status_is_success(code: u16) -> (ok: bool)
    ensures
        ok == is_success_code(code),
{
    match StatusCode::from_u16(code) {
        Ok(status) => status.is_success(),
        Err(_) => false,
    }
}

/// Calls `Display` on the `StatusCode` with the number `code`, which
/// `StatusCode::from_u16` makes for every number from 100 to 999. The result
/// is known by its name only.
#[verifier::external_body]
fn status_display(code: u16) -> (line: String)
    requires
        100 <= code <= 999,
    ensures
        line@ == status_line(code),
{
    match StatusCode::from_u16(code) {
        Ok(status) => status.to_string(),
        Err(_) => String::new(),
    }
}

/// Whether the mail provider accepted the contact.
pub fn upstream_accepted(code: u16) -> (ok: bool)
    ensures
        ok == is_success_code(code),
{
    status_is_success(code)
}

/// The failure of a refusal by the mail provider, from its status line and
/// the body of its answer.
pub fn upstream_failure_of(status: String, body: String) -> (f: Failure)
    ensures
        f == (Failure::Upstream { status, body }),
        failure_status(f) == INTERNAL_SERVER_ERROR,
        failure_message(f) == UPSTREAM_ERROR@ + status@ + UPSTREAM_BODY@ + body@,
{
    Failure::Upstream { status, body }
}

/// The failure of a refusal by the mail provider with the status `code`.
pub fn upstream_failure(code: u16, body: String) -> (f: Failure)
    requires
        100 <= code <= 999,
    ensures
        f matches Failure::Upstream { status, body: b } && status@ == status_line(code) && b
            == body,
{
    upstream_failure_of(status_display(code), body)
}

/// What a subscription ends in, once the mail provider has answered with
/// the status `code`: the redirect to the index that shows the banner, or
/// the failure that carries the provider's answer.
pub fn conclude_subscription(code: u16, body: String) -> (r: Result<&'static str, Failure>)
    requires
        100 <= code <= 999,
    ensures
        r is Ok <==> is_success_code(code),
        r matches Ok(target) ==> target@ == SUBSCRIBED_REDIRECT@,
        r matches Err(f) ==> f matches Failure::Upstream { status, body: b } && status@
            == status_line(code) && b == body,
{
    if upstream_accepted(code) {
        Ok(SUBSCRIBED_REDIRECT)
    } else {
        Err(upstream_failure(code, body))
    }
}

} // verus!
