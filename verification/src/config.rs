//! What the service is configured with at startup, and the rules that the
//! settings must meet.

use crate::numeral::{decimal, parse_unsigned, push_decimal, read_unsigned};
use crate::text::{chars_of, starts_with};
use vstd::prelude::*;
use vstd::string::*;

verus! {

/// Where the database lies when no location is configured.
pub const DEFAULT_DB_PATH: &'static str = "/data/digest.db";

/// The port the service listens on when none is configured.
pub const DEFAULT_PORT: u16 = 8080;

/// The name the pages show when none is configured.
pub const DEFAULT_DIGEST_NAME: &'static str = "News Digest";

/// First directory a database may lie under.
pub const DATA_DIR: &'static str = "/data/";

/// Second directory a database may lie under.
pub const APP_DATA_DIR: &'static str = "/app/data/";

/// Third directory a database may lie under.
pub const LOCAL_DATA_DIR: &'static str = "./data/";

/// What the listen address starts with: every interface, then the colon
/// before the port.
pub const LISTEN_PREFIX: &'static str = "0.0.0.0:";

/// The characters of an optional text.
pub open spec fn text_of(o: Option<String>) -> Option<Seq<char>> {
    match o {
        Some(s) => Some(s@),
        None => None,
    }
}

/// What the handlers know of the site: names, links and credentials. It is
/// made once at startup and only read afterwards.
#[derive(Clone, Debug)]
pub struct SiteConfig {
    pub db_path: String,
    pub digest_name: String,
    pub css_url: Option<String>,
    pub homepage_url: Option<String>,
    pub source_url: Option<String>,
    pub resend_api_key: Option<String>,
    pub resend_audience_id: Option<String>,
}

/// What a `SiteConfig` stands for.
pub struct SiteModel {
    pub db_path: Seq<char>,
    pub digest_name: Seq<char>,
    pub css_url: Option<Seq<char>>,
    pub homepage_url: Option<Seq<char>>,
    pub source_url: Option<Seq<char>>,
    pub resend_api_key: Option<Seq<char>>,
    pub resend_audience_id: Option<Seq<char>>,
}

impl SiteModel {
    /// Whether readers can subscribe: both the key and the audience of the
    /// mail provider are configured.
    pub open spec fn subscriptions(self) -> bool {
        self.resend_api_key is Some && self.resend_audience_id is Some
    }
}

impl View for SiteConfig {
    type V = SiteModel;

    open spec fn view(&self) -> SiteModel {
        SiteModel {
            db_path: self.db_path@,
            digest_name: self.digest_name@,
            css_url: text_of(self.css_url),
            homepage_url: text_of(self.homepage_url),
            source_url: text_of(self.source_url),
            resend_api_key: text_of(self.resend_api_key),
            resend_audience_id: text_of(self.resend_audience_id),
        }
    }
}

impl SiteConfig {
    /// Whether readers can subscribe.
    pub fn subscriptions_enabled(&self) -> (enabled: bool)
        ensures
            enabled == self@.subscriptions(),
    {
        self.resend_api_key.is_some() && self.resend_audience_id.is_some()
    }
}

/// Whether a database location lies under one of the three directories that
/// are allowed.
pub open spec fn db_path_allowed(path: Seq<char>) -> bool {
    DATA_DIR@.is_prefix_of(path) || APP_DATA_DIR@.is_prefix_of(path) || LOCAL_DATA_DIR@.is_prefix_of(
        path,
    )
}

/// Whether a database location lies under one of the allowed directories.
pub fn is_db_path_allowed(path: &str) -> (ok: bool)
    ensures
        ok == db_path_allowed(path@),
{
    let p = chars_of(path);
    starts_with(&p, &chars_of(DATA_DIR)) || starts_with(&p, &chars_of(APP_DATA_DIR)) || starts_with(
        &p,
        &chars_of(LOCAL_DATA_DIR),
    )
}

/// Why the service cannot start.
#[derive(Clone, Debug)]
pub enum StartupError {
    /// The database location lies outside the allowed directories.
    PathNotAllowed,
    /// The database cannot be opened; `detail` says why.
    CannotOpen { detail: String },
    /// The database has no table of digests.
    MissingTable,
}

/// The message of a path outside the allowed directories.
pub const PATH_NOT_ALLOWED: &'static str =
    "DATABASE_PATH must be within /data/, /app/data/, or ./data/";

/// What the message of a database problem starts with.
pub const DATABASE_ERROR: &'static str = "Database error: ";

/// What the message of a database that does not open goes on with.
pub const CANNOT_OPEN: &'static str = "Cannot open database: ";

/// The message of a database without digests.
pub const MISSING_TABLE: &'static str = "Table 'digests' not found";

/// The line that reports a startup error.
pub open spec fn startup_message(e: StartupError) -> Seq<char> {
    match e {
        StartupError::PathNotAllowed => PATH_NOT_ALLOWED@,
        StartupError::CannotOpen { detail } => DATABASE_ERROR@ + CANNOT_OPEN@ + detail@,
        StartupError::MissingTable => DATABASE_ERROR@ + MISSING_TABLE@,
    }
}

impl StartupError {
    /// The line that reports the error.
    pub fn message(&self) -> (m: String)
        ensures
            m@ == startup_message(*self),
    {
        match self {
            StartupError::PathNotAllowed => PATH_NOT_ALLOWED.to_owned(),
            StartupError::CannotOpen { detail } => {
                let mut m = DATABASE_ERROR.to_owned();
                m.append(CANNOT_OPEN);
                m.append(detail.as_str());
                m
            },
            StartupError::MissingTable => {
                let mut m = DATABASE_ERROR.to_owned();
                m.append(MISSING_TABLE);
                m
            },
        }
    }
}

/// The database location to use: the configured one, or the default. A
/// location outside the allowed directories is an error.
pub fn resolve_db_path(configured: Option<String>) -> (r: Result<String, StartupError>)
    ensures
        match r {
            Ok(path) => {
                &&& db_path_allowed(path@)
                &&& path@ == match configured {
                    Some(p) => p@,
                    None => DEFAULT_DB_PATH@,
                }
            },
            Err(e) => {
                &&& e == StartupError::PathNotAllowed
                &&& !db_path_allowed(
                    match configured {
                        Some(p) => p@,
                        None => DEFAULT_DB_PATH@,
                    },
                )
            },
        },
{
    let path = match configured {
        Some(p) => p,
        None => DEFAULT_DB_PATH.to_owned(),
    };
    if is_db_path_allowed(path.as_str()) {
        Ok(path)
    } else {
        Err(StartupError::PathNotAllowed)
    }
}

/// The port a setting names: the number it spells, if it spells one that a
/// port can be, else the default.
pub open spec fn port_of(configured: Option<Seq<char>>) -> int {
    match configured {
        Some(s) => match parse_unsigned(s, u16::MAX as int) {
            Some(n) => n,
            None => DEFAULT_PORT as int,
        },
        None => DEFAULT_PORT as int,
    }
}

/// The port to listen on.
pub fn resolve_port(configured: Option<&str>) -> (port: u16)
    ensures
        port == port_of(
            match configured {
                Some(s) => Some(s@),
                None => None,
            },
        ),
{
    match configured {
        Some(s) => {
            let chars = chars_of(s);
            match read_unsigned(&chars, 65535) {
                Some(n) => n as u16,
                None => DEFAULT_PORT,
            }
        },
        None => DEFAULT_PORT,
    }
}

/// The address to listen on: every interface, at `port`.
pub fn listen_address(port: u16) -> (addr: String)
    ensures
        addr@ == LISTEN_PREFIX@ + decimal(port as int),
{
    let mut addr = LISTEN_PREFIX.to_owned();
    push_decimal(&mut addr, port as i128);
    addr
}

/// The name the pages show: the configured one, or the default.
pub fn resolve_digest_name(configured: Option<String>) -> (name: String)
    ensures
        name@ == match configured {
            Some(n) => n@,
            None => DEFAULT_DIGEST_NAME@,
        },
{
    match configured {
        Some(n) => n,
        None => DEFAULT_DIGEST_NAME.to_owned(),
    }
}

} // verus!
