//! The service's settings, from the values of its environment variables.
use vstd::prelude::*;

use crate::numbers::{decimal_within, parse_u16, parse_u32, parse_u64};
use crate::text::str_eq;

verus! {

/// An IP address as plain values: four octets, or eight 16-bit groups.
#[derive(Debug, Clone, Copy, PartialEq, Eq)]
pub enum HostAddr {
    V4(u8, u8, u8, u8),
    V6(u16, u16, u16, u16, u16, u16, u16, u16),
}

/// The address the service listens on when `HTTP_HOST` gives none: 127.0.0.1.
pub open spec fn default_host() -> HostAddr {
    HostAddr::V4(127, 0, 0, 1)
}

/// The raw value of each setting's environment variable; `None` where the
/// variable is unset or not valid Unicode. `HTTP_HOST` comes read as an IP
/// address (the standard library's reading, done where the environment is
/// read): `None` also where it is not one.
#[derive(Debug, Clone)]
pub struct ConfigVars {
    pub http_host: Option<HostAddr>,
    pub http_port: Option<String>,
    pub database_url: Option<String>,
    pub jwt_secret: Option<String>,
    pub run_migrations: Option<String>,
    pub files_backend: Option<String>,
    pub files_bucket: Option<String>,
    pub files_local_dir: Option<String>,
    pub files_public_base_url: Option<String>,
    pub files_max_byte_size: Option<String>,
    pub s3_region: Option<String>,
    pub s3_endpoint: Option<String>,
    pub jobs_enabled: Option<String>,
    pub jobs_reminder_interval_seconds: Option<String>,
    pub jobs_reminder_window_minutes: Option<String>,
    pub jobs_dispatch_interval_seconds: Option<String>,
    pub jobs_live_interval_seconds: Option<String>,
}

/// The settings of the service.
#[derive(Debug, Clone)]
pub struct AppConfig {
    pub host: HostAddr,
    pub port: u16,
    pub database_url: Option<String>,
    pub jwt_secret: String,
    pub run_migrations: bool,
    pub files_backend: String,
    pub files_bucket: String,
    pub files_local_dir: String,
    pub files_public_base_url: String,
    pub files_max_byte_size: u64,
    pub s3_region: Option<String>,
    pub s3_endpoint: Option<String>,
    pub jobs_enabled: bool,
    pub jobs_reminder_interval_seconds: u64,
    pub jobs_reminder_window_minutes: u32,
    pub jobs_dispatch_interval_seconds: u64,
    pub jobs_live_interval_seconds: u64,
}

pub const DEFAULT_PORT: u16 = 3001;

pub const DEFAULT_FILES_MAX_BYTE_SIZE: u64 = 5242880;

pub const DEFAULT_REMINDER_INTERVAL_SECONDS: u64 = 300;

pub const DEFAULT_REMINDER_WINDOW_MINUTES: u32 = 60;

pub const DEFAULT_DISPATCH_INTERVAL_SECONDS: u64 = 60;

pub const DEFAULT_LIVE_INTERVAL_SECONDS: u64 = 60;

/// A switch is on unless its value is one of the words that turn it off; an
/// unset switch is on.
pub open spec fn switch_on(value: Option<Seq<char>>) -> bool {
    match value {
        None => true,
        Some(v) => !(v == "0"@ || v == "false"@ || v == "FALSE"@ || v == "no"@ || v == "NO"@),
    }
}

pub open spec fn text_of(value: Option<String>) -> Option<Seq<char>> {
    match value {
        Some(s) => Some(s@),
        None => None,
    }
}

/// A text setting: the value where set, else the default.
pub open spec fn text_or(value: Option<String>, default: Seq<char>) -> Seq<char> {
    match value {
        Some(s) => s@,
        None => default,
    }
}

/// A number setting: the value where it reads as a number no greater than
/// `max`, else the default.
pub open spec fn number_or(value: Option<String>, max: nat, default: nat) -> nat {
    match value {
        Some(s) => match decimal_within(s@, max) {
            Some(v) => v,
            None => default,
        },
        None => default,
    }
}

/// Whether a switch is on.
pub fn switch_value(value: Option<&str>) -> (r: bool)
    ensures
        r == switch_on(
            match value {
                Some(v) => Some(v@),
                None => None,
            },
        ),
{
    match value {
        None => true,
        Some(v) => !(str_eq(v, "0") || str_eq(v, "false") || str_eq(v, "FALSE") || str_eq(v, "no")
            || str_eq(v, "NO")),
    }
}

fn text_setting(value: &Option<String>, default: &str) -> (r: String)
    ensures
        r@ == text_or(*value, default@),
{
    match value {
        Some(s) => s.clone(),
        None => String::from_str(default),
    }
}

fn u64_setting(value: &Option<String>, default: u64) -> (r: u64)
    ensures
        r == number_or(*value, u64::MAX as nat, default as nat),
{
    match value {
        Some(s) => match parse_u64(s.as_str()) {
            Some(v) => v,
            None => default,
        },
        None => default,
    }
}

fn as_str_opt(value: &Option<String>) -> (r: Option<&str>)
    ensures
        match r {
            Some(v) => text_of(*value) == Some(v@),
            None => text_of(*value) is None,
        },
{
    match value {
        Some(s) => Some(s.as_str()),
        None => None,
    }
}

impl AppConfig {
    /// The settings that the given variables make, with the defaults of the
    /// service where a variable is unset or unreadable.
    pub fn from_vars(vars: &ConfigVars) -> (r: AppConfig)
        ensures
            r.host == match vars.http_host {
                Some(h) => h,
                None => default_host(),
            },
            r.port == number_or(vars.http_port, u16::MAX as nat, DEFAULT_PORT as nat),
            r.database_url == vars.database_url,
            r.jwt_secret@ == text_or(vars.jwt_secret, "development-only-secret"@),
            r.run_migrations == switch_on(text_of(vars.run_migrations)),
            r.files_backend@ == text_or(vars.files_backend, "local"@),
            r.files_bucket@ == text_or(vars.files_bucket, "palpites-local"@),
            r.files_local_dir@ == text_or(vars.files_local_dir, "./storage"@),
            r.files_public_base_url@ == text_or(
                vars.files_public_base_url,
                "http://127.0.0.1:3001/files-local"@,
            ),
            r.files_max_byte_size == number_or(
                vars.files_max_byte_size,
                u64::MAX as nat,
                DEFAULT_FILES_MAX_BYTE_SIZE as nat,
            ),
            r.s3_region == vars.s3_region,
            r.s3_endpoint == vars.s3_endpoint,
            r.jobs_enabled == switch_on(text_of(vars.jobs_enabled)),
            r.jobs_reminder_interval_seconds == number_or(
                vars.jobs_reminder_interval_seconds,
                u64::MAX as nat,
                DEFAULT_REMINDER_INTERVAL_SECONDS as nat,
            ),
            r.jobs_reminder_window_minutes == number_or(
                vars.jobs_reminder_window_minutes,
                u32::MAX as nat,
                DEFAULT_REMINDER_WINDOW_MINUTES as nat,
            ),
            r.jobs_dispatch_interval_seconds == number_or(
                vars.jobs_dispatch_interval_seconds,
                u64::MAX as nat,
                DEFAULT_DISPATCH_INTERVAL_SECONDS as nat,
            ),
            r.jobs_live_interval_seconds == number_or(
                vars.jobs_live_interval_seconds,
                u64::MAX as nat,
                DEFAULT_LIVE_INTERVAL_SECONDS as nat,
            ),
    {
        let port = match &vars.http_port {
            Some(s) => match parse_u16(s.as_str()) {
                Some(v) => v,
                None => DEFAULT_PORT,
            },
            None => DEFAULT_PORT,
        };
        let window = match &vars.jobs_reminder_window_minutes {
            Some(s) => match parse_u32(s.as_str()) {
                Some(v) => v,
                None => DEFAULT_REMINDER_WINDOW_MINUTES,
            },
            None => DEFAULT_REMINDER_WINDOW_MINUTES,
        };
        let host = match vars.http_host {
            Some(h) => h,
            None => HostAddr::V4(127, 0, 0, 1),
        };
        AppConfig {
            host,
            port,
            database_url: vars.database_url.clone(),
            jwt_secret: text_setting(&vars.jwt_secret, "development-only-secret"),
            run_migrations: switch_value(as_str_opt(&vars.run_migrations)),
            files_backend: text_setting(&vars.files_backend, "local"),
            files_bucket: text_setting(&vars.files_bucket, "palpites-local"),
            files_local_dir: text_setting(&vars.files_local_dir, "./storage"),
            files_public_base_url: text_setting(
                &vars.files_public_base_url,
                "http://127.0.0.1:3001/files-local",
            ),
            files_max_byte_size: u64_setting(
                &vars.files_max_byte_size,
                DEFAULT_FILES_MAX_BYTE_SIZE,
            ),
            s3_region: vars.s3_region.clone(),
            s3_endpoint: vars.s3_endpoint.clone(),
            jobs_enabled: switch_value(as_str_opt(&vars.jobs_enabled)),
            jobs_reminder_interval_seconds: u64_setting(
                &vars.jobs_reminder_interval_seconds,
                DEFAULT_REMINDER_INTERVAL_SECONDS,
            ),
            jobs_reminder_window_minutes: window,
            jobs_dispatch_interval_seconds: u64_setting(
                &vars.jobs_dispatch_interval_seconds,
                DEFAULT_DISPATCH_INTERVAL_SECONDS,
            ),
            jobs_live_interval_seconds: u64_setting(
                &vars.jobs_live_interval_seconds,
                DEFAULT_LIVE_INTERVAL_SECONDS,
            ),
        }
    }
}

} // verus!
