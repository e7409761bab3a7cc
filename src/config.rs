//! Service configuration: defaults for unset variables and the store URL.
use vstd::prelude::*;
use vstd::string::*;
use crate::auth::opt_string_view;
use crate::decimal::{decimal_text, parse_u16, parse_u64, parsed_u16, parsed_u64, u16_text};

verus! {

/// The service settings.
#[derive(Debug, Clone)]
pub struct Config {
    pub mysql_host: String,
    pub mysql_port: u16,
    pub mysql_user: String,
    pub mysql_password: String,
    pub mysql_database: String,
    pub redis_url: String,
    pub port: u16,
    pub auth_signature_secret: Option<String>,
    pub cache_ttl_seconds: u64,
}

/// The raw configuration variables, `None` where unset.
#[derive(Debug, Clone)]
pub struct ConfigVars {
    pub mysql_host: Option<String>,
    pub mysql_port: Option<String>,
    pub mysql_user: Option<String>,
    pub mysql_password: Option<String>,
    pub mysql_database: Option<String>,
    pub redis_url: Option<String>,
    pub port: Option<String>,
    pub auth_signature_secret: Option<String>,
    pub cache_ttl_seconds: Option<String>,
}

/// The percent-encoding of the UTF-8 bytes of `s`: every byte but ASCII
/// alphanumerics and `-`, `_`, `.`, `~` becomes `%` and two upper-case hex
/// digits.
pub uninterp spec fn percent_encoded(s: Seq<char>) -> Seq<char>;

/// Relies on `urlencoding::encode`: the percent-encoding of the text's bytes.
#[verifier::external_body]
fn url_encode(s: &str) -> (r: String)
    ensures
        r@ == percent_encoded(s@),
{
    urlencoding::encode(s).into_owned()
}

pub open spec fn text_or(v: Option<Seq<char>>, default: Seq<char>) -> Seq<char> {
    match v {
        Some(s) => s,
        None => default,
    }
}

/// A number variable: its parsed value, or the default when unset or not a
/// valid number.
pub open spec fn u16_or(v: Option<Seq<char>>, default: u16) -> u16 {
    match v {
        Some(s) => match parsed_u16(s) {
            Some(n) => n,
            None => default,
        },
        None => default,
    }
}

pub open spec fn u64_or(v: Option<Seq<char>>, default: u64) -> u64 {
    match v {
        Some(s) => match parsed_u64(s) {
            Some(n) => n,
            None => default,
        },
        None => default,
    }
}

fn string_or(v: &Option<String>, default: &str) -> (r: String)
    ensures
        r@ == text_or(opt_string_view(*v), default@),
{
    match v {
        Some(s) => s.clone(),
        None => default.to_owned(),
    }
}

fn port_or(v: &Option<String>, default: u16) -> (r: u16)
    ensures
        r == u16_or(opt_string_view(*v), default),
{
    match v {
        Some(s) => match parse_u16(s.as_str()) {
            Some(n) => n,
            None => default,
        },
        None => default,
    }
}

fn seconds_or(v: &Option<String>, default: u64) -> (r: u64)
    ensures
        r == u64_or(opt_string_view(*v), default),
{
    match v {
        Some(s) => match parse_u64(s.as_str()) {
            Some(n) => n,
            None => default,
        },
        None => default,
    }
}

impl Config {
    /// Settings from the raw variables, with a default for each unset one
    /// (the password defaults to empty, the secret to none).
    pub fn from_vars(vars: &ConfigVars) -> (r: Config)
        ensures
            r.mysql_host@ == text_or(opt_string_view(vars.mysql_host), "localhost"@),
            r.mysql_port == u16_or(opt_string_view(vars.mysql_port), 3306),
            r.mysql_user@ == text_or(opt_string_view(vars.mysql_user), "root"@),
            r.mysql_password@ == text_or(opt_string_view(vars.mysql_password), ""@),
            r.mysql_database@ == text_or(opt_string_view(vars.mysql_database), "forecap_db"@),
            r.redis_url@ == text_or(opt_string_view(vars.redis_url), "redis://127.0.0.1:6379"@),
            r.port == u16_or(opt_string_view(vars.port), 4000),
            opt_string_view(r.auth_signature_secret) == opt_string_view(vars.auth_signature_secret),
            r.cache_ttl_seconds == u64_or(opt_string_view(vars.cache_ttl_seconds), 3600),
    {
        let secret = match &vars.auth_signature_secret {
            Some(s) => Some(s.clone()),
            None => None,
        };
        Config {
            mysql_host: string_or(&vars.mysql_host, "localhost"),
            mysql_port: port_or(&vars.mysql_port, 3306),
            mysql_user: string_or(&vars.mysql_user, "root"),
            mysql_password: string_or(&vars.mysql_password, ""),
            mysql_database: string_or(&vars.mysql_database, "forecap_db"),
            redis_url: string_or(&vars.redis_url, "redis://127.0.0.1:6379"),
            port: port_or(&vars.port, 4000),
            auth_signature_secret: secret,
            cache_ttl_seconds: seconds_or(&vars.cache_ttl_seconds, 3600),
        }
    }

    pub open spec fn mysql_url_spec(&self) -> Seq<char> {
        "mysql://"@ + percent_encoded(self.mysql_user@) + ":"@ + percent_encoded(
            self.mysql_password@,
        ) + "@"@ + self.mysql_host@ + ":"@ + decimal_text(self.mysql_port as int) + "/"@
            + self.mysql_database@
    }

    /// The store connection URL, with user and password percent-encoded.
    pub fn mysql_url(&self) -> (r: String)
        ensures
            r@ == self.mysql_url_spec(),
    {
        let mut url = "mysql://".to_owned();
        let user = url_encode(self.mysql_user.as_str());
        url.append(user.as_str());
        url.append(":");
        let password = url_encode(self.mysql_password.as_str());
        url.append(password.as_str());
        url.append("@");
        url.append(self.mysql_host.as_str());
        url.append(":");
        let port = u16_text(self.mysql_port);
        url.append(port.as_str());
        url.append("/");
        url.append(self.mysql_database.as_str());
        url
    }
}

} // verus!
