//! The server's configuration, resolved from environment variables with
//! the documented defaults.

use vstd::prelude::*;

use crate::error::{ConfigError, ServerError};
use crate::text::{decimal, owned, push_i64, push_str, str_eq};

verus! {

/// The server's settings.
#[derive(Debug, Clone)]
pub struct ServerConfig {
    /// `DATABASE_URL`, required.
    pub database_url: String,
    /// `JWT_SECRET`, required.
    pub jwt_secret: String,
    /// `AGE_SECRET_KEY`, required.
    pub age_secret_key: String,
    /// `HOST`, default `0.0.0.0`.
    pub host: String,
    /// `PORT`, default 8080.
    pub port: i32,
    /// `INGRESS_PORT`: host port each server's Traefik publishes for HTTP, default 80.
    pub ingress_port: i32,
    /// `HTTPS_PORT`: host port for HTTPS, default 443; only opened with ACME.
    pub https_port: i32,
    /// `ACME_EMAIL`: enables Let's Encrypt for custom domains when set.
    pub acme_email: Option<String>,
    /// `DASHBOARD_ORIGINS`: comma-separated browser origins allowed by CORS,
    /// default `http://localhost:5173,http://localhost:4173`.
    pub dashboard_origins: String,
}

/// The value of variable `key` in `env` (the first binding, if several).
pub open spec fn env_lookup(env: Seq<(String, String)>, key: Seq<char>) -> Option<Seq<char>>
    decreases env.len(),
{
    if env.len() == 0 {
        None
    } else if env[0].0@ == key {
        Some(env[0].1@)
    } else {
        env_lookup(env.drop_first(), key)
    }
}

/// Whether `c` is an ASCII decimal digit.
pub open spec fn is_digit(c: char) -> bool {
    '0' <= c <= '9'
}

/// The number written by a string of decimal digits.
pub open spec fn digits_value(s: Seq<char>) -> int
    decreases s.len(),
{
    if s.len() == 0 {
        0
    } else {
        digits_value(s.drop_last()) * 10 + ((s.last() as u32) - ('0' as u32))
    }
}

pub open spec fn all_digits(s: Seq<char>) -> bool {
    forall|i: int| 0 <= i < s.len() ==> is_digit(#[trigger] s[i])
}

/// The integer `s` writes: an optional sign then at least one decimal digit.
pub open spec fn parse_int(s: Seq<char>) -> Option<int> {
    if s.len() > 0 && (s[0] == '-' || s[0] == '+') {
        let rest = s.drop_first();
        if rest.len() > 0 && all_digits(rest) {
            Some(if s[0] == '-' { -digits_value(rest) } else { digits_value(rest) })
        } else {
            None
        }
    } else if s.len() > 0 && all_digits(s) {
        Some(digits_value(s))
    } else {
        None
    }
}

/// `s` parsed as an `i32`, as `str::parse::<i32>` does: `None` for a
/// malformed number or one out of range.
pub open spec fn parse_i32(s: Seq<char>) -> Option<i32> {
    match parse_int(s) {
        Some(v) => if i32::MIN <= v <= i32::MAX { Some(v as i32) } else { None },
        None => None,
    }
}

proof fn lemma_digits_value_nonneg(s: Seq<char>)
    requires
        all_digits(s),
    ensures
        digits_value(s) >= 0,
    decreases s.len(),
{
    if s.len() > 0 {
        assert(all_digits(s.drop_last()));
        lemma_digits_value_nonneg(s.drop_last());
    }
}

proof fn lemma_digits_value_grows(s: Seq<char>, i: int, j: int)
    requires
        all_digits(s),
        0 <= i <= j <= s.len(),
    ensures
        digits_value(s.take(i)) <= digits_value(s.take(j)),
    decreases j - i,
{
    if i < j {
        lemma_digits_value_grows(s, i, j - 1);
        assert(s.take(j).drop_last() =~= s.take(j - 1));
        assert(all_digits(s.take(j - 1)));
        lemma_digits_value_nonneg(s.take(j - 1));
        assert(is_digit(s[j - 1]));
    }
}

/// The value of the digits `s[from..]`, or `None` when one of them is not
/// a digit, or when the value exceeds `limit`.
fn digits_up_to(s: &str, from: usize, limit: i64) -> (r: Option<i64>)
    requires
        from <= s@.len(),
        0 <= limit < 1_000_000_000_000,
    ensures
        r matches Some(v) ==> all_digits(s@.skip(from as int)) && 0 <= v <= limit,
        !all_digits(s@.skip(from as int)) ==> r is None,
        all_digits(s@.skip(from as int)) ==> match r {
            Some(v) => v == digits_value(s@.skip(from as int)) && v <= limit,
            None => digits_value(s@.skip(from as int)) > limit,
        },
{
    let n = s.unicode_len();
    let ghost t = s@.skip(from as int);
    let mut i = from;
    let mut acc: i64 = 0;
    let mut over = false;
    while i < n
        invariant
            n == s@.len(),
            from <= i <= n,
            t == s@.skip(from as int),
            0 <= limit < 1_000_000_000_000,
            all_digits(t.take(i - from)),
            0 <= acc <= limit,
            !over ==> acc == digits_value(t.take(i - from)),
            over ==> digits_value(t.take(i - from)) > limit,
        decreases n - i,
    {
        let c = s.get_char(i);
        assert(t[i - from] == c);
        if !('0' <= c && c <= '9') {
            assert(!all_digits(t));
            return None;
        }
        let ghost k = (i - from) as int;
        assert(t.take(k + 1).drop_last() =~= t.take(k));
        assert(all_digits(t.take(k + 1)));
        if !over {
            let d = ((c as u32) - ('0' as u32)) as i64;
            assert(acc * 10 + d <= 10_000_000_000_009) by (nonlinear_arith)
                requires
                    0 <= acc <= 1_000_000_000_000,
                    0 <= d < 10,
            ;
            let next = acc * 10 + d;
            assert(digits_value(t.take(k + 1)) == digits_value(t.take(k)) * 10 + d);
            if next > limit {
                over = true;
            } else {
                acc = next;
            }
        } else {
            proof {
                lemma_digits_value_grows(t.take(k + 1), k, k + 1);
                assert(t.take(k + 1).take(k) =~= t.take(k));
                assert(t.take(k + 1).take(k + 1) =~= t.take(k + 1));
            }
        }
        i = i + 1;
    }
    assert(t.take(n - from) =~= t);
    if over {
        None
    } else {
        Some(acc)
    }
}

/// Parses `s` as `str::parse::<i32>` does.
pub fn parse_i32_value(s: &str) -> (r: Option<i32>)
    ensures
        r == parse_i32(s@),
{
    let n = s.unicode_len();
    if n == 0 {
        return None;
    }
    let first = s.get_char(0);
    let signed = first == '-' || first == '+';
    let from: usize = if signed { 1 } else { 0 };
    if signed && n == 1 {
        return None;
    }
    assert(s@.skip(1) =~= s@.drop_first());
    assert(s@.skip(0) =~= s@);
    let limit: i64 = if first == '-' { 2147483648 } else { 2147483647 };
    match digits_up_to(s, from, limit) {
        None => None,
        Some(v) => {
            if first == '-' {
                Some((0 - v) as i32)
            } else {
                Some(v as i32)
            }
        },
    }
}

/// Looks up `key` in `env`.
fn lookup(env: &Vec<(String, String)>, key: &str) -> (r: Option<String>)
    ensures
        opt_string_view(r) == env_lookup(env@, key@),
{
    let mut i: usize = 0;
    assert(env@.skip(0) =~= env@);
    while i < env.len()
        invariant
            i <= env.len(),
            env_lookup(env@, key@) == env_lookup(env@.skip(i as int), key@),
        decreases env.len() - i,
    {
        assert(env@.skip(i as int).drop_first() =~= env@.skip(i + 1));
        if str_eq(env[i].0.as_str(), key) {
            return Some(env[i].1.clone());
        }
        i = i + 1;
    }
    None
}

pub open spec fn opt_string_view(o: Option<String>) -> Option<Seq<char>> {
    match o {
        Some(s) => Some(s@),
        None => None,
    }
}

/// A required string setting.
pub open spec fn required(env: Seq<(String, String)>, key: Seq<char>) -> Result<Seq<char>, Seq<char>> {
    match env_lookup(env, key) {
        Some(v) => Ok(v),
        None => Err(key),
    }
}

/// An integer setting with a default: `Err` names the variable when it is
/// set but does not parse.
pub open spec fn int_or(env: Seq<(String, String)>, key: Seq<char>, default: i32) -> Result<i32, Seq<char>> {
    match env_lookup(env, key) {
        Some(v) => match parse_i32(v) {
            Some(n) => Ok(n),
            None => Err(key),
        },
        None => Ok(default),
    }
}

/// A string setting with a default.
pub open spec fn string_or(env: Seq<(String, String)>, key: Seq<char>, default: Seq<char>) -> Seq<char> {
    match env_lookup(env, key) {
        Some(v) => v,
        None => default,
    }
}

/// What resolving the configuration from `env` gives, as plain values:
/// either every setting, or the first setting (in declaration order) that is
/// missing or malformed.
pub open spec fn config_error(env: Seq<(String, String)>) -> Option<ConfigErrorView> {
    if required(env, "DATABASE_URL"@) is Err {
        Some(ConfigErrorView::Missing("DATABASE_URL"@))
    } else if required(env, "JWT_SECRET"@) is Err {
        Some(ConfigErrorView::Missing("JWT_SECRET"@))
    } else if required(env, "AGE_SECRET_KEY"@) is Err {
        Some(ConfigErrorView::Missing("AGE_SECRET_KEY"@))
    } else if int_or(env, "PORT"@, 8080) is Err {
        Some(ConfigErrorView::Invalid("PORT"@))
    } else if int_or(env, "INGRESS_PORT"@, 80) is Err {
        Some(ConfigErrorView::Invalid("INGRESS_PORT"@))
    } else if int_or(env, "HTTPS_PORT"@, 443) is Err {
        Some(ConfigErrorView::Invalid("HTTPS_PORT"@))
    } else {
        None
    }
}

/// A configuration error by the variable it names.
pub enum ConfigErrorView {
    Missing(Seq<char>),
    Invalid(Seq<char>),
}

pub open spec fn config_error_view(e: ConfigError) -> ConfigErrorView {
    match e {
        ConfigError::Missing(k) => ConfigErrorView::Missing(k@),
        ConfigError::Invalid(k) => ConfigErrorView::Invalid(k@),
    }
}

/// Whether `c` is the configuration `env` resolves to.
pub open spec fn resolves_to(env: Seq<(String, String)>, c: ServerConfig) -> bool {
    &&& Ok::<Seq<char>, Seq<char>>(c.database_url@) == required(env, "DATABASE_URL"@)
    &&& Ok::<Seq<char>, Seq<char>>(c.jwt_secret@) == required(env, "JWT_SECRET"@)
    &&& Ok::<Seq<char>, Seq<char>>(c.age_secret_key@) == required(env, "AGE_SECRET_KEY"@)
    &&& c.host@ == string_or(env, "HOST"@, "0.0.0.0"@)
    &&& Ok::<i32, Seq<char>>(c.port) == int_or(env, "PORT"@, 8080)
    &&& Ok::<i32, Seq<char>>(c.ingress_port) == int_or(env, "INGRESS_PORT"@, 80)
    &&& Ok::<i32, Seq<char>>(c.https_port) == int_or(env, "HTTPS_PORT"@, 443)
    &&& opt_string_view(c.acme_email) == env_lookup(env, "ACME_EMAIL"@)
    &&& c.dashboard_origins@ == string_or(
        env,
        "DASHBOARD_ORIGINS"@,
        "http://localhost:5173,http://localhost:4173"@,
    )
}

fn required_value(env: &Vec<(String, String)>, key: &str) -> (r: Result<String, ServerError>)
    ensures
        match required(env@, key@) {
            Ok(v) => r matches Ok(s) && s@ == v,
            Err(_) => r matches Err(ServerError::Forgeconf(ConfigError::Missing(k))) && k@ == key@,
        },
{
    match lookup(env, key) {
        Some(v) => Ok(v),
        None => Err(ServerError::Forgeconf(ConfigError::Missing(owned(key)))),
    }
}

fn int_value(env: &Vec<(String, String)>, key: &str, default: i32) -> (r: Result<i32, ServerError>)
    ensures
        match int_or(env@, key@, default) {
            Ok(v) => r == Ok::<i32, ServerError>(v),
            Err(_) => r matches Err(ServerError::Forgeconf(ConfigError::Invalid(k))) && k@ == key@,
        },
{
    match lookup(env, key) {
        Some(v) => match parse_i32_value(v.as_str()) {
            Some(n) => Ok(n),
            None => Err(ServerError::Forgeconf(ConfigError::Invalid(owned(key)))),
        },
        None => Ok(default),
    }
}

fn string_value(env: &Vec<(String, String)>, key: &str, default: &str) -> (r: String)
    ensures
        r@ == string_or(env@, key@, default@),
{
    match lookup(env, key) {
        Some(v) => v,
        None => owned(default),
    }
}

impl ServerConfig {
    /// Resolves the configuration from the process environment `env`
    /// (name, value pairs): required settings must be present, integer
    /// settings must parse, and the others fall back to their defaults.
    pub fn load(env: &Vec<(String, String)>) -> (r: Result<ServerConfig, ServerError>)
        ensures
            match config_error(env@) {
                None => r matches Ok(c) && resolves_to(env@, c),
                Some(e) => r matches Err(ServerError::Forgeconf(ce)) && config_error_view(ce) == e,
            },
    {
        let database_url = required_value(env, "DATABASE_URL")?;
        let jwt_secret = required_value(env, "JWT_SECRET")?;
        let age_secret_key = required_value(env, "AGE_SECRET_KEY")?;
        let host = string_value(env, "HOST", "0.0.0.0");
        let port = int_value(env, "PORT", 8080)?;
        let ingress_port = int_value(env, "INGRESS_PORT", 80)?;
        let https_port = int_value(env, "HTTPS_PORT", 443)?;
        let acme_email = lookup(env, "ACME_EMAIL");
        let dashboard_origins = string_value(
            env,
            "DASHBOARD_ORIGINS",
            "http://localhost:5173,http://localhost:4173",
        );
        Ok(ServerConfig {
            database_url,
            jwt_secret,
            age_secret_key,
            host,
            port,
            ingress_port,
            https_port,
            acme_email,
            dashboard_origins,
        })
    }
}

/// The address the HTTP server listens on: `{host}:{port}`.
pub fn listen_address(config: &ServerConfig) -> (a: String)
    ensures
        a@ == config.host@ + ":"@ + decimal(config.port as int),
{
    let mut a = config.host.clone();
    push_str(&mut a, ":");
    push_i64(&mut a, config.port as i64);
    a
}

/// A configured port as a `u16`, or `fallback` when it does not fit
/// (`u16::try_from(port).unwrap_or(fallback)`).
pub fn port_or(port: i32, fallback: u16) -> (r: u16)
    ensures
        0 <= port <= 65535 ==> r == port,
        !(0 <= port <= 65535) ==> r == fallback,
{
    if 0 <= port && port <= 65535 {
        port as u16
    } else {
        fallback
    }
}

/// The port Traefik listens on for plain HTTP ingress.
pub fn ingress_port(config: &ServerConfig) -> (r: u16)
    ensures
        r == if 0 <= config.ingress_port <= 65535 { config.ingress_port as u16 } else { 80 },
{
    port_or(config.ingress_port, 80)
}

/// The port Traefik listens on for HTTPS ingress.
pub fn https_port(config: &ServerConfig) -> (r: u16)
    ensures
        r == if 0 <= config.https_port <= 65535 { config.https_port as u16 } else { 443 },
{
    port_or(config.https_port, 443)
}

} // verus!
