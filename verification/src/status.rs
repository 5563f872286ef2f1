//! Status reconciliation: the worker's status snapshot, the safe default,
//! extraction of the JSON document from mixed output, and the reading of
//! the wire schema.
//!
//! A status query never fails: every failure mode — worker unavailable,
//! launch failure, timeout, nonzero exit, no JSON in the output, or a
//! malformed document — degrades to the default status, which reports a
//! stopped server, logged-out auth and the canonical local endpoint.

use vstd::prelude::*;
use vstd::string::StrSliceExecFns;
use vstd::string::StringExecFns;

use crate::jsonio::json_of;
use crate::jsonio::parse_json_doc;
use crate::jsonio::JsonDoc;
use crate::strutil::find_char;
use crate::strutil::find_first;
use crate::strutil::str_eq;

verus! {

/// The worker's view of its server process.
#[derive(Debug, Clone)]
pub struct ServerStatus {
    pub running: bool,
    pub pid: Option<u32>,
    pub url: Option<String>,
}

/// The worker's view of its stored credentials.
#[derive(Debug, Clone)]
pub struct AuthStatus {
    pub logged_in: bool,
    pub username: Option<String>,
}

/// The endpoint the worker serves; `port` is the primary key used for the
/// mount-matching fallback.
#[derive(Debug, Clone)]
pub struct WebdavConfig {
    pub host: String,
    pub port: u16,
    pub https: bool,
    pub require_auth: bool,
    pub username: Option<String>,
    pub password_hash: Option<String>,
}

/// The worker-side cache settings.
#[derive(Debug, Clone)]
pub struct CacheConfig {
    pub enabled: bool,
    pub ttl_seconds: u32,
    pub max_size_mb: u32,
}

/// The worker's configuration snapshot.
#[derive(Debug, Clone)]
pub struct ConfigStatus {
    pub webdav: WebdavConfig,
    pub remote_path: String,
    pub cache: Option<CacheConfig>,
    pub debug: Option<bool>,
    pub auto_start: Option<bool>,
}

/// One immutable snapshot of worker state; each query produces a fresh one.
#[derive(Debug, Clone)]
pub struct StatusResponse {
    pub server: ServerStatus,
    pub auth: AuthStatus,
    pub config: ConfigStatus,
    pub log_file: String,
}

/// A log line re-emitted from the worker's output stream.
#[derive(Debug, Clone)]
pub struct LogEvent {
    pub level: String,
    pub message: String,
}

/// The safe fallback status: stopped server, logged-out auth, the canonical
/// local endpoint, and no optional data.
pub open spec fn is_default_status(s: StatusResponse) -> bool {
    &&& s.server.running == false
    &&& s.server.pid is None
    &&& s.server.url is None
    &&& s.auth.logged_in == false
    &&& s.auth.username is None
    &&& s.config.webdav.host@ == "localhost"@
    &&& s.config.webdav.port == 8080
    &&& s.config.webdav.https == false
    &&& s.config.webdav.require_auth == false
    &&& s.config.webdav.username is None
    &&& s.config.webdav.password_hash is None
    &&& s.config.remote_path@ == Seq::<char>::empty()
    &&& s.config.cache is None
    &&& s.config.debug == Some(false)
    &&& s.config.auto_start is None
    &&& s.log_file@ == Seq::<char>::empty()
}

/// The default status returned whenever the worker cannot be reached or its
/// output cannot be parsed. Every field is concrete — downstream readers
/// never need null-checks beyond the documented optional fields.
pub fn default_status_response() -> (r: StatusResponse)
    ensures
        is_default_status(r),
{
    StatusResponse {
        server: ServerStatus { running: false, pid: None, url: None },
        auth: AuthStatus { logged_in: false, username: None },
        config: ConfigStatus {
            webdav: WebdavConfig {
                host: String::from_str("localhost"),
                port: 8080,
                https: false,
                require_auth: false,
                username: None,
                password_hash: None,
            },
            remote_path: String::new(),
            cache: None,
            debug: Some(false),
            auto_start: None,
        },
        log_file: String::new(),
    }
}

/// The JSON document inside the worker's combined output: everything from
/// the first `{` onward, when there is one. The worker's line-based logging
/// may precede the document, so the scan is deliberately permissive.
pub open spec fn json_payload(out: Seq<char>) -> Option<Seq<char>> {
    match find_first(out, '{') {
        Some(i) => Some(out.subrange(i, out.len() as int)),
        None => None,
    }
}

/// Extract the JSON document from the worker's mixed output.
pub fn extract_json_payload(out: &str) -> (r: Option<String>)
    ensures
        (r is Some) == (json_payload(out@) is Some),
        r matches Some(s) ==> json_payload(out@) == Some(s@),
{
    let len = out.unicode_len();
    match find_char(out, '{') {
        Some(i) => Some(out.substring_char(i, len).to_owned()),
        None => None,
    }
}

/// The value under `key` in the pairs at or after `i`, first match.
pub open spec fn lookup_pairs(ps: Seq<(String, JsonDoc)>, key: Seq<char>, i: int) -> Option<
    JsonDoc,
>
    decreases ps.len() - i,
{
    if i < 0 || i >= ps.len() {
        None
    } else if ps[i].0@ == key {
        Some(ps[i].1)
    } else {
        lookup_pairs(ps, key, i + 1)
    }
}

/// The value under `key` when the document is an object holding it.
pub open spec fn get_field(d: JsonDoc, key: Seq<char>) -> Option<JsonDoc> {
    match d {
        JsonDoc::Obj(ps) => lookup_pairs(ps@, key, 0),
        _ => None,
    }
}

/// A required boolean field: present and a boolean, or the read fails.
pub open spec fn req_bool_spec(d: JsonDoc, key: Seq<char>) -> Option<bool> {
    match get_field(d, key) {
        Some(JsonDoc::Bool(b)) => Some(b),
        _ => None,
    }
}

/// An optional boolean field: absent or null reads as nothing; a value of
/// the wrong type fails the read.
pub open spec fn opt_bool_spec(d: JsonDoc, key: Seq<char>) -> Option<Option<bool>> {
    match get_field(d, key) {
        None => Some(None),
        Some(JsonDoc::Null) => Some(None),
        Some(JsonDoc::Bool(b)) => Some(Some(b)),
        Some(_) => None,
    }
}

/// A required string field.
pub open spec fn req_str_spec(d: JsonDoc, key: Seq<char>) -> Option<String> {
    match get_field(d, key) {
        Some(JsonDoc::Str(s)) => Some(s),
        _ => None,
    }
}

/// An optional string field: absent or null reads as nothing.
pub open spec fn opt_str_spec(d: JsonDoc, key: Seq<char>) -> Option<Option<String>> {
    match get_field(d, key) {
        None => Some(None),
        Some(JsonDoc::Null) => Some(None),
        Some(JsonDoc::Str(s)) => Some(Some(s)),
        Some(_) => None,
    }
}

/// A required port number: an integer that fits in a `u16`.
pub open spec fn req_u16_spec(d: JsonDoc, key: Seq<char>) -> Option<u16> {
    match get_field(d, key) {
        Some(JsonDoc::Num(Some(n))) => if n <= 65535 {
            Some(n as u16)
        } else {
            None
        },
        _ => None,
    }
}

/// A required counter: an integer that fits in a `u32`.
pub open spec fn req_u32_spec(d: JsonDoc, key: Seq<char>) -> Option<u32> {
    match get_field(d, key) {
        Some(JsonDoc::Num(Some(n))) => if n <= 0xffff_ffff {
            Some(n as u32)
        } else {
            None
        },
        _ => None,
    }
}

/// An optional process id: absent or null reads as nothing; an integer must
/// fit in a `u32`.
pub open spec fn opt_u32_spec(d: JsonDoc, key: Seq<char>) -> Option<Option<u32>> {
    match get_field(d, key) {
        None => Some(None),
        Some(JsonDoc::Null) => Some(None),
        Some(JsonDoc::Num(Some(n))) => if n <= 0xffff_ffff {
            Some(Some(n as u32))
        } else {
            None
        },
        Some(_) => None,
    }
}

/// The `server` object of the document.
pub open spec fn server_spec(d: JsonDoc) -> Option<ServerStatus> {
    match get_field(d, "server"@) {
        Some(sv) => match req_bool_spec(sv, "running"@) {
            Some(running) => match opt_u32_spec(sv, "pid"@) {
                Some(pid) => match opt_str_spec(sv, "url"@) {
                    Some(url) => Some(ServerStatus { running, pid, url }),
                    None => None,
                },
                None => None,
            },
            None => None,
        },
        None => None,
    }
}

/// The `auth` object of the document.
pub open spec fn auth_spec(d: JsonDoc) -> Option<AuthStatus> {
    match get_field(d, "auth"@) {
        Some(av) => match req_bool_spec(av, "loggedIn"@) {
            Some(logged_in) => match opt_str_spec(av, "username"@) {
                Some(username) => Some(AuthStatus { logged_in, username }),
                None => None,
            },
            None => None,
        },
        None => None,
    }
}

/// The `webdav` object of the `config` object.
pub open spec fn webdav_spec(cfg: JsonDoc) -> Option<WebdavConfig> {
    match get_field(cfg, "webdav"@) {
        Some(w) => match req_str_spec(w, "host"@) {
            Some(host) => match req_u16_spec(w, "port"@) {
                Some(port) => match req_bool_spec(w, "https"@) {
                    Some(https) => match req_bool_spec(w, "requireAuth"@) {
                        Some(require_auth) => match opt_str_spec(w, "username"@) {
                            Some(username) => match opt_str_spec(w, "passwordHash"@) {
                                Some(password_hash) => Some(
                                    WebdavConfig {
                                        host,
                                        port,
                                        https,
                                        require_auth,
                                        username,
                                        password_hash,
                                    },
                                ),
                                None => None,
                            },
                            None => None,
                        },
                        None => None,
                    },
                    None => None,
                },
                None => None,
            },
            None => None,
        },
        None => None,
    }
}

/// The `cache` field of the `config` object: absent or null reads as no
/// cache settings; an object must hold all three counters.
pub open spec fn cache_spec(cfg: JsonDoc) -> Option<Option<CacheConfig>> {
    match get_field(cfg, "cache"@) {
        None => Some(None),
        Some(JsonDoc::Null) => Some(None),
        Some(c) => match req_bool_spec(c, "enabled"@) {
            Some(enabled) => match req_u32_spec(c, "ttlSeconds"@) {
                Some(ttl_seconds) => match req_u32_spec(c, "maxSizeMB"@) {
                    Some(max_size_mb) => Some(
                        Some(CacheConfig { enabled, ttl_seconds, max_size_mb }),
                    ),
                    None => None,
                },
                None => None,
            },
            None => None,
        },
    }
}

/// The `config` object of the document.
pub open spec fn config_spec(d: JsonDoc) -> Option<ConfigStatus> {
    match get_field(d, "config"@) {
        Some(cfg) => match webdav_spec(cfg) {
            Some(webdav) => match req_str_spec(cfg, "remotePath"@) {
                Some(remote_path) => match cache_spec(cfg) {
                    Some(cache) => match opt_bool_spec(cfg, "debug"@) {
                        Some(debug) => match opt_bool_spec(cfg, "autoStart"@) {
                            Some(auto_start) => Some(
                                ConfigStatus { webdav, remote_path, cache, debug, auto_start },
                            ),
                            None => None,
                        },
                        None => None,
                    },
                    None => None,
                },
                None => None,
            },
            None => None,
        },
        None => None,
    }
}

/// The whole wire schema: a missing or mistyped required field fails the
/// read; optional fields tolerate absence and `null` but not a wrong type.
pub open spec fn status_spec(d: JsonDoc) -> Option<StatusResponse> {
    match server_spec(d) {
        Some(server) => match auth_spec(d) {
            Some(auth) => match config_spec(d) {
                Some(config) => match req_str_spec(d, "logFile"@) {
                    Some(log_file) => Some(StatusResponse { server, auth, config, log_file }),
                    None => None,
                },
                None => None,
            },
            None => None,
        },
        None => None,
    }
}

/// The value under `key` when the document is an object holding it.
fn doc_get<'a>(d: &'a JsonDoc, key: &str) -> (r: Option<&'a JsonDoc>)
    ensures
        (r is Some) == (get_field(*d, key@) is Some),
        r matches Some(x) ==> get_field(*d, key@) == Some(*x),
{
    match d {
        JsonDoc::Obj(pairs) => {
            let n = pairs.len();
            let mut i: usize = 0;
            while i < n
                invariant
                    n == pairs@.len(),
                    0 <= i <= n,
                    get_field(*d, key@) == lookup_pairs(pairs@, key@, 0),
                    lookup_pairs(pairs@, key@, 0) == lookup_pairs(pairs@, key@, i as int),
                decreases n - i,
            {
                if str_eq(pairs[i].0.as_str(), key) {
                    return Some(&pairs[i].1);
                }
                i += 1;
            }
            None
        },
        _ => None,
    }
}

/// A required boolean field.
fn req_bool(d: &JsonDoc, key: &str) -> (r: Option<bool>)
    ensures
        r == req_bool_spec(*d, key@),
{
    match doc_get(d, key) {
        Some(JsonDoc::Bool(b)) => Some(*b),
        _ => None,
    }
}

/// An optional boolean field.
fn opt_bool(d: &JsonDoc, key: &str) -> (r: Option<Option<bool>>)
    ensures
        r == opt_bool_spec(*d, key@),
{
    match doc_get(d, key) {
        None => Some(None),
        Some(JsonDoc::Null) => Some(None),
        Some(JsonDoc::Bool(b)) => Some(Some(*b)),
        Some(_) => None,
    }
}

/// A required string field.
fn req_string(d: &JsonDoc, key: &str) -> (r: Option<String>)
    ensures
        r == req_str_spec(*d, key@),
{
    match doc_get(d, key) {
        Some(JsonDoc::Str(s)) => Some(s.clone()),
        _ => None,
    }
}

/// An optional string field.
fn opt_string(d: &JsonDoc, key: &str) -> (r: Option<Option<String>>)
    ensures
        r == opt_str_spec(*d, key@),
{
    match doc_get(d, key) {
        None => Some(None),
        Some(JsonDoc::Null) => Some(None),
        Some(JsonDoc::Str(s)) => Some(Some(s.clone())),
        Some(_) => None,
    }
}

/// A required port number.
fn req_u16(d: &JsonDoc, key: &str) -> (r: Option<u16>)
    ensures
        r == req_u16_spec(*d, key@),
{
    match doc_get(d, key) {
        Some(JsonDoc::Num(Some(n))) => {
            if *n <= 65535 {
                Some(*n as u16)
            } else {
                None
            }
        },
        _ => None,
    }
}

/// A required counter.
fn req_u32(d: &JsonDoc, key: &str) -> (r: Option<u32>)
    ensures
        r == req_u32_spec(*d, key@),
{
    match doc_get(d, key) {
        Some(JsonDoc::Num(Some(n))) => {
            if *n <= 0xffff_ffff {
                Some(*n as u32)
            } else {
                None
            }
        },
        _ => None,
    }
}

/// An optional process id.
fn opt_u32(d: &JsonDoc, key: &str) -> (r: Option<Option<u32>>)
    ensures
        r == opt_u32_spec(*d, key@),
{
    match doc_get(d, key) {
        None => Some(None),
        Some(JsonDoc::Null) => Some(None),
        Some(JsonDoc::Num(Some(n))) => {
            if *n <= 0xffff_ffff {
                Some(Some(*n as u32))
            } else {
                None
            }
        },
        Some(_) => None,
    }
}

/// Read the `server` object.
fn server_of_doc(d: &JsonDoc) -> (r: Option<ServerStatus>)
    ensures
        r == server_spec(*d),
{
    let sv = match doc_get(d, "server") {
        Some(x) => x,
        None => {
            return None;
        },
    };
    let running = match req_bool(sv, "running") {
        Some(b) => b,
        None => {
            return None;
        },
    };
    let pid = match opt_u32(sv, "pid") {
        Some(p) => p,
        None => {
            return None;
        },
    };
    let url = match opt_string(sv, "url") {
        Some(u) => u,
        None => {
            return None;
        },
    };
    Some(ServerStatus { running, pid, url })
}

/// Read the `auth` object.
fn auth_of_doc(d: &JsonDoc) -> (r: Option<AuthStatus>)
    ensures
        r == auth_spec(*d),
{
    let av = match doc_get(d, "auth") {
        Some(x) => x,
        None => {
            return None;
        },
    };
    let logged_in = match req_bool(av, "loggedIn") {
        Some(b) => b,
        None => {
            return None;
        },
    };
    let username = match opt_string(av, "username") {
        Some(u) => u,
        None => {
            return None;
        },
    };
    Some(AuthStatus { logged_in, username })
}

/// Read the `webdav` object of the `config` object.
fn webdav_of_doc(cfg: &JsonDoc) -> (r: Option<WebdavConfig>)
    ensures
        r == webdav_spec(*cfg),
{
    let w = match doc_get(cfg, "webdav") {
        Some(x) => x,
        None => {
            return None;
        },
    };
    let host = match req_string(w, "host") {
        Some(s) => s,
        None => {
            return None;
        },
    };
    let port = match req_u16(w, "port") {
        Some(p) => p,
        None => {
            return None;
        },
    };
    let https = match req_bool(w, "https") {
        Some(b) => b,
        None => {
            return None;
        },
    };
    let require_auth = match req_bool(w, "requireAuth") {
        Some(b) => b,
        None => {
            return None;
        },
    };
    let username = match opt_string(w, "username") {
        Some(u) => u,
        None => {
            return None;
        },
    };
    let password_hash = match opt_string(w, "passwordHash") {
        Some(u) => u,
        None => {
            return None;
        },
    };
    Some(WebdavConfig { host, port, https, require_auth, username, password_hash })
}

/// Read the `cache` field of the `config` object.
fn cache_of_doc(cfg: &JsonDoc) -> (r: Option<Option<CacheConfig>>)
    ensures
        r == cache_spec(*cfg),
{
    let c = match doc_get(cfg, "cache") {
        None => {
            return Some(None);
        },
        Some(x) => x,
    };
    if let JsonDoc::Null = c {
        return Some(None);
    }
    let enabled = match req_bool(c, "enabled") {
        Some(b) => b,
        None => {
            return None;
        },
    };
    let ttl_seconds = match req_u32(c, "ttlSeconds") {
        Some(n) => n,
        None => {
            return None;
        },
    };
    let max_size_mb = match req_u32(c, "maxSizeMB") {
        Some(n) => n,
        None => {
            return None;
        },
    };
    Some(Some(CacheConfig { enabled, ttl_seconds, max_size_mb }))
}

/// Read the `config` object.
fn config_of_doc(d: &JsonDoc) -> (r: Option<ConfigStatus>)
    ensures
        r == config_spec(*d),
{
    let cfg = match doc_get(d, "config") {
        Some(x) => x,
        None => {
            return None;
        },
    };
    let webdav = match webdav_of_doc(cfg) {
        Some(w) => w,
        None => {
            return None;
        },
    };
    let remote_path = match req_string(cfg, "remotePath") {
        Some(s) => s,
        None => {
            return None;
        },
    };
    let cache = match cache_of_doc(cfg) {
        Some(c) => c,
        None => {
            return None;
        },
    };
    let debug = match opt_bool(cfg, "debug") {
        Some(b) => b,
        None => {
            return None;
        },
    };
    let auto_start = match opt_bool(cfg, "autoStart") {
        Some(b) => b,
        None => {
            return None;
        },
    };
    Some(ConfigStatus { webdav, remote_path, cache, debug, auto_start })
}

/// Read the worker's status document according to the wire schema.
pub fn status_of_doc(d: &JsonDoc) -> (r: Option<StatusResponse>)
    ensures
        r == status_spec(*d),
{
    let server = match server_of_doc(d) {
        Some(s) => s,
        None => {
            return None;
        },
    };
    let auth = match auth_of_doc(d) {
        Some(a) => a,
        None => {
            return None;
        },
    };
    let config = match config_of_doc(d) {
        Some(c) => c,
        None => {
            return None;
        },
    };
    let log_file = match req_string(d, "logFile") {
        Some(s) => s,
        None => {
            return None;
        },
    };
    Some(StatusResponse { server, auth, config, log_file })
}

/// `s` with the supervisor's tracked PID filled in where the worker did not
/// report one; every other field is untouched.
pub open spec fn backfilled(s: StatusResponse, tracked_pid: Option<u32>) -> StatusResponse {
    StatusResponse {
        server: ServerStatus {
            running: s.server.running,
            pid: if s.server.pid is Some {
                s.server.pid
            } else {
                tracked_pid
            },
            url: s.server.url,
        },
        auth: s.auth,
        config: s.config,
        log_file: s.log_file,
    }
}

/// What one status query returns for the extracted payload `p`: the parsed
/// and schema-read status with the tracked PID backfilled, or the default
/// status when `p` is not a JSON document or does not fit the schema.
pub open spec fn query_result(
    p: Seq<char>,
    tracked_pid: Option<u32>,
    r: StatusResponse,
) -> bool {
    match json_of(p) {
        Some(d) => match status_spec(d) {
            Some(s) => r == backfilled(s, tracked_pid),
            None => is_default_status(r),
        },
        None => is_default_status(r),
    }
}

/// Resolve one status query from what the parse produced: a failed parse
/// degrades to the default status; a parsed status gets the supervisor's
/// tracked PID backfilled when the worker omitted its own.
pub fn reconcile_status(parsed: Option<StatusResponse>, tracked_pid: Option<u32>) -> (r:
    StatusResponse)
    ensures
        parsed is None ==> is_default_status(r),
        parsed matches Some(s) ==> r == backfilled(s, tracked_pid),
{
    match parsed {
        None => default_status_response(),
        Some(s) => {
            let mut s = s;
            if s.server.pid.is_none() {
                s.server.pid = tracked_pid;
            }
            s
        },
    }
}

/// The parsing phase of one status query: extract the JSON document from
/// the worker's mixed output, read it against the wire schema, degrade to
/// the default status when either step fails, and back-fill the tracked
/// PID when the worker did not report one.
pub fn parse_status(output: &str, tracked_pid: Option<u32>) -> (r: StatusResponse)
    ensures
        json_payload(output@) is None ==> is_default_status(r),
        json_payload(output@) matches Some(p) ==> query_result(p, tracked_pid, r),
{
    let parsed = match extract_json_payload(output) {
        None => None,
        Some(payload) => match parse_json_doc(payload.as_str()) {
            None => None,
            Some(d) => status_of_doc(&d),
        },
    };
    reconcile_status(parsed, tracked_pid)
}

} // verus!
