use dav_sidecar::jsonio::JsonDoc;
use dav_sidecar::status::default_status_response;
use dav_sidecar::status::status_of_doc;
use dav_sidecar::status::extract_json_payload;
use dav_sidecar::status::parse_status;
use dav_sidecar::status::reconcile_status;
use dav_sidecar::status::AuthStatus;
use dav_sidecar::status::CacheConfig;
use dav_sidecar::status::ConfigStatus;
use dav_sidecar::status::ServerStatus;
use dav_sidecar::status::StatusResponse;
use dav_sidecar::status::WebdavConfig;

/// A status snapshot as the worker would report it while serving.
fn create_test_status(running: bool, pid: Option<u32>) -> StatusResponse {
    StatusResponse {
        server: ServerStatus {
            running,
            pid,
            url: if running { Some(format!("http://localhost:8080")) } else { None },
        },
        auth: AuthStatus { logged_in: false, username: None },
        config: ConfigStatus {
            webdav: WebdavConfig {
                host: "127.0.0.1".to_string(),
                port: 8080,
                https: false,
                require_auth: false,
                username: None,
                password_hash: None,
            },
            remote_path: "/".to_string(),
            cache: Some(CacheConfig { enabled: true, ttl_seconds: 300, max_size_mb: 100 }),
            debug: Some(false),
            auto_start: Some(false),
        },
        log_file: "/tmp/test.log".to_string(),
    }
}

#[test]
fn test_create_test_status_fixture() {
    let status = create_test_status(true, Some(12345));

    assert!(status.server.running, "Test status should indicate running server");
    assert_eq!(status.server.pid, Some(12345), "Test status should contain correct PID");
    assert!(status.server.url.is_some(), "Running server should have URL");
}

#[test]
fn test_create_test_status_stopped() {
    let status = create_test_status(false, None);

    assert!(!status.server.running, "Test status should indicate stopped server");
    assert_eq!(status.server.pid, None, "Stopped server should have no PID");
    assert!(status.server.url.is_none(), "Stopped server should have no URL");
}

#[test]
fn test_extract_json_payload_skips_preamble() {
    let out = "some text\nmore text\n{\"a\":1}\n";
    assert_eq!(extract_json_payload(out), Some("{\"a\":1}\n".to_string()));
}

#[test]
fn test_extract_json_payload_none_without_brace() {
    assert_eq!(extract_json_payload("no json here"), None);
    assert_eq!(extract_json_payload(""), None);
}

#[test]
fn test_parse_status_extracts_trailing_json() {
    // The worker's line-based logging precedes the JSON document
    let mut out = String::new();
    out.push_str("starting up\n");
    out.push_str("listening\n");
    out.push_str("{\"server\":{\"running\":true,\"pid\":4242,\"url\":\"http://localhost:9000/\"},");
    out.push_str("\"auth\":{\"loggedIn\":true,\"username\":\"user@example.com\"},");
    out.push_str("\"config\":{\"webdav\":{\"host\":\"localhost\",\"port\":9000,\"https\":false,");
    out.push_str("\"requireAuth\":true,\"username\":\"dav\",\"passwordHash\":null},");
    out.push_str("\"remotePath\":\"/remote\",");
    out.push_str("\"cache\":{\"enabled\":true,\"ttlSeconds\":600,\"maxSizeMB\":250},");
    out.push_str("\"debug\":true,\"autoStart\":false},");
    out.push_str("\"logFile\":\"/var/log/bridge.log\"}\n");
    let out = out.as_str();
    let s = parse_status(out, None);
    assert!(s.server.running);
    assert_eq!(s.server.pid, Some(4242));
    assert_eq!(s.server.url, Some("http://localhost:9000/".to_string()));
    assert!(s.auth.logged_in);
    assert_eq!(s.auth.username, Some("user@example.com".to_string()));
    assert_eq!(s.config.webdav.host, "localhost");
    assert_eq!(s.config.webdav.port, 9000);
    assert!(!s.config.webdav.https);
    assert!(s.config.webdav.require_auth);
    assert_eq!(s.config.webdav.username, Some("dav".to_string()));
    assert_eq!(s.config.webdav.password_hash, None);
    assert_eq!(s.config.remote_path, "/remote");
    let cache = s.config.cache.expect("cache settings should be read");
    assert!(cache.enabled);
    assert_eq!(cache.ttl_seconds, 600);
    assert_eq!(cache.max_size_mb, 250);
    assert_eq!(s.config.debug, Some(true));
    assert_eq!(s.config.auto_start, Some(false));
    assert_eq!(s.log_file, "/var/log/bridge.log");
}

#[test]
fn test_parse_status_degrades_to_default() {
    // No JSON at all, or a malformed document: the default status, never an
    // error
    for out in ["", "plain text only", "{not json", "{\"server\":{}}"] {
        let s = parse_status(out, Some(99));
        assert!(!s.server.running);
        assert_eq!(s.server.pid, None);
        assert!(!s.auth.logged_in);
        assert_eq!(s.config.webdav.host, "localhost");
        assert_eq!(s.config.webdav.port, 8080);
    }
}

#[test]
fn test_parse_status_backfills_tracked_pid() {
    let mut out = String::new();
    out.push_str("{\"server\":{\"running\":true,\"pid\":null,\"url\":null},");
    out.push_str("\"auth\":{\"loggedIn\":false,\"username\":null},");
    out.push_str("\"config\":{\"webdav\":{\"host\":\"localhost\",\"port\":8080,\"https\":false,");
    out.push_str("\"requireAuth\":false,\"username\":null,\"passwordHash\":null},");
    out.push_str("\"remotePath\":\"\",\"cache\":null,\"debug\":null,\"autoStart\":null},");
    out.push_str("\"logFile\":\"\"}");
    let out = out.as_str();
    let s = parse_status(out, Some(1717));
    assert!(s.server.running);
    assert_eq!(s.server.pid, Some(1717), "the tracked PID is backfilled");
    assert_eq!(s.config.debug, None);
    assert_eq!(s.config.cache.is_some(), false);

    // A PID reported by the worker is kept
    let s = parse_status(&out.replace("\"pid\":null", "\"pid\":55"), Some(1717));
    assert_eq!(s.server.pid, Some(55));
}

#[test]
fn test_status_of_doc_rejects_incomplete_documents() {
    // A document missing any required section fails the whole read
    let doc = JsonDoc::Obj(vec![(
        "server".to_string(),
        JsonDoc::Obj(vec![("running".to_string(), JsonDoc::Bool(true))]),
    )]);
    assert!(status_of_doc(&doc).is_none());
    assert!(status_of_doc(&JsonDoc::Null).is_none());
    assert!(status_of_doc(&JsonDoc::Obj(Vec::new())).is_none());
}

#[test]
fn test_reconcile_status_default_and_backfill() {
    let r = reconcile_status(None, Some(7));
    assert!(!r.server.running);
    assert_eq!(r.server.pid, None);
    assert_eq!(r.config.webdav.port, 8080);

    let parsed = create_test_status(true, None);
    let r = reconcile_status(Some(parsed), Some(7));
    assert_eq!(r.server.pid, Some(7));
    assert!(r.server.running);
}

#[test]
fn test_default_status_response_fields() {
    let s = default_status_response();
    assert!(!s.server.running);
    assert_eq!(s.server.pid, None);
    assert_eq!(s.server.url, None);
    assert!(!s.auth.logged_in);
    assert_eq!(s.auth.username, None);
    assert_eq!(s.config.webdav.host, "localhost");
    assert_eq!(s.config.webdav.port, 8080);
    assert!(!s.config.webdav.https);
    assert!(!s.config.webdav.require_auth);
    assert_eq!(s.config.remote_path, "");
    assert!(s.config.cache.is_none());
    assert_eq!(s.config.debug, Some(false));
    assert_eq!(s.config.auto_start, None);
    assert_eq!(s.log_file, "");
}
