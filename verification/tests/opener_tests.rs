use std::cell::RefCell;
use std::rc::Rc;

use dav_sidecar::errors::CommandError;
use dav_sidecar::opener::choose_open_uri;
use dav_sidecar::opener::open_uri_with;
use dav_sidecar::opener::should_open_with_path;
use dav_sidecar::opener::strip_prefix_rep_str;

#[test]
fn test_should_open_with_path() {
    assert!(should_open_with_path("/some/path"));
    assert!(should_open_with_path("file:///some/path"));
    assert!(should_open_with_path("dav://localhost:12345"));
    assert!(!should_open_with_path("http://example.com"));
}

#[test]
fn test_open_uri_with_callbacks_uses_open_path_for_dav() {
    let recorded = Rc::new(RefCell::new(Vec::new()));
    let recorded_path = recorded.clone();
    let open_path = move |p: &str| {
        recorded_path.borrow_mut().push(format!("path:{}", p));
        Ok(())
    };
    let open_url = |_u: &str| {
        recorded.borrow_mut().push("url_called".to_string());
        Err(CommandError::IoError("should not be called".to_string()))
    };

    open_uri_with("dav://localhost:12345", open_path, open_url).unwrap();
    let v = recorded.borrow();
    assert_eq!(v.len(), 1);
    assert_eq!(v[0], "path:dav://localhost:12345");
}

#[test]
fn test_open_uri_with_callbacks_uses_open_url_for_http() {
    let recorded = Rc::new(RefCell::new(Vec::new()));
    let recorded_url = recorded.clone();
    let open_path = |_p: &str| {
        recorded.borrow_mut().push("path_called".to_string());
        Err(CommandError::IoError("should not be called".to_string()))
    };
    let open_url = move |u: &str| {
        recorded_url.borrow_mut().push(format!("url:{}", u));
        Ok(())
    };

    open_uri_with("http://example.com", open_path, open_url).unwrap();
    let v = recorded.borrow();
    assert_eq!(v.len(), 1);
    assert_eq!(v[0], "url:http://example.com");
}

#[test]
fn test_open_uri_with_strips_file_scheme() {
    let recorded = Rc::new(RefCell::new(Vec::new()));
    let recorded_path = recorded.clone();
    let open_path = move |p: &str| {
        recorded_path.borrow_mut().push(format!("path:{}", p));
        Ok(())
    };
    let open_url = |_u: &str| Err(CommandError::IoError("should not be called".to_string()));

    open_uri_with("file:///some/path", open_path, open_url).unwrap();
    let v = recorded.borrow();
    assert_eq!(v.len(), 1);
    assert_eq!(v[0], "path:/some/path");
}

#[test]
fn test_choose_open_uri_prefers_converted_dav_for_http_server_url() {
    let server_url = Some("http://127.0.0.1:8080/".to_string());
    let uri = choose_open_uri(&server_url, 8080);
    assert_eq!(uri, "dav://127.0.0.1:8080");
}

#[test]
fn test_choose_open_uri_keeps_dav_url() {
    let server_url = Some("dav://myhost:9999/".to_string());
    assert_eq!(choose_open_uri(&server_url, 8080), "dav://myhost:9999/");
}

#[test]
fn test_choose_open_uri_falls_back_to_config_port() {
    assert_eq!(choose_open_uri(&None, 7777), "dav://localhost:7777");
    let odd = Some("ftp://weird".to_string());
    assert_eq!(choose_open_uri(&odd, 7777), "dav://localhost:7777");
    let no_authority = Some("http://".to_string());
    assert_eq!(choose_open_uri(&no_authority, 7777), "dav://localhost:7777");
}

#[test]
fn test_strip_prefix_rep_removes_scheme() {
    assert_eq!(strip_prefix_rep_str("file:///a/b", "file://"), "/a/b");
    assert_eq!(strip_prefix_rep_str("/a/b", "file://"), "/a/b");
    assert_eq!(strip_prefix_rep_str("file://file:///x", "file://"), "/x");
}
