use dav_sidecar::locator::find_mount_by_uri;
use dav_sidecar::locator::locate;
use dav_sidecar::locator::extract_port_token;
use dav_sidecar::locator::MountLookup;

#[test]
fn test_find_mount_by_uri_found_and_unmountable() {
    // The OS adds trailing slashes to mount URIs
    let mounts = vec![
        ("dav://localhost:12345/".to_string(), true),
        ("dav://other:1/".to_string(), true),
    ];
    let res = find_mount_by_uri(&mounts, "dav://localhost:12345");
    assert_eq!(res, Some(true));
}

#[test]
fn test_find_mount_by_uri_found_but_not_unmountable() {
    let mounts = vec![("dav://localhost:12345/".to_string(), false)];
    let res = find_mount_by_uri(&mounts, "dav://localhost:12345");
    assert_eq!(res, Some(false));
}

#[test]
fn test_find_mount_by_uri_not_found() {
    let mounts = vec![("dav://other:1/".to_string(), true)];
    let res = find_mount_by_uri(&mounts, "dav://localhost:12345");
    assert_eq!(res, None);
}

#[test]
fn test_find_mount_by_uri_multiple_matches() {
    // When multiple matches exist, return the first
    let mounts = vec![("dav://a/".to_string(), false), ("dav://a/".to_string(), true)];
    let res = find_mount_by_uri(&mounts, "dav://a");
    assert_eq!(res, Some(false));
}

#[test]
fn test_find_mount_by_uri_with_trailing_slash() {
    // Both with and without trailing slash match
    let mounts = vec![("dav://localhost:12345/".to_string(), true)];
    let res1 = find_mount_by_uri(&mounts, "dav://localhost:12345");
    let res2 = find_mount_by_uri(&mounts, "dav://localhost:12345/");
    assert_eq!(res1, Some(true));
    assert_eq!(res2, Some(true));
}

#[test]
fn test_find_mount_by_uri_host_variants() {
    // The target may use "localhost" but the OS may report "127.0.0.1" or an
    // http scheme
    let mounts = vec![
        ("http://127.0.0.1:12345/".to_string(), true),
        ("dav://127.0.0.1:12345/".to_string(), true),
    ];
    let res = find_mount_by_uri(&mounts, "dav://localhost:12345");
    assert_eq!(res, Some(true));
}

#[test]
fn test_mount_uri_matching_with_port() {
    let mounts = vec![("dav://localhost:8080/".to_string(), true)];
    let result = find_mount_by_uri(&mounts, "dav://localhost:8080");

    assert_eq!(result, Some(true), "Mount should be found regardless of trailing slash");
}

#[test]
fn test_locate_exact_match_unmountable() {
    let mounts = vec![
        ("dav://localhost:12345/".to_string(), true),
        ("dav://other:1/".to_string(), true),
    ];
    assert_eq!(locate(&mounts, "dav://localhost:12345"), MountLookup::Unmountable);
}

#[test]
fn test_locate_exact_match_not_unmountable() {
    let mounts = vec![("dav://localhost:12345/".to_string(), false)];
    assert_eq!(locate(&mounts, "dav://localhost:12345"), MountLookup::NotUnmountable);
}

#[test]
fn test_locate_port_fallback() {
    let mounts = vec![("http://127.0.0.1:12345/".to_string(), true)];
    assert_eq!(locate(&mounts, "dav://localhost:12345"), MountLookup::Unmountable);
}

#[test]
fn test_locate_empty_table() {
    let mounts: Vec<(String, bool)> = Vec::new();
    assert_eq!(locate(&mounts, "dav://localhost:12345"), MountLookup::NotFound);
    assert_eq!(locate(&mounts, ""), MountLookup::NotFound);
    assert_eq!(locate(&mounts, "dav://x/"), MountLookup::NotFound);
}

#[test]
fn test_locate_exact_beats_port_fallback() {
    // The first exact match wins even when an earlier entry would match by
    // port
    let mounts = vec![
        ("http://127.0.0.1:9000/".to_string(), true),
        ("dav://localhost:9000/".to_string(), false),
    ];
    assert_eq!(locate(&mounts, "dav://localhost:9000"), MountLookup::NotUnmountable);
}

#[test]
fn test_extract_port_token_plain() {
    assert_eq!(extract_port_token("dav://localhost:12345"), Some(":12345".to_string()));
}

#[test]
fn test_extract_port_token_trailing_slash() {
    assert_eq!(extract_port_token("dav://localhost:12345/"), Some(":12345".to_string()));
}

#[test]
fn test_extract_port_token_no_digits() {
    assert_eq!(extract_port_token("dav://localhost:12a45"), None);
    assert_eq!(extract_port_token("no-colon-here"), None);
}
