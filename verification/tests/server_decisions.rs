use vllm_report::server::{
    guess_content_type, path_within_root, resolve_request_path, response_status,
    urlencoding_decode, SERVE_PORT_RANGE_END, SERVE_PORT_RANGE_START,
};

#[test]
fn url_decoding_handles_escapes() {
    assert_eq!(urlencoding_decode("a%20b"), "a b");
    assert_eq!(urlencoding_decode("a+b"), "a b");
    assert_eq!(urlencoding_decode("%2Fetc%2fpasswd"), "/etc/passwd");
    assert_eq!(urlencoding_decode("plain"), "plain");
    assert_eq!(urlencoding_decode(""), "");
}

#[test]
fn url_decoding_reads_bytes_as_characters() {
    // Each escape is one byte, pushed as the character of that code
    // point; a multi-byte UTF-8 escape sequence therefore decodes to
    // one character per byte.
    assert_eq!(urlencoding_decode("%C3%A9"), "\u{c3}\u{a9}");
    // The escape body goes through the same integer parser as any
    // number, so a leading plus before a single digit is accepted.
    assert_eq!(urlencoding_decode("%+a"), "\n");
    assert_eq!(urlencoding_decode("%2b"), "+");
}

#[test]
fn url_decoding_copies_bad_escapes() {
    assert_eq!(urlencoding_decode("%zz"), "%zz");
    assert_eq!(urlencoding_decode("%4"), "%4");
    assert_eq!(urlencoding_decode("%"), "%");
    assert_eq!(urlencoding_decode("100%"), "100%");
}

#[test]
fn content_type_table() {
    assert_eq!(guess_content_type("out/index.html"), "text/html; charset=utf-8");
    assert_eq!(guess_content_type("out/INDEX.HTM"), "text/html; charset=utf-8");
    assert_eq!(guess_content_type("s.css"), "text/css; charset=utf-8");
    assert_eq!(guess_content_type("s.js"), "application/javascript; charset=utf-8");
    assert_eq!(guess_content_type("d.json"), "application/json; charset=utf-8");
    assert_eq!(guess_content_type("p.png"), "image/png");
    assert_eq!(guess_content_type("p.jpg"), "image/jpeg");
    assert_eq!(guess_content_type("p.JPEG"), "image/jpeg");
    assert_eq!(guess_content_type("p.gif"), "image/gif");
    assert_eq!(guess_content_type("p.svg"), "image/svg+xml");
    assert_eq!(guess_content_type("t.txt"), "text/plain; charset=utf-8");
    assert_eq!(guess_content_type("t.py"), "text/x-python; charset=utf-8");
    assert_eq!(guess_content_type("archive.tar.unknown"), "application/octet-stream");
    assert_eq!(guess_content_type("noextension"), "application/octet-stream");
    assert_eq!(guess_content_type("dir/.bashrc"), "application/octet-stream");
}

#[test]
fn request_paths_join_onto_root() {
    assert_eq!(resolve_request_path("/srv/out", ""), "/srv/out/index.html");
    assert_eq!(resolve_request_path("/srv/out", "/"), "/srv/out/index.html");
    assert_eq!(resolve_request_path("/srv/out", "/foo/bar.css"), "/srv/out/foo/bar.css");
    assert_eq!(resolve_request_path("/srv/out", "/a%20b.txt"), "/srv/out/a b.txt");
    // An escape that decodes to an absolute path replaces the root, as
    // path join does; only the sandbox check keeps it from being served.
    assert_eq!(resolve_request_path("/srv/out", "/%2Fetc%2Fpasswd"), "/etc/passwd");
}

#[test]
fn traversal_outside_root_is_not_found() {
    // The canonicalized escape target exists and is readable, and the
    // answer is still 404.
    let escaped = "/etc/passwd";
    let root = "/srv/out";
    assert!(!path_within_root(escaped, root));
    assert_eq!(response_status(path_within_root(escaped, root), true, true), 404);
}

#[test]
fn sandbox_check_is_component_wise() {
    assert!(path_within_root("/srv/out", "/srv/out"));
    assert!(path_within_root("/srv/out/index.html", "/srv/out"));
    assert!(path_within_root("/srv/out/sub/f.txt", "/srv/out"));
    assert!(!path_within_root("/srv/outside/f.txt", "/srv/out"));
    assert!(!path_within_root("/srv", "/srv/out"));
    assert!(path_within_root("/anything", "/"));
}

#[test]
fn response_status_matrix() {
    assert_eq!(response_status(true, true, true), 200);
    assert_eq!(response_status(true, true, false), 500);
    assert_eq!(response_status(true, false, true), 404);
    assert_eq!(response_status(false, false, false), 404);
}

#[test]
fn port_scan_range_is_fixed() {
    assert_eq!(SERVE_PORT_RANGE_START, 8000);
    assert_eq!(SERVE_PORT_RANGE_END, 8100);
    assert!(SERVE_PORT_RANGE_START < SERVE_PORT_RANGE_END);
}
