use htfs::{classify_path, is_http_url, Backend, Buffering, OpenError, OpenOptions};

#[test]
fn http_scheme_selects_the_remote_backend() {
    assert!(matches!(
        classify_path("http://example.com/data"),
        Ok(Backend::Http(_))
    ));
    assert!(matches!(
        classify_path("https://example.com/a/b?q=1"),
        Ok(Backend::Http(_))
    ));
}

#[test]
fn other_paths_select_the_local_backend() {
    assert!(matches!(classify_path("/tmp/data.bin"), Ok(Backend::Local)));
    assert!(matches!(classify_path("relative/path"), Ok(Backend::Local)));
    assert!(matches!(classify_path(""), Ok(Backend::Local)));
    // Only the exact scheme prefixes count.
    assert!(matches!(classify_path("httpfoo"), Ok(Backend::Local)));
    assert!(matches!(classify_path("HTTP://x"), Ok(Backend::Local)));
}

#[test]
fn malformed_url_fails_the_open_attempt() {
    assert!(matches!(
        classify_path("http://["),
        Err(OpenError::MalformedUrl(_))
    ));
    assert!(matches!(
        classify_path("http://exa mple.com/"),
        Err(OpenError::MalformedUrl(_))
    ));
}

#[test]
fn scheme_check_is_exact() {
    assert!(is_http_url("http:"));
    assert!(is_http_url("https:"));
    assert!(is_http_url("http://x"));
    assert!(!is_http_url("http"));
    assert!(!is_http_url("https"));
    assert!(!is_http_url(""));
    assert!(!is_http_url("ftp://x"));
    assert!(!is_http_url("Https://x"));
}

#[test]
fn defaults_are_buffered_with_no_http_options() {
    assert_eq!(Buffering::default(), Buffering::Buffered);
    let o = OpenOptions::default();
    assert!(o.http.is_none());
    assert!(matches!(o.buffering, Buffering::Buffered));
}
