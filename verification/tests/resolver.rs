use sharelink::resolve::advance;
use sharelink::resolve::extract_meta_refresh;
use sharelink::resolve::Advance;
use sharelink::resolve::ResolveError;

#[test]
fn extract_with_unterminated_quote() {
    let html = r#"<meta http-equiv="refresh" content="0;url=https://example.com/x>"#;
    let result = extract_meta_refresh(html);
    assert_eq!(result, Some("https://example.com/x".to_string()));
}

#[test]
fn extract_semicolon_without_url_token() {
    let html = r#"<meta http-equiv="refresh" content="5;nourl">"#;
    let result = extract_meta_refresh(html);
    assert_eq!(result, None);
}

#[test]
fn advance_done_without_refresh() {
    let r = advance(0, "https://example.com/landed", "<html><body>plain page</body></html>");
    assert_eq!(r.expect("step"), Advance::Done("https://example.com/landed".to_string()));
}

#[test]
fn advance_follows_absolute_target() {
    let body = r#"<meta http-equiv="refresh" content="0;url=https://example.com/next">"#;
    let r = advance(0, "https://example.com/start", body);
    assert_eq!(r.expect("step"), Advance::Next("https://example.com/next".to_string(), 1));
}

#[test]
fn advance_joins_relative_target() {
    let body = r#"<meta http-equiv="refresh" content="0;url=/relative/path">"#;
    let r = advance(2, "https://example.com/dir/page", body);
    assert_eq!(r.expect("step"), Advance::Next("https://example.com/relative/path".to_string(), 3));
}

#[test]
fn advance_join_failure_is_reported() {
    let body = r#"<meta http-equiv="refresh" content="0;url=/relative/path">"#;
    let r = advance(0, "not a base url", body);
    assert!(matches!(r, Err(ResolveError::Join(_))));
}

#[test]
fn redirect_chain_is_bounded() {
    let body = r#"<meta http-equiv="refresh" content="0;url=https://example.com/again">"#;
    let mut depth: u32 = 0;
    let mut fetches: u32 = 0;
    loop {
        fetches += 1;
        match advance(depth, "https://example.com/again", body) {
            Ok(Advance::Next(_, d)) => {
                depth = d;
            },
            Ok(Advance::Done(_)) => panic!("chain of redirects cannot finish"),
            Err(e) => {
                assert!(matches!(e, ResolveError::TooManyMetaRefreshRedirects));
                break;
            },
        }
        assert!(fetches < 100, "redirect chain was not cut off");
    }
    assert_eq!(fetches, 6);
}

#[test]
fn only_tagged_transport_errors_retry() {
    let retryable = ResolveError::Transport { retryable: true, message: "timed out".to_string() };
    let fatal = ResolveError::Transport { retryable: false, message: "bad tls".to_string() };
    assert!(retryable.is_retryable());
    assert!(!fatal.is_retryable());
    assert!(!ResolveError::TooManyMetaRefreshRedirects.is_retryable());
}

#[test]
fn too_many_redirects_message() {
    let e = ResolveError::TooManyMetaRefreshRedirects;
    assert_eq!(e.message(), "Too many meta refresh redirects".to_string());
}
