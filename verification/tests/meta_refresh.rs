use sharelink::resolve::extract_meta_refresh;

#[test]
fn test_basic() {
    let html = r#"<meta http-equiv="refresh" content="0;url=https://example.com">"#;
    let result = extract_meta_refresh(html);
    assert_eq!(result, Some("https://example.com".to_string()));
}

#[test]
fn test_with_delay() {
    let html = r#"<meta http-equiv="refresh" content="5;url=https://example.com/page">"#;
    let result = extract_meta_refresh(html);
    assert_eq!(result, Some("https://example.com/page".to_string()));
}

#[test]
fn test_single_quotes() {
    let html = r#"<meta http-equiv='refresh' content='0;url=https://example.com'>"#;
    let result = extract_meta_refresh(html);
    assert_eq!(result, Some("https://example.com".to_string()));
}

#[test]
fn test_no_quotes() {
    let html = r#"<meta http-equiv=refresh content=0;url=https://example.com>"#;
    let result = extract_meta_refresh(html);
    assert_eq!(result, Some("https://example.com".to_string()));
}

#[test]
fn test_uppercase() {
    let html = r#"<META HTTP-EQUIV="REFRESH" CONTENT="0;URL=https://example.com">"#;
    let result = extract_meta_refresh(html);
    assert_eq!(result, Some("https://example.com".to_string()));
}

#[test]
fn test_mixed_case() {
    let html = r#"<Meta Http-Equiv="Refresh" Content="0;Url=https://example.com">"#;
    let result = extract_meta_refresh(html);
    assert_eq!(result, Some("https://example.com".to_string()));
}

#[test]
fn test_in_full_html() {
    let html = r#"
        <!DOCTYPE html>
        <html>
        <head>
            <title>Redirect</title>
            <meta http-equiv="refresh" content="0;url=https://example.com">
        </head>
        <body>Redirecting...</body>
        </html>
    "#;
    let result = extract_meta_refresh(html);
    assert_eq!(result, Some("https://example.com".to_string()));
}

#[test]
fn test_no_meta_refresh() {
    let html = r#"<html><body>No redirect here</body></html>"#;
    let result = extract_meta_refresh(html);
    assert_eq!(result, None);
}

#[test]
fn test_meta_without_refresh() {
    let html = r#"<meta charset="utf-8">"#;
    let result = extract_meta_refresh(html);
    assert_eq!(result, None);
}

#[test]
fn test_without_url() {
    let html = r#"<meta http-equiv="refresh" content="5">"#;
    let result = extract_meta_refresh(html);
    assert_eq!(result, None);
}

#[test]
fn test_with_relative_url() {
    let html = r#"<meta http-equiv="refresh" content="0;url=/relative/path">"#;
    let result = extract_meta_refresh(html);
    assert_eq!(result, Some("/relative/path".to_string()));
}

#[test]
fn test_with_url_with_query_params() {
    let html = r#"<meta http-equiv="refresh" content="0;url=https://example.com?foo=bar&baz=qux">"#;
    let result = extract_meta_refresh(html);
    assert_eq!(result, Some("https://example.com?foo=bar&baz=qux".to_string()));
}

#[test]
fn test_empty_html() {
    let html = "";
    let result = extract_meta_refresh(html);
    assert_eq!(result, None);
}

#[test]
fn test_malformed_meta_tag() {
    let html = r#"<meta http-equiv="refresh" content=">"#;
    let result = extract_meta_refresh(html);
    assert_eq!(result, None);
}
