use sharelink::clean::clean_url;
use sharelink::clean::CleanUrlError;
use sharelink::facebook::FacebookCleaner;
use sharelink::generic::GenericCleaner;
use sharelink::instagram::InstagramCleaner;
use sharelink::reddit::RedditCleaner;
use sharelink::url_value::query_get;
use sharelink::url_value::UrlParts;

fn parts(
    host: &str,
    segments: Option<&[&str]>,
    query: &[(&str, &str)],
) -> UrlParts {
    UrlParts {
        scheme: "https".to_string(),
        authority: host.to_string(),
        host: Some(host.to_string()),
        segments: segments.map(|s| s.iter().map(|x| x.to_string()).collect()),
        query: query.iter().map(|(k, v)| (k.to_string(), v.to_string())).collect(),
    }
}

#[test]
fn path_segments_error_is_a_handled_case() {
    let mut p = parts("www.reddit.com", None, &[]);
    assert!(matches!(RedditCleaner.clean(&mut p), Err(CleanUrlError::PathSegmentsError)));
    let mut p = parts("www.facebook.com", None, &[]);
    assert!(matches!(FacebookCleaner.clean(&mut p), Err(CleanUrlError::PathSegmentsError)));
    let mut p = parts("www.instagram.com", None, &[]);
    assert!(matches!(GenericCleaner.clean(&mut p), Err(CleanUrlError::PathSegmentsError)));
    let mut p = parts("www.instagram.com", None, &[]);
    assert!(matches!(InstagramCleaner.clean(&mut p), Err(CleanUrlError::PathSegmentsError)));
}

#[test]
fn generic_cleaner_strips_tracking() {
    let mut p = parts("www.instagram.com", Some(&["p", "DS8F57NjS_S", ""]), &[("igsh", "abc")]);
    assert!(GenericCleaner.clean(&mut p).is_ok());
    assert_eq!(p.segments, Some(vec!["p".to_string(), "DS8F57NjS_S".to_string()]));
    assert!(p.query.is_empty());
}

#[test]
fn instagram_cleaner_strips_tracking() {
    let mut p = parts(
        "www.instagram.com",
        Some(&["p", "DS8F57NjS_S"]),
        &[("igsh", "MWxidXNpbWV6djIxcQ==")],
    );
    assert!(InstagramCleaner.clean(&mut p).is_ok());
    assert_eq!(p.segments, Some(vec!["p".to_string(), "DS8F57NjS_S".to_string()]));
    assert!(p.query.is_empty());
}

#[test]
fn reddit_cleaner_rejects_other_hosts() {
    let mut p = parts("example.com", Some(&["r", "x", "comments", "y"]), &[]);
    assert!(matches!(RedditCleaner.clean(&mut p), Err(CleanUrlError::UnsupportedUrlHost)));
    let mut p = parts("", Some(&["r", "x", "comments", "y"]), &[]);
    assert!(matches!(RedditCleaner.clean(&mut p), Err(CleanUrlError::UnknownDomain)));
}

#[test]
fn query_lookup_takes_the_last_pair() {
    let p = parts("www.facebook.com", Some(&["photo.php"]), &[("fbid", "1"), ("fbid", "2")]);
    assert_eq!(query_get(&p.query, &"fbid".to_string()), Some("2".to_string()));
    assert_eq!(query_get(&p.query, &"absent".to_string()), None);
}

#[test]
fn facebook_photo_keeps_last_fbid() {
    let mut p = parts(
        "www.facebook.com",
        Some(&["photo.php"]),
        &[("set", "a.1"), ("fbid", "1"), ("fbid", "2"), ("type", "3")],
    );
    assert!(FacebookCleaner.clean(&mut p).is_ok());
    assert_eq!(p.query, vec![("fbid".to_string(), "2".to_string())]);
}

#[test]
fn end_to_end_reddit_slug() {
    let url = "https://www.reddit.com/r/AskTheWorld/comments/1q2rw7m/some_slug/?utm_source=share";
    let result = clean_url(url);
    assert_eq!(result.expect("cleaned"), "https://www.reddit.com/r/AskTheWorld/comments/1q2rw7m");
}

#[test]
fn end_to_end_facebook_comment() {
    let url = "https://www.facebook.com/groups/vicdeals/permalink/25654608820855518/?comment_id=25654673274182406&rdid=XYZ";
    let result = clean_url(url);
    assert_eq!(
        result.expect("cleaned"),
        "https://www.facebook.com/groups/vicdeals/permalink/25654608820855518?comment_id=25654673274182406"
    );
}

#[test]
fn facebook_reattached_values_are_form_encoded() {
    // The captured value is decoded ("a b") and re-attached form-encoded,
    // so the percent escape comes back as a plus.
    let url = "https://www.facebook.com/photo.php?fbid=a%20b";
    let result = clean_url(url);
    assert_eq!(result.expect("cleaned"), "https://www.facebook.com/photo.php?fbid=a+b");
}

#[test]
fn error_messages_name_the_failure() {
    assert_eq!(CleanUrlError::UnknownDomain.message(), "unknown domain".to_string());
    assert_eq!(CleanUrlError::UnsupportedUrlPath.message(), "unsupported URL path".to_string());
}

#[test]
fn subdomains_classify_to_the_registrable_domain() {
    let url = "https://old.reddit.com/r/AskTheWorld/comments/1q2rw7m";
    assert_eq!(clean_url(url).expect("cleaned"), url);
}
