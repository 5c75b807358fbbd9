use sharelink::clean::clean_url;

#[test]
fn fb_posts_test_identity() {
    let url = "https://www.facebook.com/MoreFMWellington/posts/pfbid0vdnCZ6brToAep5XKfrM7FJBuMcuzsg64y896v4Ce2DJefNKGqe8mYhiJvAZwA5SGl";
    let result = clean_url(url);
    assert!(result.is_ok());
    assert_eq!(url, result.expect("cleaned"));
}

#[test]
fn fb_posts_test_basic_with_referrer() {
    let url = "https://www.facebook.com/rnznewzealand/posts/pfbid0jYRXtR6dGzJeAgLzpYA2ovWwuqtcVRnCMt5TWRmjcwDBPV4yBcNYLr1nwKhKupiPl?rdid=yhfTkLFfmiUYezxF";
    let result = clean_url(url);
    assert!(result.is_ok());
    let expected = "https://www.facebook.com/rnznewzealand/posts/pfbid0jYRXtR6dGzJeAgLzpYA2ovWwuqtcVRnCMt5TWRmjcwDBPV4yBcNYLr1nwKhKupiPl";
    assert_eq!(expected, result.expect("cleaned"));
}

#[test]
fn fb_story_test_identity() {
    let url = "https://www.facebook.com/permalink.php?story_fbid=pfbid02mNMcJYekXP4bnUFkWguBsNddw6GkLHrWZG4ENa23x2h3G2SbbMeJRHByXuxhjKj1l&id=100088004222911";
    let result = clean_url(url);
    assert!(result.is_ok());
    assert_eq!(url, result.expect("cleaned"));
}

#[test]
fn fb_story_test_basic_with_referrer() {
    let url = "https://www.facebook.com/permalink.php?story_fbid=pfbid02mNMcJYekXP4bnUFkWguBsNddw6GkLHrWZG4ENa23x2h3G2SbbMeJRHByXuxhjKj1l&id=100088004222911&rdid=b6vSMONURZk2MmX5";
    let result = clean_url(url);
    assert!(result.is_ok());
    let expected = "https://www.facebook.com/permalink.php?story_fbid=pfbid02mNMcJYekXP4bnUFkWguBsNddw6GkLHrWZG4ENa23x2h3G2SbbMeJRHByXuxhjKj1l&id=100088004222911";
    assert_eq!(expected, result.expect("cleaned"));
}

#[test]
fn fb_reels_test_identity() {
    let url = "https://www.facebook.com/reel/1309748351194528";
    let result = clean_url(url);
    assert!(result.is_ok());
    assert_eq!(url, result.expect("cleaned"));
}

#[test]
fn fb_reels_test_basic_with_referrer() {
    let url = "https://www.facebook.com/reel/1605919000854039/?rdid=VxhE0u0GlwyGLnFD&share_url=https%3A%2F%2Fwww.facebook.com%2Fshare%2Fr%2F1AZhvx3n72%2F";
    let result = clean_url(url);
    assert!(result.is_ok());
    let expected = "https://www.facebook.com/reel/1605919000854039";
    assert_eq!(expected, result.expect("cleaned"));
}

#[test]
fn fb_comments_test_identity() {
    let url = "https://www.facebook.com/groups/vicdeals/permalink/25654608820855518";
    let result = clean_url(url);
    assert!(result.is_ok());
    assert_eq!(url, result.expect("cleaned"));
}

#[test]
fn test_identity_with_comment() {
    let url = "https://www.facebook.com/groups/vicdeals/permalink/25654608820855518?comment_id=25654673274182406";
    let result = clean_url(url);
    assert!(result.is_ok());
    assert_eq!(url, result.expect("cleaned"));
}

#[test]
fn fb_comments_test_basic_with_referrer() {
    let url = "https://www.facebook.com/groups/vicdeals/permalink/25654608820855518/?rdid=9etJN9mXDU45vGPw";
    let result = clean_url(url);
    assert!(result.is_ok());
    let expected = "https://www.facebook.com/groups/vicdeals/permalink/25654608820855518";
    assert_eq!(expected, result.expect("cleaned"));
}

#[test]
fn test_with_comment_and_referrer() {
    let url = "https://www.facebook.com/groups/vicdeals/permalink/25654608820855518/?comment_id=25654673274182406&rdid=9etJN9mXDU45vGPw";
    let result = clean_url(url);
    assert!(result.is_ok());
    let expected = "https://www.facebook.com/groups/vicdeals/permalink/25654608820855518?comment_id=25654673274182406";
    assert_eq!(expected, result.expect("cleaned"));
}

#[test]
fn fb_photos_test_identity() {
    let url = "https://www.facebook.com/photo.php?fbid=1279617124197361";
    let result = clean_url(url);
    assert!(result.is_ok());
    assert_eq!(url, result.expect("cleaned"));
}

#[test]
fn test_basic_with_query_params() {
    let url = "https://www.facebook.com/photo.php?fbid=1279617124197361&set=a.301086902050393&type=3";
    let result = clean_url(url);
    assert!(result.is_ok());
    let expected = "https://www.facebook.com/photo.php?fbid=1279617124197361";
    assert_eq!(expected, result.expect("cleaned"));
}
