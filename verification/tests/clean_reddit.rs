use sharelink::clean::clean_url;

#[test]
fn clean_test_trivial() {
    let url = "https://www.reddit.com/r/AskTheWorld/comments/1q2rw7m";
    let result = clean_url(url);
    assert!(result.is_ok());
    assert_eq!(url, result.expect("gcleaned"));
}

#[test]
fn clean_test_basic() {
    let url = "https://www.reddit.com/r/AskTheWorld/comments/1q2rw7m/what_comes_to_mind_when_you_think_of_new_zealand/?share_id=l2suzjz-JpaaqZSjbaNmt&utm_content=1&utm_medium=ios_app&utm_name=ioscss&utm_source=share&utm_term=1";
    let result = clean_url(url);
    assert!(result.is_ok());
    let expected = "https://www.reddit.com/r/AskTheWorld/comments/1q2rw7m";
    assert_eq!(expected, result.expect("cleaned"))
}

#[test]
fn clean_comment_test_trivial() {
    let url = "https://www.reddit.com/r/AskTheWorld/comments/1q2rw7m/comment/nxfc5ci";
    let result = clean_url(url);
    assert!(result.is_ok());
    assert_eq!(url, result.expect("cleaned"));
}

#[test]
fn clean_comment_test_basic() {
    let url = "https://www.reddit.com/r/AskTheWorld/comments/1q2rw7m/comment/nxfc5ci/?context=3&share_id=8ws3zlfg6lxtYbyGrudio&utm_content=1&utm_medium=ios_app&utm_name=ioscss&utm_source=share&utm_term=1";
    let result = clean_url(url);
    assert!(result.is_ok());
    let expected = "https://www.reddit.com/r/AskTheWorld/comments/1q2rw7m/comment/nxfc5ci";
    assert_eq!(expected, result.expect("cleaned"))
}

#[test]
fn mod_test_identity() {
    let url = "https://www.reddit.com/r/AskTheWorld/comments/1q2rw7m";
    let result = clean_url(url);
    assert!(result.is_ok());
    assert_eq!(url, result.expect("gcleaned"));
}

#[test]
fn mod_test_basic() {
    let url = "https://www.reddit.com/r/AskTheWorld/comments/1q2rw7m/what_comes_to_mind_when_you_think_of_new_zealand/?share_id=l2suzjz-JpaaqZSjbaNmt&utm_content=1&utm_medium=ios_app&utm_name=ioscss&utm_source=share&utm_term=1";
    let result = clean_url(url);
    assert!(result.is_ok());
    let expected = "https://www.reddit.com/r/AskTheWorld/comments/1q2rw7m";
    assert_eq!(expected, result.expect("cleaned"))
}

#[test]
fn mod_comment_test_identity() {
    let url = "https://www.reddit.com/r/AskTheWorld/comments/1q2rw7m/comment/nxfc5ci";
    let result = clean_url(url);
    assert!(result.is_ok());
    assert_eq!(url, result.expect("cleaned"));
}

#[test]
fn mod_comment_test_basic() {
    let url = "https://www.reddit.com/r/AskTheWorld/comments/1q2rw7m/comment/nxfc5ci/?context=3&share_id=8ws3zlfg6lxtYbyGrudio&utm_content=1&utm_medium=ios_app&utm_name=ioscss&utm_source=share&utm_term=1";
    let result = clean_url(url);
    assert!(result.is_ok());
    let expected = "https://www.reddit.com/r/AskTheWorld/comments/1q2rw7m/comment/nxfc5ci";
    assert_eq!(expected, result.expect("cleaned"))
}
