use pwitter::screen::{empty_message, loading_message, nouser_message, Feed, Screen};
use pwitter::tweet::{Tweet, TweetMessage};
use pwitter::user::User;

#[test]
fn new_tweet_has_no_replies() {
    let t = Tweet::new("127.0.0.1".to_string(), "hello".to_string());
    assert_eq!(t.posted_by, "127.0.0.1");
    assert_eq!(t.body, "hello");
    assert!(t.replies.is_empty());
}

#[test]
fn new_tweet_keeps_empty_strings() {
    let t = Tweet::new(String::new(), String::new());
    assert_eq!(t.posted_by, "");
    assert_eq!(t.body, "");
    assert!(t.replies.is_empty());
}

#[test]
fn tweet_row_shows_avatar_poster_and_body() {
    let t = Tweet::new("127.0.0.1".to_string(), "hello".to_string());
    let row = t.view();
    assert_eq!(row.avatar, "resources/wolf5.png");
    assert_eq!(row.avatar_size, 48);
    assert_eq!(row.poster, "127.0.0.1");
    assert_eq!(row.body, "hello");
    assert_eq!(row.reply, TweetMessage::ClickReply);
}

#[test]
fn tweet_row_is_the_same_each_time() {
    let t = Tweet::new("127.0.0.1".to_string(), "hello".to_string());
    assert_eq!(format!("{:?}", t.view()), format!("{:?}", t.view()));
}

#[test]
fn clone_copies_nested_replies() {
    let mut inner = Tweet::new("b".to_string(), "inner".to_string());
    inner.replies.push(Tweet::new("c".to_string(), "innermost".to_string()));
    let mut outer = Tweet::new("a".to_string(), "outer".to_string());
    outer.replies.push(inner);
    outer.replies.push(Tweet::new("d".to_string(), "sibling".to_string()));
    let copy = outer.clone();
    assert_eq!(copy.posted_by, "a");
    assert_eq!(copy.body, "outer");
    assert_eq!(copy.replies.len(), 2);
    assert_eq!(copy.replies[0].body, "inner");
    assert_eq!(copy.replies[0].replies.len(), 1);
    assert_eq!(copy.replies[0].replies[0].body, "innermost");
    assert_eq!(copy.replies[0].replies[0].posted_by, "c");
    assert_eq!(copy.replies[1].body, "sibling");
    assert_eq!(format!("{:?}", copy), format!("{:?}", outer));
}

#[test]
fn user_keeps_its_address() {
    let u = User::new("127.0.0.1".to_string());
    assert_eq!(u.addr, "127.0.0.1");
    assert_eq!(u.clone().addr, "127.0.0.1");
}

#[test]
fn notices_carry_their_text() {
    match loading_message() {
        Screen::Loading(text) => assert_eq!(text, "Loading…"),
        other => panic!("unexpected: {:?}", other),
    }
    match nouser_message() {
        Screen::NoUser(text) => assert_eq!(text, "No User Info"),
        other => panic!("unexpected: {:?}", other),
    }
}

#[test]
fn empty_message_carries_the_given_text() {
    match empty_message("nothing here") {
        Feed::Empty(text) => assert_eq!(text, "nothing here"),
        other => panic!("unexpected: {:?}", other),
    }
}
