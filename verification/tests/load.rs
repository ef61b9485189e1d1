use pwitter::load::{FileRead, LoadError, SavedState};
use pwitter::state::{Message, Pwitter};
use pwitter::tweet::Tweet;
use pwitter::user::User;

fn user(addr: &str) -> User {
    User::new(addr.to_string())
}

fn nested() -> Vec<Tweet> {
    let mut first = Tweet::new("10.0.0.1".to_string(), "first".to_string());
    first.replies.push(Tweet::new("10.0.0.2".to_string(), "a reply".to_string()));
    let second = Tweet::new("10.0.0.3".to_string(), "second".to_string());
    vec![first, second]
}

fn loaded(app: &Pwitter) -> &pwitter::state::State {
    match app {
        Pwitter::Loaded(state) => state,
        Pwitter::Loading => panic!("still loading"),
    }
}

#[test]
fn file_names_are_fixed() {
    assert_eq!(SavedState::path_to_me(), "me.json");
    assert_eq!(SavedState::path_to_tweets(), "tweets.json");
}

#[test]
fn load_me_returns_the_parsed_profile() {
    let me = SavedState::load_me(FileRead::Parsed(user("127.0.0.1"))).unwrap();
    assert_eq!(me.addr, "127.0.0.1");
}

#[test]
fn load_me_unreadable_is_user_not_found() {
    let r = SavedState::load_me(FileRead::Unreadable);
    assert!(matches!(r, Err(LoadError::UserNotFound)));
}

#[test]
fn load_me_malformed_is_format_user() {
    match SavedState::load_me(FileRead::Malformed) {
        Err(LoadError::Format(context)) => assert_eq!(context, "user"),
        other => panic!("unexpected: {:?}", other),
    }
}

#[test]
fn load_tweets_returns_the_parsed_list_in_order() {
    let tweets = SavedState::load_tweets(FileRead::Parsed(nested())).unwrap();
    assert_eq!(tweets.len(), 2);
    assert_eq!(tweets[0].body, "first");
    assert_eq!(tweets[0].replies.len(), 1);
    assert_eq!(tweets[0].replies[0].body, "a reply");
    assert_eq!(tweets[1].body, "second");
}

#[test]
fn load_tweets_unreadable_is_tweets_file_not_found() {
    let r = SavedState::load_tweets(FileRead::Unreadable);
    assert!(matches!(r, Err(LoadError::TweetsFileNotFound)));
}

#[test]
fn load_tweets_malformed_is_format_tweets() {
    match SavedState::load_tweets(FileRead::Malformed) {
        Err(LoadError::Format(context)) => assert_eq!(context, "tweets"),
        other => panic!("unexpected: {:?}", other),
    }
}

#[test]
fn load_joins_profile_and_tweets() {
    let saved = SavedState::load(user("127.0.0.1"), FileRead::Parsed(nested())).unwrap();
    assert_eq!(saved.me.addr, "127.0.0.1");
    assert_eq!(saved.tweets.len(), 2);
    assert_eq!(saved.tweets[1].posted_by, "10.0.0.3");
}

#[test]
fn load_without_tweets_file_fails() {
    let r = SavedState::load(user("127.0.0.1"), FileRead::Unreadable);
    assert!(matches!(r, Err(LoadError::TweetsFileNotFound)));
}

#[test]
fn load_with_malformed_tweets_fails() {
    match SavedState::load(user("127.0.0.1"), FileRead::Malformed) {
        Err(LoadError::Format(context)) => assert_eq!(context, "tweets"),
        other => panic!("unexpected: {:?}", other),
    }
}

#[test]
fn load_success_fills_the_session() {
    let me = SavedState::load_me(FileRead::Parsed(user("127.0.0.1"))).unwrap();
    let saved = SavedState::load(me, FileRead::Parsed(nested()));
    let (mut app, _) = Pwitter::new();
    app.update(Message::LoadCompleted(saved));
    let state = loaded(&app);
    assert_eq!(state.me.as_ref().unwrap().addr, "127.0.0.1");
    assert_eq!(state.tweets.len(), 2);
    assert_eq!(state.tweets[0].body, "first");
    assert_eq!(state.tweets[0].posted_by, "10.0.0.1");
    assert_eq!(state.tweets[0].replies[0].posted_by, "10.0.0.2");
    assert_eq!(state.tweets[1].body, "second");
    assert_eq!(state.input_value, "");
}

#[test]
fn absent_profile_gives_blank_session() {
    let error = SavedState::load_me(FileRead::Unreadable).unwrap_err();
    let (mut app, _) = Pwitter::new();
    app.update(Message::LoadCompleted(Err(error)));
    let state = loaded(&app);
    assert!(state.me.is_none());
    assert!(state.tweets.is_empty());
    assert_eq!(state.input_value, "");
}

#[test]
fn absent_tweets_gives_blank_session() {
    let me = SavedState::load_me(FileRead::Parsed(user("127.0.0.1"))).unwrap();
    let saved = SavedState::load(me, FileRead::Unreadable);
    assert!(saved.is_err());
    let (mut app, _) = Pwitter::new();
    app.update(Message::LoadCompleted(saved));
    let state = loaded(&app);
    assert!(state.me.is_none());
    assert!(state.tweets.is_empty());
    assert_eq!(state.input_value, "");
}

#[test]
fn malformed_files_give_blank_session() {
    let (mut app, _) = Pwitter::new();
    app.update(Message::LoadCompleted(Err(LoadError::Format("user".to_string()))));
    let state = loaded(&app);
    assert!(state.me.is_none());
    assert!(state.tweets.is_empty());
}
