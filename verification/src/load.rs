//! The start-up load: what is made of the two saved files once they have been
//! read. Reading and decoding happen outside; the decisions are here.

use vstd::prelude::*;
use crate::tweet::{models, Tweet};
use crate::user::User;

verus! {

/// What came of reading one saved file.
#[derive(Debug, Clone)]
pub enum FileRead<T> {
    /// The file is missing or could not be opened or read.
    Unreadable,
    /// The file was read but its content does not fit the schema.
    Malformed,
    /// The file was read and decoded.
    Parsed(T),
}

/// Why the start-up load failed.
#[derive(Debug)]
pub enum LoadError {
    /// The tweet list is missing or unreadable.
    TweetsFileNotFound,
    /// The profile is missing or unreadable.
    UserNotFound,
    /// A file was read but did not fit its schema; the text says which one.
    Format(String),
}

/// The profile and the posts as they were saved.
#[derive(Debug)]
pub struct SavedState {
    pub me: User,
    pub tweets: Vec<Tweet>,
}

impl Clone for LoadError {
    /// An equal error.
    fn clone(&self) -> (e: Self)
        ensures
            e == *self,
    {
        match self {
            LoadError::TweetsFileNotFound => LoadError::TweetsFileNotFound,
            LoadError::UserNotFound => LoadError::UserNotFound,
            LoadError::Format(context) => LoadError::Format(context.clone()),
        }
    }
}

impl Clone for SavedState {
    /// A copy with the same profile and the same posts in the same order.
    fn clone(&self) -> (s: Self)
        ensures
            s.same_content(*self),
    {
        let tweets = self.tweets.clone();
        assert(models(tweets@) =~= models(self.tweets@));
        SavedState { me: self.me.clone(), tweets }
    }
}

impl LoadError {
    /// Whether this is the format error for the resource called `context`.
    pub open spec fn is_format(self, context: Seq<char>) -> bool {
        self matches LoadError::Format(c) && c@ == context
    }
}

impl SavedState {
    /// Whether the two hold the same profile and posts of the same content
    /// in the same order.
    pub open spec fn same_content(self, other: SavedState) -> bool {
        self.me == other.me && models(self.tweets@) == models(other.tweets@)
    }

    /// Whether `r` is what loading the profile yields for `read`.
    pub open spec fn me_outcome(read: FileRead<User>, r: Result<User, LoadError>) -> bool {
        match read {
            FileRead::Unreadable => r == Err::<User, LoadError>(LoadError::UserNotFound),
            FileRead::Malformed => r matches Err(e) && e.is_format("user"@),
            FileRead::Parsed(me) => r == Ok::<User, LoadError>(me),
        }
    }

    /// Whether `r` is what loading the tweet list yields for `read`.
    pub open spec fn tweets_outcome(
        read: FileRead<Vec<Tweet>>,
        r: Result<Vec<Tweet>, LoadError>,
    ) -> bool {
        match read {
            FileRead::Unreadable => r == Err::<Vec<Tweet>, LoadError>(
                LoadError::TweetsFileNotFound,
            ),
            FileRead::Malformed => r matches Err(e) && e.is_format("tweets"@),
            FileRead::Parsed(tweets) => r == Ok::<Vec<Tweet>, LoadError>(tweets),
        }
    }

    /// Whether `r` is what the whole load yields once the profile `me` is
    /// there and the tweet list was read as `read`.
    pub open spec fn load_outcome(
        me: User,
        read: FileRead<Vec<Tweet>>,
        r: Result<SavedState, LoadError>,
    ) -> bool {
        match read {
            FileRead::Unreadable => r == Err::<SavedState, LoadError>(
                LoadError::TweetsFileNotFound,
            ),
            FileRead::Malformed => r matches Err(e) && e.is_format("tweets"@),
            FileRead::Parsed(tweets) => r == Ok::<SavedState, LoadError>(
                SavedState { me, tweets },
            ),
        }
    }

    /// Name of the file that holds the tweet list, relative to the working
    /// directory.
    pub fn path_to_tweets() -> (name: String)
        ensures
            name@ == "tweets.json"@,
    {
        "tweets.json".to_owned()
    }

    /// Name of the file that holds the profile, relative to the working
    /// directory.
    pub fn path_to_me() -> (name: String)
        ensures
            name@ == "me.json"@,
    {
        "me.json".to_owned()
    }

    /// Loads the profile from what reading its file gave.
    pub fn load_me(read: FileRead<User>) -> (r: Result<User, LoadError>)
        ensures
            Self::me_outcome(read, r),
    {
        match read {
            FileRead::Unreadable => Err(LoadError::UserNotFound),
            FileRead::Malformed => Err(LoadError::Format("user".to_owned())),
            FileRead::Parsed(me) => Ok(me),
        }
    }

    /// Loads the tweet list from what reading its file gave.
    pub fn load_tweets(read: FileRead<Vec<Tweet>>) -> (r: Result<Vec<Tweet>, LoadError>)
        ensures
            Self::tweets_outcome(read, r),
    {
        match read {
            FileRead::Unreadable => Err(LoadError::TweetsFileNotFound),
            FileRead::Malformed => Err(LoadError::Format("tweets".to_owned())),
            FileRead::Parsed(tweets) => Ok(tweets),
        }
    }

    /// Completes the load. It takes the profile, so the tweet list is asked
    /// for only after the profile has loaded; the first failure is the
    /// failure of the whole, and there is no partial success.
    pub fn load(me: User, read: FileRead<Vec<Tweet>>) -> (r: Result<SavedState, LoadError>)
        ensures
            Self::load_outcome(me, read, r),
    {
        match Self::load_tweets(read) {
            Ok(tweets) => Ok(SavedState { me, tweets }),
            Err(e) => Err(e),
        }
    }
}

} // verus!
