//! What is shown: a plain description of the screen for each state, which a
//! GUI front end turns into widgets.

use vstd::prelude::*;
use crate::tweet::TweetMessage;

verus! {

/// One post as shown in the feed: an avatar, the poster and the text, side by
/// side, and the signal that the row can emit.
#[derive(Debug, Clone)]
pub struct TweetRow {
    /// Path of the avatar image.
    pub avatar: String,
    /// Width and height of the avatar, in logical units.
    pub avatar_size: u16,
    pub poster: String,
    pub body: String,
    /// The reply intent that the row exposes.
    pub reply: TweetMessage,
}

/// The feed region of the home screen.
#[derive(Debug, Clone)]
pub enum Feed {
    /// No posts yet: a placeholder text stands in for the list.
    Empty(String),
    /// The posts, oldest first.
    Rows(Vec<TweetRow>),
}

/// The home screen of a loaded session with a user.
#[derive(Debug, Clone)]
pub struct Home {
    pub title: String,
    /// Hint shown in the text input while it is empty.
    pub placeholder: String,
    /// Current content of the text input.
    pub input_value: String,
    pub feed: Feed,
}

/// Everything the window can show.
#[derive(Debug, Clone)]
pub enum Screen {
    /// The start-up load has not finished: a notice, nothing to interact with.
    Loading(String),
    /// The load finished without a user: a notice, nothing to interact with.
    NoUser(String),
    Home(Home),
}

/// Mathematical content of a [`TweetRow`].
pub ghost struct RowView {
    pub avatar: Seq<char>,
    pub avatar_size: int,
    pub poster: Seq<char>,
    pub body: Seq<char>,
    pub reply: TweetMessage,
}

/// Mathematical content of a [`Feed`].
pub ghost enum FeedView {
    Empty(Seq<char>),
    Rows(Seq<RowView>),
}

/// Mathematical content of a [`Screen`].
pub ghost enum ScreenView {
    Loading(Seq<char>),
    NoUser(Seq<char>),
    Home { title: Seq<char>, placeholder: Seq<char>, input_value: Seq<char>, feed: FeedView },
}

impl View for TweetRow {
    type V = RowView;

    open spec fn view(&self) -> RowView {
        RowView {
            avatar: self.avatar@,
            avatar_size: self.avatar_size as int,
            poster: self.poster@,
            body: self.body@,
            reply: self.reply,
        }
    }
}

impl View for Feed {
    type V = FeedView;

    open spec fn view(&self) -> FeedView {
        match self {
            Feed::Empty(text) => FeedView::Empty(text@),
            Feed::Rows(rows) => FeedView::Rows(rows@.map_values(|r: TweetRow| r@)),
        }
    }
}

impl View for Screen {
    type V = ScreenView;

    open spec fn view(&self) -> ScreenView {
        match self {
            Screen::Loading(text) => ScreenView::Loading(text@),
            Screen::NoUser(text) => ScreenView::NoUser(text@),
            Screen::Home(home) => ScreenView::Home {
                title: home.title@,
                placeholder: home.placeholder@,
                input_value: home.input_value@,
                feed: home.feed@,
            },
        }
    }
}

/// The notice shown while the start-up load runs.
pub fn loading_message() -> (s: Screen)
    ensures
        s@ == ScreenView::Loading("Loading…"@),
{
    Screen::Loading("Loading…".to_owned())
}

/// The notice shown when the load ended without a user.
pub fn nouser_message() -> (s: Screen)
    ensures
        s@ == ScreenView::NoUser("No User Info"@),
{
    Screen::NoUser("No User Info".to_owned())
}

/// The placeholder that stands in for an empty feed, with the given text.
pub fn empty_message(message: &str) -> (f: Feed)
    ensures
        f@ == FeedView::Empty(message@),
{
    Feed::Empty(message.to_owned())
}

} // verus!
