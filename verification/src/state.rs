//! The application state machine: a session is loading or loaded, and
//! messages, handled one at a time, move it on.

use vstd::prelude::*;
use crate::load::{LoadError, SavedState};
use crate::screen::{
    empty_message, loading_message, nouser_message, Feed, FeedView, Home, Screen, ScreenView,
    TweetRow,
};
use crate::tweet::{models, Tweet, TweetMessage};
use crate::user::User;

verus! {

/// The session.
#[derive(Debug)]
pub enum Pwitter {
    /// The start-up load has not been delivered yet.
    Loading,
    /// The load was delivered. No message leads back to `Loading`.
    Loaded(State),
}

/// What a loaded session holds.
#[derive(Debug)]
pub struct State {
    /// The current user; `None` for good if the load failed.
    pub me: Option<User>,
    /// The text typed and not yet sent.
    pub input_value: String,
    /// The feed, oldest post first.
    pub tweets: Vec<Tweet>,
}

/// What can happen to a session.
#[derive(Debug)]
pub enum Message {
    /// The start-up load finished.
    LoadCompleted(Result<SavedState, LoadError>),
    /// The text input was edited; this is its new content.
    InputChanged(String),
    /// The text input was submitted.
    SubmitPost,
    /// A signal from the row of one post.
    ReplyClicked(TweetMessage),
}

/// What the front end is asked to do next.
#[derive(Debug, Clone, Copy, PartialEq, Eq, Structural)]
pub enum Action {
    Nothing,
    /// Run the start-up load once and deliver its result as
    /// [`Message::LoadCompleted`].
    Load,
}

impl Clone for Message {
    /// A copy of the message. It is equal to the message, but for a
    /// successful load, whose copy holds the same profile and posts of the
    /// same content in the same order.
    fn clone(&self) -> (m: Self)
        ensures
            match *self {
                Message::LoadCompleted(Ok(saved)) => m matches Message::LoadCompleted(Ok(copy))
                    && copy.same_content(saved),
                _ => m == *self,
            },
    {
        match self {
            Message::LoadCompleted(Ok(saved)) => Message::LoadCompleted(Ok(saved.clone())),
            Message::LoadCompleted(Err(error)) => Message::LoadCompleted(Err(error.clone())),
            Message::InputChanged(text) => Message::InputChanged(text.clone()),
            Message::SubmitPost => Message::SubmitPost,
            Message::ReplyClicked(signal) => Message::ReplyClicked(*signal),
        }
    }
}

impl Default for State {
    /// The state a failed load leaves.
    fn default() -> (s: State)
        ensures
            s.is_blank(),
    {
        State { me: None, input_value: String::new(), tweets: Vec::new() }
    }
}

impl State {
    /// Whether the state is the one a failed load leaves: no user, no posts,
    /// no input.
    pub open spec fn is_blank(self) -> bool {
        &&& self.me is None
        &&& self.tweets@.len() == 0
        &&& self.input_value@.len() == 0
    }

    /// Whether the two states hold the same user, the same input and posts
    /// of the same content in the same order.
    pub open spec fn same_content(self, other: State) -> bool {
        &&& self.me == other.me
        &&& self.input_value@ == other.input_value@
        &&& models(self.tweets@) == models(other.tweets@)
    }

    /// Whether `next` is the state that follows `self` on `message`.
    pub open spec fn transition(self, message: Message, next: State) -> bool {
        match (self.me, message) {
            (Some(_), Message::InputChanged(value)) => {
                &&& next.me == self.me
                &&& next.tweets == self.tweets
                &&& next.input_value == value
            },
            (Some(me), Message::SubmitPost) if self.input_value@.len() > 0 => {
                &&& next.me == self.me
                &&& next.input_value@.len() == 0
                &&& next.tweets@.len() == self.tweets@.len() + 1
                &&& next.tweets@.drop_last() == self.tweets@
                &&& next.tweets@.last().is_post(me.addr@, self.input_value@)
            },
            _ => next == self,
        }
    }

    /// The feed region for this state.
    pub open spec fn feed(self) -> FeedView {
        if self.tweets@.len() > 0 {
            FeedView::Rows(self.tweets@.map_values(|t: Tweet| t.row()))
        } else {
            FeedView::Empty("There's no tweets yet."@)
        }
    }

    /// Handles one message in a loaded session. Without a user nothing
    /// changes. With one, an edit replaces the input as it is, and a submit
    /// of a non-empty input appends the post to the feed and clears the input.
    pub fn update(&mut self, message: Message)
        ensures
            old(self).transition(message, *final(self)),
    {
        if let Some(me) = &self.me {
            match message {
                Message::InputChanged(value) => {
                    self.input_value = value;
                },
                Message::SubmitPost => {
                    if !self.input_value.as_str().is_empty() {
                        let post = Tweet::new(me.addr.clone(), self.input_value.clone());
                        self.tweets.push(post);
                        self.input_value = String::new();
                        assert(self.tweets@.drop_last() =~= old(self).tweets@);
                    }
                },
                _ => {},
            }
        }
    }

    /// Describes the feed region: the rows of the posts in their order, or
    /// the placeholder where there is none.
    pub fn view_feed(&self) -> (f: Feed)
        ensures
            f@ == self.feed(),
    {
        if self.tweets.len() > 0 {
            let mut rows: Vec<TweetRow> = Vec::new();
            let mut i: usize = 0;
            while i < self.tweets.len()
                invariant
                    i <= self.tweets@.len(),
                    rows@.len() == i,
                    forall|k: int| 0 <= k < i ==> (#[trigger] rows@[k])@ == self.tweets@[k].row(),
                decreases self.tweets@.len() - i,
            {
                rows.push(self.tweets[i].view());
                i += 1;
            }
            assert(rows@.map_values(|r: TweetRow| r@) =~= self.tweets@.map_values(
                |t: Tweet| t.row(),
            ));
            Feed::Rows(rows)
        } else {
            empty_message("There's no tweets yet.")
        }
    }
}

impl Pwitter {
    /// Whether the two sessions are both loading, or both loaded with the
    /// same content.
    pub open spec fn same_content(self, other: Pwitter) -> bool {
        match (self, other) {
            (Pwitter::Loading, Pwitter::Loading) => true,
            (Pwitter::Loaded(a), Pwitter::Loaded(b)) => a.same_content(b),
            _ => false,
        }
    }

    /// Whether `next` is the session that follows `self` on `message`.
    pub open spec fn transition(self, message: Message, next: Pwitter) -> bool {
        match self {
            Pwitter::Loading => match message {
                Message::LoadCompleted(Ok(saved)) => {
                    &&& next matches Pwitter::Loaded(state)
                    &&& state.me == Some(saved.me)
                    &&& state.tweets == saved.tweets
                    &&& state.input_value@.len() == 0
                },
                Message::LoadCompleted(Err(_)) => next matches Pwitter::Loaded(state) && state.is_blank(),
                _ => next == self,
            },
            Pwitter::Loaded(state) => next matches Pwitter::Loaded(after) && state.transition(
                message,
                after,
            ),
        }
    }

    /// What is shown for this session.
    pub open spec fn screen(self) -> ScreenView {
        match self {
            Pwitter::Loading => ScreenView::Loading("Loading…"@),
            Pwitter::Loaded(state) => match state.me {
                None => ScreenView::NoUser("No User Info"@),
                Some(_) => ScreenView::Home {
                    title: "Home"@,
                    placeholder: "What's happening?"@,
                    input_value: state.input_value@,
                    feed: state.feed(),
                },
            },
        }
    }

    /// A session at start-up: loading, with the request to run the load.
    pub fn new() -> (r: (Pwitter, Action))
        ensures
            r.0 is Loading,
            r.1 == Action::Load,
    {
        (Pwitter::Loading, Action::Load)
    }

    /// The window title.
    pub fn title(&self) -> (t: String)
        ensures
            t@ == "Pwitter"@,
    {
        "Pwitter".to_owned()
    }

    /// Handles one message. While loading only the result of the load
    /// counts: it is adopted, or on failure the blank state is. Afterwards
    /// the loaded state handles the message. Nothing is ever asked of the
    /// front end in return.
    pub fn update(&mut self, message: Message) -> (action: Action)
        ensures
            old(self).transition(message, *final(self)),
            action == Action::Nothing,
    {
        match self {
            Pwitter::Loading => {
                match message {
                    Message::LoadCompleted(Ok(saved)) => {
                        *self = Pwitter::Loaded(
                            State {
                                me: Some(saved.me),
                                input_value: String::new(),
                                tweets: saved.tweets,
                            },
                        );
                    },
                    Message::LoadCompleted(Err(_)) => {
                        *self = Pwitter::Loaded(State::default());
                    },
                    _ => {},
                }
            },
            Pwitter::Loaded(state) => {
                state.update(message);
            },
        }
        Action::Nothing
    }

    /// Describes what is shown. The description depends on the session
    /// alone and nothing is changed by making it.
    pub fn view(&self) -> (s: Screen)
        ensures
            s@ == self.screen(),
    {
        match self {
            Pwitter::Loading => loading_message(),
            Pwitter::Loaded(state) => {
                if state.me.is_none() {
                    nouser_message()
                } else {
                    Screen::Home(
                        Home {
                            title: "Home".to_owned(),
                            placeholder: "What's happening?".to_owned(),
                            input_value: state.input_value.clone(),
                            feed: state.view_feed(),
                        },
                    )
                }
            },
        }
    }
}

} // verus!
