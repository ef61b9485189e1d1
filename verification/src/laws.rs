//! Laws of the start-up load and of the session, proved from the relations
//! that the contracts of the library use.

use vstd::prelude::*;
use crate::load::{FileRead, LoadError, SavedState};
use crate::screen::Screen;
use crate::state::{Message, Pwitter, State};
use crate::tweet::{models, Tweet, TweetMessage};
use crate::user::User;

verus! {

/// A session and a message leave one successor: any two sessions that
/// follow have the same content.
pub proof fn law_one_successor(session: Pwitter, message: Message, first: Pwitter, second: Pwitter)
    requires
        session.transition(message, first),
        session.transition(message, second),
    ensures
        first.same_content(second),
{
    if let (Pwitter::Loaded(a), Pwitter::Loaded(b)) = (first, second) {
        assert(a.input_value@ =~= b.input_value@);
        if a.tweets@.len() == b.tweets@.len() && a.tweets@.len() > 0 {
            assert(a.tweets@.last().model().replies =~= b.tweets@.last().model().replies);
            assert forall|i: int| 0 <= i < a.tweets@.len() - 1 implies a.tweets@[i]
                == b.tweets@[i] by {
                assert(a.tweets@.drop_last()[i] == b.tweets@.drop_last()[i]);
            }
        }
        assert(models(a.tweets@) =~= models(b.tweets@));
    }
}

/// Where both files were read and decoded, the loaded session holds the
/// decoded profile as its user and the decoded posts in their order, and its
/// input is empty.
pub proof fn law_load_success(
    me: User,
    tweets: Vec<Tweet>,
    loaded_me: Result<User, LoadError>,
    loaded: Result<SavedState, LoadError>,
    next: Pwitter,
)
    requires
        SavedState::me_outcome(FileRead::Parsed(me), loaded_me),
        loaded_me matches Ok(user) && SavedState::load_outcome(
            user,
            FileRead::Parsed(tweets),
            loaded,
        ),
        Pwitter::Loading.transition(Message::LoadCompleted(loaded), next),
    ensures
        loaded == Ok::<SavedState, LoadError>(SavedState { me, tweets }),
        next matches Pwitter::Loaded(state) && state.me == Some(me) && state.tweets@ == tweets@
            && state.input_value@ == Seq::<char>::empty(),
{
    if let Pwitter::Loaded(state) = next {
        assert(state.input_value@ =~= Seq::<char>::empty());
    }
}

/// Whatever the load failed on, the loaded session is blank: no user, no
/// posts, no input. The kind of failure leaves no trace.
pub proof fn law_load_failure(error: LoadError, next: Pwitter)
    requires
        Pwitter::Loading.transition(Message::LoadCompleted(Err(error)), next),
    ensures
        next matches Pwitter::Loaded(state) && state.is_blank(),
{
}

/// Where the profile cannot be read, the load fails on the profile and the
/// loaded session is blank. The tweet list plays no part in it.
pub proof fn law_absent_profile(loaded_me: Result<User, LoadError>, next: Pwitter)
    requires
        SavedState::me_outcome(FileRead::Unreadable, loaded_me),
        loaded_me matches Err(error) ==> Pwitter::Loading.transition(
            Message::LoadCompleted(Err(error)),
            next,
        ),
    ensures
        loaded_me == Err::<User, LoadError>(LoadError::UserNotFound),
        next matches Pwitter::Loaded(state) && state.is_blank(),
{
}

/// Where the profile loaded but the tweet list cannot be read, the load
/// fails on the tweet list and the loaded session is blank all the same: the
/// profile that was read is not kept.
pub proof fn law_absent_tweets(me: User, loaded: Result<SavedState, LoadError>, next: Pwitter)
    requires
        SavedState::load_outcome(me, FileRead::Unreadable, loaded),
        Pwitter::Loading.transition(Message::LoadCompleted(loaded), next),
    ensures
        loaded == Err::<SavedState, LoadError>(LoadError::TweetsFileNotFound),
        next matches Pwitter::Loaded(state) && state.is_blank(),
{
}

/// While the load is pending, every message but its result is ignored.
pub proof fn law_loading_waits(message: Message, next: Pwitter)
    requires
        !(message is LoadCompleted),
        Pwitter::Loading.transition(message, next),
    ensures
        next is Loading,
{
}

/// A loaded session stays loaded, whatever the message.
pub proof fn law_loaded_stays(state: State, message: Message, next: Pwitter)
    requires
        Pwitter::Loaded(state).transition(message, next),
    ensures
        next is Loaded,
{
}

/// With a user, an edit replaces the input by the new text, as it is, and
/// changes nothing else.
pub proof fn law_input_changed(state: State, text: String, next: Pwitter)
    requires
        state.me is Some,
        Pwitter::Loaded(state).transition(Message::InputChanged(text), next),
    ensures
        next matches Pwitter::Loaded(after) && after.input_value@ == text@ && after.tweets
            == state.tweets && after.me == state.me,
{
}

/// With a user and a non-empty input, a submit makes the feed one longer:
/// the earlier posts stay as they were and in their order, the new last post
/// carries the input as its text and the user's address as its poster, and
/// has no replies. The input is empty afterwards and the user stays.
pub proof fn law_post_submission(state: State, next: Pwitter)
    requires
        state.me is Some,
        state.input_value@.len() > 0,
        Pwitter::Loaded(state).transition(Message::SubmitPost, next),
    ensures
        next matches Pwitter::Loaded(after) && {
            &&& after.tweets@.len() == state.tweets@.len() + 1
            &&& after.tweets@ == state.tweets@.push(after.tweets@.last())
            &&& after.tweets@.last().body@ == state.input_value@
            &&& after.tweets@.last().posted_by@ == state.me->0.addr@
            &&& after.tweets@.last().replies@.len() == 0
            &&& after.input_value@ == Seq::<char>::empty()
            &&& after.me == state.me
        },
{
    if let Pwitter::Loaded(after) = next {
        assert(after.tweets@ =~= after.tweets@.drop_last().push(after.tweets@.last()));
        assert(after.input_value@ =~= Seq::<char>::empty());
    }
}

/// A submit with an empty input changes nothing: the feed keeps its length
/// and its posts.
pub proof fn law_empty_submission(state: State, next: Pwitter)
    requires
        state.input_value@.len() == 0,
        Pwitter::Loaded(state).transition(Message::SubmitPost, next),
    ensures
        next == Pwitter::Loaded(state),
{
}

/// Without a user no message changes anything: neither an edit nor a submit
/// touches the feed or the input.
pub proof fn law_no_user_guard(state: State, message: Message, next: Pwitter)
    requires
        state.me is None,
        Pwitter::Loaded(state).transition(message, next),
    ensures
        next == Pwitter::Loaded(state),
{
}

/// A signal from a post's row changes nothing, in any session.
pub proof fn law_reply_is_inert(session: Pwitter, signal: TweetMessage, next: Pwitter)
    requires
        session.transition(Message::ReplyClicked(signal), next),
    ensures
        next == session,
{
}

/// Two descriptions made of one session have the same content: what is shown
/// is a function of the session alone.
pub proof fn law_rendering_repeatable(session: Pwitter, first: Screen, second: Screen)
    requires
        first@ == session.screen(),
        second@ == session.screen(),
    ensures
        first@ == second@,
{
}

} // verus!
