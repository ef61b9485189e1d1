//! A post of the feed.

use vstd::prelude::*;
use crate::screen::{RowView, TweetRow};

verus! {

/// A single post: who wrote it, what it says, and the replies it owns.
/// The replies are always present, possibly empty.
#[derive(Debug)]
pub struct Tweet {
    pub posted_by: String,
    pub body: String,
    pub replies: Vec<Tweet>,
}

/// A signal that the row of one post can emit.
#[derive(Debug, Clone, Copy, PartialEq, Eq, Structural)]
pub enum TweetMessage {
    /// The reader wants to reply to the post.
    ClickReply,
}

/// Mathematical content of a [`Tweet`]: the poster, the text and the
/// content of each reply, in order.
pub ghost struct TweetModel {
    pub posted_by: Seq<char>,
    pub body: Seq<char>,
    pub replies: Seq<TweetModel>,
}

/// The content of each post of a feed, in order.
pub open spec fn models(tweets: Seq<Tweet>) -> Seq<TweetModel> {
    tweets.map_values(|t: Tweet| t.model())
}

impl Tweet {
    /// The content of the post.
    pub open spec fn model(self) -> TweetModel
        decreases self,
    {
        TweetModel {
            posted_by: self.posted_by@,
            body: self.body@,
            replies: Seq::new(
                self.replies@.len(),
                |i: int|
                    if 0 <= i < self.replies@.len() {
                        self.replies@[i].model()
                    } else {
                        arbitrary()
                    },
            ),
        }
    }

    /// The row that shows this post: the fixed avatar, the poster and the text.
    pub open spec fn row(self) -> RowView {
        RowView {
            avatar: "resources/wolf5.png"@,
            avatar_size: 48,
            poster: self.posted_by@,
            body: self.body@,
            reply: TweetMessage::ClickReply,
        }
    }

    /// Whether this is the post that `author` makes by submitting `text`:
    /// their address, the text unchanged, no replies.
    pub open spec fn is_post(self, author: Seq<char>, text: Seq<char>) -> bool {
        &&& self.posted_by@ == author
        &&& self.body@ == text
        &&& self.replies@ == Seq::<Tweet>::empty()
    }

    /// A fresh post by `posted_by` with text `body` and no replies.
    pub fn new(posted_by: String, body: String) -> (t: Self)
        ensures
            t.posted_by == posted_by,
            t.body == body,
            t.is_post(posted_by@, body@),
    {
        Tweet { posted_by, body, replies: Vec::new() }
    }

    /// Describes how the post is shown. The description depends on the post
    /// alone.
    pub fn view(&self) -> (r: TweetRow)
        ensures
            r@ == self.row(),
    {
        TweetRow {
            avatar: "resources/wolf5.png".to_owned(),
            avatar_size: 48,
            poster: self.posted_by.clone(),
            body: self.body.clone(),
            reply: TweetMessage::ClickReply,
        }
    }
}

impl Clone for Tweet {
    /// A copy with the same content, replies included.
    fn clone(&self) -> (r: Self)
        ensures
            r.model() == self.model(),
        decreases self,
    {
        let mut replies: Vec<Tweet> = Vec::new();
        let mut i: usize = 0;
        while i < self.replies.len()
            invariant
                i <= self.replies@.len(),
                replies@.len() == i,
                forall|k: int|
                    0 <= k < i ==> (#[trigger] replies@[k]).model() == self.replies@[k].model(),
            decreases self.replies@.len() - i,
        {
            replies.push(self.replies[i].clone());
            i += 1;
        }
        let r = Tweet { posted_by: self.posted_by.clone(), body: self.body.clone(), replies };
        assert(r.model().replies =~= self.model().replies);
        r
    }
}

} // verus!
