//! The document as one value whose stage decides what each call does.
use vstd::prelude::*;

verus! {

/// Where a document stands in its lifecycle, as contracts see it.
pub enum Phase {
    Draft,
    PendingReview { approvals: nat },
    Published,
}

impl Phase {
    /// The stage after `request_review`: only a draft goes to review, with no
    /// approvals yet.
    pub open spec fn reviewed(self) -> Phase {
        match self {
            Phase::Draft => Phase::PendingReview { approvals: 0 },
            _ => self,
        }
    }

    /// The stage after `approve`: under review the count goes up by one, and
    /// once it is above one the document is published.
    pub open spec fn approved(self) -> Phase {
        match self {
            Phase::PendingReview { approvals } => {
                let n = approvals + 1;
                if n > 1 {
                    Phase::Published
                } else {
                    Phase::PendingReview { approvals: n }
                }
            },
            _ => self,
        }
    }

    /// The stage after `reject`: a document under review goes back to draft,
    /// whatever approvals it had.
    pub open spec fn rejected(self) -> Phase {
        match self {
            Phase::PendingReview { .. } => Phase::Draft,
            _ => self,
        }
    }
}

/// A document as contracts see it: its stage and the text it holds.
pub struct PostView {
    pub phase: Phase,
    pub content: Seq<char>,
}

impl PostView {
    /// A fresh document: an empty draft.
    pub open spec fn initial() -> PostView {
        PostView { phase: Phase::Draft, content: Seq::empty() }
    }

    /// What a reader sees: the text once published, nothing before.
    pub open spec fn visible(self) -> Seq<char> {
        if self.phase is Published {
            self.content
        } else {
            Seq::empty()
        }
    }

    /// Text is appended in draft and ignored in every other stage.
    pub open spec fn add_text(self, text: Seq<char>) -> PostView {
        if self.phase is Draft {
            PostView { phase: self.phase, content: self.content + text }
        } else {
            self
        }
    }

    pub open spec fn request_review(self) -> PostView {
        PostView { phase: self.phase.reviewed(), content: self.content }
    }

    pub open spec fn approve(self) -> PostView {
        PostView { phase: self.phase.approved(), content: self.content }
    }

    pub open spec fn reject(self) -> PostView {
        PostView { phase: self.phase.rejected(), content: self.content }
    }
}

/// The stage a document is in, with the approvals it has while under review.
#[derive(Clone, Copy)]
enum State {
    Draft,
    PendingReview { approvals: u8 },
    Published,
}

impl View for State {
    type V = Phase;

    closed spec fn view(&self) -> Phase {
        match *self {
            State::Draft => Phase::Draft,
            State::PendingReview { approvals } => Phase::PendingReview { approvals: approvals as nat },
            State::Published => Phase::Published,
        }
    }
}

impl State {
    fn request_review(self) -> (r: State)
        ensures
            r@ == self@.reviewed(),
    {
        match self {
            State::Draft => State::PendingReview { approvals: 0 },
            other => other,
        }
    }

    fn approve(self) -> (r: State)
        ensures
            r@ == self@.approved(),
    {
        match self {
            State::PendingReview { approvals } => {
                if approvals < 1 {
                    State::PendingReview { approvals: approvals + 1 }
                } else {
                    State::Published
                }
            },
            other => other,
        }
    }

    fn reject(self) -> (r: State)
        ensures
            r@ == self@.rejected(),
    {
        match self {
            State::PendingReview { .. } => State::Draft,
            other => other,
        }
    }

    /// The text after `add_text` in this stage.
    fn add_text(&self, current: &str, text: &str) -> (r: String)
        ensures
            r@ == (if self@ is Draft {
                current@ + text@
            } else {
                current@
            }),
    {
        let mut r = String::from_str(current);
        if let State::Draft = self {
            r.append(text);
        }
        r
    }

    /// What a reader sees of `stored` in this stage.
    fn content<'a>(&self, stored: &'a str) -> (r: &'a str)
        ensures
            r@ == (if self@ is Published {
                stored@
            } else {
                Seq::<char>::empty()
            }),
    {
        match self {
            State::Published => stored,
            _ => {
                proof {
                    reveal_strlit("");
                }
                ""
            },
        }
    }
}

/// A document whose stage is held in a field: a call that does not fit the
/// stage leaves the document as it was.
pub struct Post {
    state: State,
    content: String,
}

impl View for Post {
    type V = PostView;

    closed spec fn view(&self) -> PostView {
        PostView { phase: self.state@, content: self.content@ }
    }
}

impl Post {
    pub fn new() -> (r: Post)
        ensures
            r@ == PostView::initial(),
    {
        Post { state: State::Draft, content: String::new() }
    }

    pub fn add_text(&mut self, text: &str)
        ensures
            final(self)@ == old(self)@.add_text(text@),
    {
        self.content = self.state.add_text(self.content.as_str(), text);
    }

    pub fn content(&self) -> (r: &str)
        ensures
            r@ == self@.visible(),
    {
        self.state.content(self.content.as_str())
    }

    pub fn request_review(&mut self)
        ensures
            final(self)@ == old(self)@.request_review(),
    {
        self.state = self.state.request_review();
    }

    pub fn approve(&mut self)
        ensures
            final(self)@ == old(self)@.approve(),
    {
        self.state = self.state.approve();
    }

    pub fn reject(&mut self)
        ensures
            final(self)@ == old(self)@.reject(),
    {
        self.state = self.state.reject();
    }
}

} // verus!
