//! The document as a family of types, one per stage. Each transition consumes
//! the value it is called on and hands back one of the next stage, keeping the
//! text; only a published document can be read, only a draft can be written.
use vstd::prelude::*;

verus! {

/// A published document: its text can be read and nothing else is done to it.
pub struct Post {
    content: String,
}

/// A document being written.
pub struct DraftPost {
    content: String,
}

/// A document under review with no approval yet.
pub struct PendingReviewPost {
    content: String,
}

/// A document under review that has been approved once.
pub struct ApprovedPendingReviewPost {
    content: String,
}

impl View for Post {
    type V = Seq<char>;

    closed spec fn view(&self) -> Seq<char> {
        self.content@
    }
}

impl View for DraftPost {
    type V = Seq<char>;

    closed spec fn view(&self) -> Seq<char> {
        self.content@
    }
}

impl View for PendingReviewPost {
    type V = Seq<char>;

    closed spec fn view(&self) -> Seq<char> {
        self.content@
    }
}

impl View for ApprovedPendingReviewPost {
    type V = Seq<char>;

    closed spec fn view(&self) -> Seq<char> {
        self.content@
    }
}

impl Post {
    /// Starts a document: an empty draft.
    pub fn new() -> (r: DraftPost)
        ensures
            r@ == Seq::<char>::empty(),
    {
        DraftPost { content: String::new() }
    }

    pub fn content(&self) -> (r: &str)
        ensures
            r@ == self@,
    {
        self.content.as_str()
    }
}

impl DraftPost {
    /// Appends `text` after what the draft already holds.
    pub fn add_text(&mut self, text: &str)
        ensures
            final(self)@ == old(self)@ + text@,
    {
        self.content.append(text);
    }

    pub fn request_review(self) -> (r: PendingReviewPost)
        ensures
            r@ == self@,
    {
        PendingReviewPost { content: self.content }
    }
}

impl PendingReviewPost {
    pub fn approve(self) -> (r: ApprovedPendingReviewPost)
        ensures
            r@ == self@,
    {
        ApprovedPendingReviewPost { content: self.content }
    }

    pub fn reject(self) -> (r: DraftPost)
        ensures
            r@ == self@,
    {
        DraftPost { content: self.content }
    }
}

impl ApprovedPendingReviewPost {
    pub fn approve(self) -> (r: Post)
        ensures
            r@ == self@,
    {
        Post { content: self.content }
    }

    pub fn reject(self) -> (r: DraftPost)
        ensures
            r@ == self@,
    {
        DraftPost { content: self.content }
    }
}

} // verus!
