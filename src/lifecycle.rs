//! Laws of the dynamic-state document, stated over sequences of calls.
use vstd::prelude::*;
use crate::oop::{Phase, PostView};

verus! {

/// One call on a document.
pub enum Action {
    AddText(Seq<char>),
    RequestReview,
    Approve,
    Reject,
}

impl PostView {
    /// The document after one call.
    pub open spec fn apply(self, a: Action) -> PostView {
        match a {
            Action::AddText(text) => self.add_text(text),
            Action::RequestReview => self.request_review(),
            Action::Approve => self.approve(),
            Action::Reject => self.reject(),
        }
    }
}

/// The document after the calls in `actions`, in order, starting from `start`.
pub open spec fn replay(start: PostView, actions: Seq<Action>) -> PostView
    decreases actions.len(),
{
    if actions.len() == 0 {
        start
    } else {
        replay(start, actions.drop_last()).apply(actions.last())
    }
}

/// No `reject` among the calls strictly between positions `lo` and `hi`.
pub open spec fn no_reject_between(actions: Seq<Action>, lo: int, hi: int) -> bool {
    forall|m: int| lo < m < hi ==> !(#[trigger] actions[m] is Reject)
}

/// Some `request_review` is followed by two `approve` calls, with no `reject`
/// from the review up to the second approval.
pub open spec fn approved_twice(actions: Seq<Action>) -> bool {
    exists|i: int, j: int, k: int|
        #![trigger actions[i], actions[j], actions[k]]
        0 <= i < j < k < actions.len() && actions[i] is RequestReview && actions[j] is Approve
            && actions[k] is Approve && no_reject_between(actions, i, k)
}

/// Under review since position `i`, with no `reject` after it.
spec fn in_review_since(actions: Seq<Action>, i: int) -> bool {
    0 <= i < actions.len() && actions[i] is RequestReview && no_reject_between(
        actions,
        i,
        actions.len() as int,
    )
}

/// What every sequence of calls from a fresh document leaves behind: a review
/// with as many approvals as were given since it began, or a publication that
/// two approvals led to.
proof fn lemma_replay_history(actions: Seq<Action>)
    ensures
        ({
            let v = replay(PostView::initial(), actions);
            &&& v.phase matches Phase::PendingReview { approvals } ==> exists|i: int|
                #[trigger] in_review_since(actions, i) && (approvals >= 1 ==> exists|j: int|
                    i < j < actions.len() && #[trigger] actions[j] is Approve)
            &&& v.phase is Published ==> approved_twice(actions)
        }),
    decreases actions.len(),
{
    if actions.len() > 0 {
        let prefix = actions.drop_last();
        let last = actions.last();
        let n = actions.len() - 1;
        lemma_replay_history(prefix);
        let before = replay(PostView::initial(), prefix);
        assert forall|m: int| 0 <= m < n implies actions[m] == prefix[m] by {}
        match before.phase {
            Phase::Draft => {
                if last is RequestReview {
                    assert(in_review_since(actions, n));
                }
            },
            Phase::PendingReview { approvals } => {
                let i = choose|i: int| #[trigger] in_review_since(prefix, i) && (approvals >= 1
                    ==> exists|j: int| i < j < prefix.len() && #[trigger] prefix[j] is Approve);
                assert(actions[i] == prefix[i]);
                if last is Reject {
                } else if last is Approve {
                    if approvals >= 1 {
                        let j = choose|j: int| i < j < prefix.len() && #[trigger] prefix[j] is Approve;
                        assert(actions[j] == prefix[j]);
                        assert(no_reject_between(actions, i, n));
                        assert(actions[i] is RequestReview && actions[j] is Approve
                            && actions[n] is Approve);
                    } else {
                        assert(in_review_since(actions, i));
                        assert(actions[n] is Approve);
                    }
                } else {
                    assert(in_review_since(actions, i));
                    if approvals >= 1 {
                        let j = choose|j: int| i < j < prefix.len() && #[trigger] prefix[j] is Approve;
                        assert(actions[j] == prefix[j]);
                    }
                }
            },
            Phase::Published => {
                let (i, j, k) = choose|i: int, j: int, k: int|
                    #![trigger prefix[i], prefix[j], prefix[k]]
                    0 <= i < j < k < prefix.len() && prefix[i] is RequestReview
                        && prefix[j] is Approve && prefix[k] is Approve && no_reject_between(
                        prefix,
                        i,
                        k,
                    );
                assert(actions[i] == prefix[i] && actions[j] == prefix[j] && actions[k]
                    == prefix[k]);
                assert(no_reject_between(actions, i, k));
            },
        }
    }
}

/// A fresh document shows text only after a `request_review` that two
/// `approve` calls followed, with no `reject` between the review and the
/// second approval.
pub proof fn lemma_visible_only_after_two_approvals(actions: Seq<Action>)
    ensures
        replay(PostView::initial(), actions).visible().len() > 0 ==> approved_twice(actions),
{
    lemma_replay_history(actions);
}

/// Replaying two runs of calls one after the other is replaying them joined.
pub proof fn lemma_replay_concat(start: PostView, first: Seq<Action>, second: Seq<Action>)
    ensures
        replay(start, first + second) == replay(replay(start, first), second),
    decreases second.len(),
{
    if second.len() == 0 {
        assert(first + second =~= first);
    } else {
        lemma_replay_concat(start, first, second.drop_last());
        assert((first + second).drop_last() =~= first + second.drop_last());
        assert((first + second).last() == second.last());
    }
}

/// A `reject` while under review, whatever the approvals so far, brings the
/// document back to draft with its text, and a review with two approvals then
/// publishes that same text.
pub proof fn lemma_reject_resets_review(v: PostView)
    requires
        v.phase is PendingReview,
    ensures
        v.reject() == (PostView { phase: Phase::Draft, content: v.content }),
        v.reject().request_review().phase == (Phase::PendingReview { approvals: 0 }),
        v.reject().request_review().approve().approve() == (PostView {
            phase: Phase::Published,
            content: v.content,
        }),
        v.reject().request_review().approve().approve().visible() == v.content,
{
}

/// Once a document has left draft, text added to it changes nothing that the
/// calls after it lead to.
pub proof fn lemma_text_after_draft_is_ignored(
    start: PostView,
    before: Seq<Action>,
    text: Seq<char>,
    after: Seq<Action>,
)
    requires
        !(replay(start, before).phase is Draft),
    ensures
        replay(start, before.push(Action::AddText(text)) + after) == replay(start, before + after),
        replay(start, before.push(Action::AddText(text)) + after).visible() == replay(
            start,
            before + after,
        ).visible(),
{
    let added = before.push(Action::AddText(text));
    lemma_replay_concat(start, added, after);
    lemma_replay_concat(start, before, after);
    assert(added.drop_last() =~= before);
}

/// One approval of a document just sent to review shows nothing; a second
/// one publishes its text.
pub proof fn lemma_two_approvals_needed(v: PostView)
    requires
        v.phase == (Phase::PendingReview { approvals: 0 }),
    ensures
        v.approve().phase is PendingReview,
        v.approve().visible() == Seq::<char>::empty(),
        v.approve().approve().phase is Published,
        v.approve().approve().visible() == v.content,
{
}

} // verus!
