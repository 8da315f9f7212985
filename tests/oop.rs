use blog::oop::Post;

#[test]
fn it_adds_text_only_in_draft() {
    let mut post = Post::new();

    post.add_text("I ate a salad for lunch today");
    assert_eq!("", post.content());

    post.request_review();
    assert_eq!("", post.content());

    post.add_text("and a steak for dinner");
    assert_eq!("", post.content());

    post.approve();
    assert_eq!("", post.content());

    post.approve();
    assert_eq!("I ate a salad for lunch today", post.content());
}

#[test]
fn it_can_reject_posts() {
    let mut post = Post::new();

    post.add_text("I ate a salad for lunch today");
    assert_eq!("", post.content());

    post.request_review();
    assert_eq!("", post.content());

    post.reject();
    assert_eq!("", post.content());

    post.add_text(" and a steak for dinner");
    assert_eq!("", post.content());

    post.request_review();
    post.approve();
    post.approve();
    assert_eq!(
        "I ate a salad for lunch today and a steak for dinner",
        post.content()
    );
}

#[test]
fn it_requires_two_approvals() {
    let mut post = Post::new();

    post.add_text("I ate a salad for lunch today");
    assert_eq!("", post.content());

    post.request_review();
    assert_eq!("", post.content());

    post.approve();
    assert_eq!("", post.content());
}

#[test]
fn it_prints_content_when_published() {
    let mut post = Post::new();

    post.add_text("I ate a salad for lunch today");
    assert_eq!("", post.content());

    post.request_review();
    assert_eq!("", post.content());

    post.approve();
    assert_eq!("", post.content());

    post.approve();
    assert_eq!("I ate a salad for lunch today", post.content());
}

#[test]
fn new_post_is_empty_and_hidden() {
    let post = Post::new();
    assert_eq!("", post.content());
}

#[test]
fn publishing_an_empty_draft_shows_nothing() {
    let mut post = Post::new();
    post.request_review();
    post.approve();
    post.approve();
    assert_eq!("", post.content());
}

#[test]
fn approve_and_reject_in_draft_change_nothing() {
    let mut post = Post::new();
    post.add_text("draft");
    post.approve();
    post.approve();
    assert_eq!("", post.content());
    post.reject();
    post.add_text(" text");
    post.request_review();
    post.approve();
    post.approve();
    assert_eq!("draft text", post.content());
}

#[test]
fn reject_after_one_approval_resets_the_count() {
    let mut post = Post::new();
    post.add_text("abc");
    post.request_review();
    post.approve();
    post.reject();
    post.request_review();
    post.approve();
    assert_eq!("", post.content());
    post.approve();
    assert_eq!("abc", post.content());
}

#[test]
fn request_review_twice_keeps_the_approval() {
    let mut post = Post::new();
    post.add_text("abc");
    post.request_review();
    post.approve();
    post.request_review();
    post.approve();
    assert_eq!("abc", post.content());
}

#[test]
fn published_post_ignores_every_call() {
    let mut post = Post::new();
    post.add_text("abc");
    post.request_review();
    post.approve();
    post.approve();
    post.add_text("def");
    post.reject();
    post.request_review();
    post.approve();
    assert_eq!("abc", post.content());
}

#[test]
fn text_added_under_review_never_shows() {
    let mut post = Post::new();
    post.add_text("one");
    post.request_review();
    post.add_text("two");
    post.approve();
    post.add_text("three");
    post.approve();
    assert_eq!("one", post.content());
}
