use ibis_core::article_store::DbArticleForm;
use ibis_core::comment_store::{
    is_unassigned, redact, unassigned_ap_id, DbCommentInsertForm, DbCommentUpdateForm,
};
use ibis_core::context::{IbisConfig, IbisConfigFederation, IbisContext};
use ibis_core::db_url::DbUrl;
use ibis_core::error::BackendError;
use ibis_core::newtypes::{ArticleId, CommentId, InstanceId, PersonId};
use ibis_core::records::{Article, Comment, Person};

fn url(text: &str) -> DbUrl {
    DbUrl::parse(text).unwrap()
}

fn context() -> IbisContext {
    let mut context = IbisContext::new(IbisConfig {
        federation: IbisConfigFederation { domain: "example.com".to_string() },
        https: true,
        max_comment_depth: 10,
    });
    context.persons.push(person(1, "alice"));
    context.persons.push(person(2, "bob"));
    let form = DbArticleForm {
        title: "Main Page".to_string(),
        text: "Hello".to_string(),
        ap_id: url("https://example.com/article/Main_Page"),
        instance_id: InstanceId(1),
        local: true,
        protected: false,
        updated: 1_000,
    };
    assert_eq!(Article::create_or_update(form, &mut context).unwrap().id, ArticleId(1));
    assert!(context.is_well_formed());
    context
}

fn person(id: i32, name: &str) -> Person {
    Person {
        id: PersonId(id),
        username: name.to_string(),
        ap_id: url(&format!("https://example.com/user/{name}")),
        inbox_url: format!("https://example.com/user/{name}/inbox"),
        public_key: "key".to_string(),
        private_key: None,
        last_refreshed_at: 0,
        local: true,
    }
}

fn form(ap_id: &str, content: &str, published: i64) -> DbCommentInsertForm {
    DbCommentInsertForm {
        creator_id: PersonId(1),
        article_id: ArticleId(1),
        parent_id: None,
        content: content.to_string(),
        depth: 0,
        ap_id: url(ap_id),
        local: false,
        deleted: false,
        published,
        updated: None,
    }
}

#[test]
fn a_new_comment_gets_the_next_identifier() {
    let mut context = context();
    let first = Comment::create(form("https://remote.com/comment/1", "one", 10), &mut context)
        .unwrap();
    let second =
        Comment::create(form("https://remote.com/comment/2", "two", 20), &mut context)
            .unwrap();
    assert_eq!(first.id, CommentId(1));
    assert_eq!(second.id, CommentId(2));
    assert_eq!(first.content, "one");
    assert_eq!(first.published, 10);
    assert_eq!(context.comments.len(), 2);
    assert_eq!(context.next_comment_id, 3);
    assert!(context.is_well_formed());
}

#[test]
fn storing_the_same_identifier_twice_leaves_one_row_with_the_later_fields() {
    let mut context = context();
    let first = Comment::create(form("https://remote.com/comment/1", "one", 10), &mut context)
        .unwrap();
    let mut later = form("https://remote.com/comment/1", "one, edited", 10);
    later.creator_id = PersonId(2);
    later.deleted = true;
    later.updated = Some(30);
    later.depth = 0;
    let second = Comment::create(later, &mut context).unwrap();
    assert_eq!(second.id, first.id);
    assert_eq!(context.comments.len(), 1);
    assert_eq!(context.next_comment_id, 2);
    let row = &context.comments[0];
    assert_eq!(row.content, "one, edited");
    assert_eq!(row.creator_id, PersonId(2));
    assert!(row.deleted);
    assert_eq!(row.updated, Some(30));
    assert_eq!(row.ap_id.text, "https://remote.com/comment/1");
    assert!(context.is_well_formed());
}

#[test]
fn storing_the_identical_comment_twice_changes_nothing_the_second_time() {
    let mut context = context();
    Comment::create(form("https://remote.com/comment/1", "one", 10), &mut context).unwrap();
    Comment::create(form("https://remote.com/comment/9", "nine", 90), &mut context).unwrap();
    let before = format!("{:?}", context);
    Comment::create(form("https://remote.com/comment/1", "one", 10), &mut context).unwrap();
    assert_eq!(format!("{:?}", context), before);
}

#[test]
fn comments_of_this_instance_wait_under_identifiers_of_their_own() {
    let mut context = context();
    let mut one = form("https://example.com/comment/x", "one", 10);
    one.ap_id = Comment::next_unassigned_ap_id(&context).unwrap();
    assert_eq!(one.ap_id.text, "http://changeme.invalid/1");
    let first = Comment::create(one, &mut context).unwrap();
    let mut two = form("https://example.com/comment/x", "two", 20);
    two.ap_id = Comment::next_unassigned_ap_id(&context).unwrap();
    assert_eq!(two.ap_id.text, "http://changeme.invalid/2");
    let second = Comment::create(two, &mut context).unwrap();
    assert_eq!(first.id, CommentId(1));
    assert_eq!(second.id, CommentId(2));
    assert_eq!(context.comments.len(), 2);
    assert!(context.is_well_formed());
    assert_eq!(unassigned_ap_id(CommentId(2_147_483_647)).unwrap().text, "http://changeme.invalid/2147483647");
    assert_eq!(unassigned_ap_id(CommentId(0)).unwrap().text, "http://changeme.invalid/0");
    assert_eq!(unassigned_ap_id(CommentId(1090)).unwrap().host.as_deref(), Some("changeme.invalid"));
    assert_eq!(unassigned_ap_id(CommentId(-1)).err(), Some(BackendError::InvalidUrl));
    assert!(is_unassigned(&first.ap_id));
    assert!(is_unassigned(&url("http://changeme.invalid/")));
    assert!(!is_unassigned(&url("http://changeme.invalid.org/1")));
    assert!(!is_unassigned(&url("https://changeme.invalid/1")));
    assert!(!is_unassigned(&url("http://a.b/")));
    assert!(!is_unassigned(&url("https://example.com/http://changeme.invalid/1")));
}

#[test]
fn no_comment_is_created_once_the_identifiers_are_used_up() {
    let mut context = context();
    context.next_comment_id = i32::MAX;
    let before = format!("{:?}", context);
    let r = Comment::create(form("https://remote.com/comment/1", "one", 10), &mut context);
    assert_eq!(r.err(), Some(BackendError::IdExhausted));
    assert_eq!(format!("{:?}", context), before);
}

#[test]
fn an_update_changes_only_the_fields_it_supplies() {
    let mut context = context();
    let stored =
        Comment::create(form("https://remote.com/comment/1", "one", 10), &mut context)
            .unwrap();
    let update = DbCommentUpdateForm {
        deleted: Some(true),
        updated: Some(50),
        ..Default::default()
    };
    let view = Comment::update(update, stored.id, &mut context).unwrap();
    assert_eq!(view.comment.content, "one");
    assert!(view.comment.deleted);
    assert_eq!(view.comment.updated, Some(50));
    assert_eq!(view.comment.published, 10);
    assert_eq!(view.comment.ap_id.text, "https://remote.com/comment/1");
    assert_eq!(view.creator.username, "alice");
    assert_eq!(context.comments[0].content, "one");
    assert!(context.comments[0].deleted);
}

#[test]
fn an_update_assigns_the_canonical_identifier_of_a_local_comment() {
    let mut context = context();
    let mut local = form("https://example.com/comment/x", "one", 10);
    local.ap_id = Comment::next_unassigned_ap_id(&context).unwrap();
    let stored = Comment::create(local, &mut context).unwrap();
    assert_eq!(stored.ap_id.text, "http://changeme.invalid/1");
    let update = DbCommentUpdateForm {
        ap_id: Some(url("https://example.com/comment/1")),
        content: Some("one!".to_string()),
        ..Default::default()
    };
    let view = Comment::update(update, stored.id, &mut context).unwrap();
    assert_eq!(view.comment.ap_id.text, "https://example.com/comment/1");
    assert_eq!(view.comment.content, "one!");
    let read = Comment::read_from_ap_id(&url("https://example.com/comment/1"), &context).unwrap();
    assert_eq!(read.id, stored.id);
    assert!(context.is_well_formed());
}

#[test]
fn an_update_of_an_unknown_comment_fails_with_not_found() {
    let mut context = context();
    let r = Comment::update(DbCommentUpdateForm::default(), CommentId(7), &mut context);
    assert_eq!(r.err(), Some(BackendError::NotFound));
}

#[test]
fn an_update_cannot_take_the_identifier_of_another_comment() {
    let mut context = context();
    Comment::create(form("https://remote.com/comment/1", "one", 10), &mut context).unwrap();
    let other =
        Comment::create(form("https://remote.com/comment/2", "two", 20), &mut context)
            .unwrap();
    let before = format!("{:?}", context);
    let update = DbCommentUpdateForm {
        ap_id: Some(url("https://remote.com/comment/1")),
        ..Default::default()
    };
    let r = Comment::update(update, other.id, &mut context);
    assert_eq!(r.err(), Some(BackendError::UniqueViolation));
    assert_eq!(format!("{:?}", context), before);
    let same = DbCommentUpdateForm {
        ap_id: Some(url("https://remote.com/comment/2")),
        ..Default::default()
    };
    assert!(Comment::update(same, other.id, &mut context).is_ok());
}

#[test]
fn an_update_writes_nothing_where_the_author_is_missing() {
    let mut context = context();
    let mut orphan = form("https://remote.com/comment/1", "one", 10);
    orphan.creator_id = PersonId(99);
    let stored = Comment::create(orphan, &mut context).unwrap();
    let before = format!("{:?}", context);
    let update = DbCommentUpdateForm { content: Some("two".to_string()), ..Default::default() };
    let r = Comment::update(update, stored.id, &mut context);
    assert_eq!(r.err(), Some(BackendError::NotFound));
    assert_eq!(format!("{:?}", context), before);
}

#[test]
fn a_comment_is_read_by_either_identifier() {
    let mut context = context();
    Comment::create(form("https://remote.com/comment/1", "one", 10), &mut context).unwrap();
    Comment::create(form("https://remote.com/comment/2", "two", 20), &mut context).unwrap();
    assert_eq!(Comment::read(CommentId(2), &context).unwrap().content, "two");
    assert_eq!(Comment::read(CommentId(3), &context).err(), Some(BackendError::NotFound));
    let by_ap_id =
        Comment::read_from_ap_id(&url("https://remote.com/comment/1"), &context).unwrap();
    assert_eq!(by_ap_id.id, CommentId(1));
    assert_eq!(
        Comment::read_from_ap_id(&url("https://remote.com/comment/3"), &context).err(),
        Some(BackendError::NotFound)
    );
}

#[test]
fn a_deleted_comment_is_shown_without_content() {
    let mut context = context();
    let parent =
        Comment::create(form("https://remote.com/comment/1", "one", 10), &mut context)
            .unwrap();
    let mut reply = form("https://remote.com/comment/2", "secret", 20);
    reply.parent_id = Some(parent.id);
    reply.depth = 1;
    reply.deleted = true;
    let stored = Comment::create(reply, &mut context).unwrap();
    let view = Comment::read_view(stored.id, &context).unwrap();
    assert_eq!(view.comment.content, "");
    assert!(view.comment.deleted);
    assert_eq!(view.comment.id, stored.id);
    assert_eq!(view.comment.parent_id, Some(parent.id));
    assert_eq!(view.comment.depth, 1);
    assert_eq!(view.comment.ap_id.text, "https://remote.com/comment/2");
    assert_eq!(view.creator.username, "alice");
    assert_eq!(view.article.title, "Main Page");
    assert_eq!(context.comments[1].content, "secret");
    assert_eq!(Comment::read(stored.id, &context).unwrap().content, "secret");
}

#[test]
fn a_comment_that_is_not_deleted_is_shown_as_it_is() {
    let mut context = context();
    let stored =
        Comment::create(form("https://remote.com/comment/1", "one", 10), &mut context)
            .unwrap();
    let view = Comment::read_view(stored.id, &context).unwrap();
    assert_eq!(view.comment.content, "one");
    let shown = redact(&stored);
    assert_eq!(shown.content, "one");
}

#[test]
fn a_view_needs_the_comment_its_author_and_its_article() {
    let mut context = context();
    assert_eq!(Comment::read_view(CommentId(1), &context).err(), Some(BackendError::NotFound));
    let mut orphan = form("https://remote.com/comment/1", "one", 10);
    orphan.creator_id = PersonId(99);
    let a = Comment::create(orphan, &mut context).unwrap();
    assert_eq!(Comment::read_view(a.id, &context).err(), Some(BackendError::NotFound));
    let mut stray = form("https://remote.com/comment/2", "two", 20);
    stray.article_id = ArticleId(99);
    let b = Comment::create(stray, &mut context).unwrap();
    assert_eq!(Comment::read_view(b.id, &context).err(), Some(BackendError::NotFound));
}

#[test]
fn the_comments_of_an_article_come_newest_first() {
    let mut context = context();
    Comment::create(form("https://remote.com/comment/1", "first", 10), &mut context).unwrap();
    Comment::create(form("https://remote.com/comment/2", "third", 30), &mut context).unwrap();
    let mut gone = form("https://remote.com/comment/3", "second", 20);
    gone.deleted = true;
    Comment::create(gone, &mut context).unwrap();
    let mut elsewhere = form("https://remote.com/comment/4", "other article", 40);
    elsewhere.article_id = ArticleId(2);
    Comment::create(elsewhere, &mut context).unwrap();
    let mut orphan = form("https://remote.com/comment/5", "no author", 50);
    orphan.creator_id = PersonId(99);
    Comment::create(orphan, &mut context).unwrap();

    let list = Comment::read_for_article(ArticleId(1), &context).unwrap();
    let shown: Vec<(i64, &str, i32)> = list
        .iter()
        .map(|v| (v.comment.published, v.comment.content.as_str(), v.comment.id.0))
        .collect();
    assert_eq!(shown, vec![(30, "third", 2), (20, "", 3), (10, "first", 1)]);
    assert!(list.iter().all(|v| v.creator.username == "alice"));
    assert_eq!(context.comments[2].content, "second");
    assert!(Comment::read_for_article(ArticleId(3), &context).unwrap().is_empty());
}

#[test]
fn comments_of_the_same_moment_keep_the_order_of_the_table() {
    let mut context = context();
    for (n, published) in [(1, 20), (2, 10), (3, 20), (4, 30), (5, 20), (6, 10)] {
        let ap_id = format!("https://remote.com/comment/{n}");
        Comment::create(form(&ap_id, "text", published), &mut context).unwrap();
    }
    let list = Comment::read_for_article(ArticleId(1), &context).unwrap();
    let shown: Vec<(i64, i32)> =
        list.iter().map(|v| (v.comment.published, v.comment.id.0)).collect();
    assert_eq!(shown, vec![(30, 4), (20, 1), (20, 3), (20, 5), (10, 2), (10, 6)]);
}

#[test]
fn a_store_written_by_hand_is_checked() {
    let mut context = context();
    Comment::create(form("https://remote.com/comment/1", "one", 10), &mut context).unwrap();
    assert!(context.is_well_formed());
    let copy = context.comments[0].clone();
    context.comments.push(copy);
    assert!(!context.is_well_formed());
    context.comments[1].id = CommentId(2);
    context.comments[1].ap_id = url("https://remote.com/comment/2");
    assert!(!context.is_well_formed());
    context.next_comment_id = 3;
    assert!(context.is_well_formed());
    context.comments[1].ap_id = url("https://remote.com/comment/1");
    assert!(!context.is_well_formed());
    context.comments[1].ap_id = url("https://remote.com/comment/3");
    assert!(context.is_well_formed());
    context.comments[0].id = CommentId(0);
    assert!(!context.is_well_formed());
}
