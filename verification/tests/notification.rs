use ibis_core::comment_store::DbCommentInsertForm;
use ibis_core::context::{IbisConfig, IbisConfigFederation, IbisContext};
use ibis_core::db_url::DbUrl;
use ibis_core::newtypes::{ArticleId, CommentId, PersonId};
use ibis_core::notification::notification_recipients;
use ibis_core::records::{Comment, Person};

fn url(text: &str) -> DbUrl {
    DbUrl::parse(text).unwrap()
}

fn person(id: i32, name: &str, local: bool) -> Person {
    let host = if local { "example.com" } else { "remote.com" };
    Person {
        id: PersonId(id),
        username: name.to_string(),
        ap_id: url(&format!("https://{host}/user/{name}")),
        inbox_url: format!("https://{host}/user/{name}/inbox"),
        public_key: "key".to_string(),
        private_key: None,
        last_refreshed_at: 0,
        local,
    }
}

fn context() -> IbisContext {
    let mut context = IbisContext::new(IbisConfig {
        federation: IbisConfigFederation { domain: "example.com".to_string() },
        https: true,
        max_comment_depth: 10,
    });
    context.persons.push(person(1, "alice", true));
    context.persons.push(person(2, "bob", true));
    context.persons.push(person(3, "carol", false));
    context
}

fn comment(context: &mut IbisContext, n: i32, creator: i32, parent: Option<i32>) -> Comment {
    let form = DbCommentInsertForm {
        creator_id: PersonId(creator),
        article_id: ArticleId(1),
        parent_id: parent.map(CommentId),
        content: "text".to_string(),
        depth: if parent.is_some() { 1 } else { 0 },
        ap_id: url(&format!("https://example.com/comment/{n}")),
        local: true,
        deleted: false,
        published: 10,
        updated: None,
    };
    Comment::create(form, context).unwrap()
}

#[test]
fn the_local_author_of_the_parent_is_told_of_a_reply() {
    let mut context = context();
    let first = comment(&mut context, 1, 1, None);
    let reply = comment(&mut context, 2, 2, Some(first.id.0));
    assert_eq!(reply.notification_recipients(&context), vec![PersonId(1)]);
    let alice = person(1, "alice", true);
    assert_eq!(notification_recipients(&reply, Some(&alice)), vec![PersonId(1)]);
}

#[test]
fn nobody_is_told_of_a_comment_on_the_article_itself() {
    let mut context = context();
    let first = comment(&mut context, 1, 1, None);
    assert!(first.notification_recipients(&context).is_empty());
    assert!(notification_recipients(&first, None).is_empty());
}

#[test]
fn nobody_is_told_of_their_own_reply() {
    let mut context = context();
    let first = comment(&mut context, 1, 1, None);
    let reply = comment(&mut context, 2, 1, Some(first.id.0));
    assert!(reply.notification_recipients(&context).is_empty());
}

#[test]
fn an_author_on_another_instance_is_not_told() {
    let mut context = context();
    let first = comment(&mut context, 1, 3, None);
    let reply = comment(&mut context, 2, 1, Some(first.id.0));
    assert!(reply.notification_recipients(&context).is_empty());
    let carol = person(3, "carol", false);
    assert!(notification_recipients(&reply, Some(&carol)).is_empty());
}

#[test]
fn nobody_is_told_where_the_parent_or_its_author_is_not_stored() {
    let mut context = context();
    let first = comment(&mut context, 1, 9, None);
    let reply = comment(&mut context, 2, 1, Some(first.id.0));
    assert!(reply.notification_recipients(&context).is_empty());
    let stray = comment(&mut context, 3, 1, Some(77));
    assert!(stray.notification_recipients(&context).is_empty());
}
