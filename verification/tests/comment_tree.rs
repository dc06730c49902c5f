use ibis_core::apub_comment::{
    comment_form, resolve_parent, verify_placement, ApubComment, CommentWrapper,
    DbArticleOrComment, Source,
};
use ibis_core::article_store::DbArticleForm;
use ibis_core::comment_store::DbCommentInsertForm;
use ibis_core::context::{IbisConfig, IbisConfigFederation, IbisContext};
use ibis_core::db_url::DbUrl;
use ibis_core::error::BackendError;
use ibis_core::kinds::{MediaTypeMarkdown, MediaTypeMarkdownOrHtml, NoteType};
use ibis_core::newtypes::{ArticleId, CommentId, InstanceId, PersonId};
use ibis_core::records::{Article, Comment, Person};

fn url(text: &str) -> DbUrl {
    DbUrl::parse(text).unwrap()
}

fn context(max_comment_depth: i32) -> IbisContext {
    let mut context = IbisContext::new(IbisConfig {
        federation: IbisConfigFederation { domain: "example.com".to_string() },
        https: true,
        max_comment_depth,
    });
    context.persons.push(Person {
        id: PersonId(1),
        username: "carol".to_string(),
        ap_id: url("https://remote.com/user/carol"),
        inbox_url: "https://remote.com/user/carol/inbox".to_string(),
        public_key: "key".to_string(),
        private_key: None,
        last_refreshed_at: 0,
        local: false,
    });
    let form = DbArticleForm {
        title: "Main Page".to_string(),
        text: "Hello".to_string(),
        ap_id: url("https://example.com/article/Main_Page"),
        instance_id: InstanceId(1),
        local: true,
        protected: false,
        updated: 1_000,
    };
    Article::create_or_update(form, &mut context).unwrap();
    context
}

fn note(id: &str, in_reply_to: &str, content: &str) -> ApubComment {
    ApubComment {
        kind: NoteType::Note,
        id: url(id),
        attributed_to: url("https://remote.com/user/carol"),
        to: vec![],
        content: content.to_string(),
        in_reply_to: url(in_reply_to),
        published: Some(500),
        updated: None,
        media_type: Some(MediaTypeMarkdownOrHtml::Markdown),
        source: None,
    }
}

const ARTICLE: &str = "https://example.com/article/Main_Page";

#[test]
fn a_comment_under_an_article_has_depth_zero() {
    let mut context = context(10);
    let stored = CommentWrapper::from_json_at(
        &note("https://remote.com/comment/1", ARTICLE, "hello"),
        900,
        &mut context,
    )
    .unwrap();
    assert_eq!(stored.0.depth, 0);
    assert_eq!(stored.0.parent_id, None);
    assert_eq!(stored.0.article_id, ArticleId(1));
    assert_eq!(stored.0.creator_id, PersonId(1));
    assert_eq!(stored.0.content, "hello");
    assert_eq!(stored.0.published, 500);
    assert!(!stored.0.local);
    assert!(!stored.0.deleted);
    assert_eq!(stored.0.ap_id.text, "https://remote.com/comment/1");
    assert_eq!(context.comments.len(), 1);
}

#[test]
fn a_reply_is_one_deeper_than_its_parent() {
    let mut context = context(10);
    let mut parent = "https://example.com/article/Main_Page".to_string();
    for depth in 0..4 {
        let id = format!("https://remote.com/comment/{depth}");
        let stored =
            CommentWrapper::from_json_at(&note(&id, &parent, "text"), 900, &mut context).unwrap();
        assert_eq!(stored.0.depth, depth);
        if depth > 0 {
            assert_eq!(stored.0.parent_id, Some(CommentId(depth)));
        }
        assert_eq!(stored.0.article_id, ArticleId(1));
        parent = id;
    }
}

#[test]
fn depth_ten_is_stored_and_depth_eleven_is_refused() {
    let mut context = context(10);
    let mut parent = "https://example.com/article/Main_Page".to_string();
    for depth in 0..=10 {
        let id = format!("https://remote.com/comment/{depth}");
        let stored =
            CommentWrapper::from_json_at(&note(&id, &parent, "text"), 900, &mut context).unwrap();
        assert_eq!(stored.0.depth, depth);
        parent = id;
    }
    assert_eq!(context.comments.len(), 11);
    let before = format!("{:?}", context);
    let r = CommentWrapper::from_json_at(
        &note("https://remote.com/comment/11", &parent, "too deep"),
        900,
        &mut context,
    );
    assert_eq!(r.err(), Some(BackendError::MaxDepthExceeded));
    assert_eq!(format!("{:?}", context), before);
}

#[test]
fn the_deepest_possible_parent_takes_no_reply() {
    let parent = DbArticleOrComment::Right(Comment {
        id: CommentId(1),
        creator_id: PersonId(1),
        article_id: ArticleId(1),
        parent_id: None,
        content: String::new(),
        depth: i32::MAX,
        ap_id: url("https://remote.com/comment/0"),
        local: true,
        deleted: false,
        published: 0,
        updated: None,
    });
    let json = note("https://remote.com/comment/1", ARTICLE, "text");
    let r: Result<DbCommentInsertForm, BackendError> =
        comment_form(&json, &parent, PersonId(1), 0, i32::MAX);
    assert_eq!(r.err(), Some(BackendError::MaxDepthExceeded));
}

#[test]
fn a_comment_with_unknown_parent_or_author_is_refused() {
    let mut context = context(10);
    let r = CommentWrapper::from_json_at(
        &note("https://remote.com/comment/1", "https://remote.com/comment/0", "hello"),
        900,
        &mut context,
    );
    assert_eq!(r.err(), Some(BackendError::NotFound));
    let mut stranger = note("https://remote.com/comment/1", ARTICLE, "hello");
    stranger.attributed_to = url("https://remote.com/user/dave");
    let r = CommentWrapper::from_json_at(&stranger, 900, &mut context);
    assert_eq!(r.err(), Some(BackendError::NotFound));
    assert!(context.comments.is_empty());
}

#[test]
fn the_source_is_stored_where_a_document_carries_one() {
    let mut context = context(10);
    let mut json = note("https://remote.com/comment/1", ARTICLE, "<p><em>hi</em></p>\n");
    json.media_type = Some(MediaTypeMarkdownOrHtml::Html);
    json.source = Some(Source::new("*hi*".to_string()));
    let stored = CommentWrapper::from_json_at(&json, 900, &mut context).unwrap();
    assert_eq!(stored.0.content, "*hi*");
}

#[test]
fn the_time_of_receipt_stands_in_for_a_missing_time_of_publication() {
    let mut context = context(10);
    let mut json = note("https://remote.com/comment/1", ARTICLE, "hello");
    json.published = None;
    json.updated = Some(950);
    let stored = CommentWrapper::from_json_at(&json, 900, &mut context).unwrap();
    assert_eq!(stored.0.published, 900);
    assert_eq!(stored.0.updated, Some(950));
    let now = CommentWrapper::from_json(
        note("https://remote.com/comment/2", ARTICLE, "hello"),
        &mut context,
    )
    .unwrap();
    assert_eq!(now.0.published, 500);
    let mut undated = note("https://remote.com/comment/3", ARTICLE, "hello");
    undated.published = None;
    let clocked = CommentWrapper::from_json(undated, &mut context).unwrap();
    assert!(clocked.0.published > 1_500_000_000_000_000);
}

#[test]
fn a_comment_that_arrives_twice_is_stored_once() {
    let mut context = context(10);
    let json = note("https://remote.com/comment/1", ARTICLE, "hello");
    let first = CommentWrapper::from_json_at(&json, 900, &mut context).unwrap();
    let once = format!("{:?}", context);
    let second = CommentWrapper::from_json_at(&json, 901, &mut context).unwrap();
    assert_eq!(first.0.id, second.0.id);
    assert_eq!(context.comments.len(), 1);
    assert_eq!(format!("{:?}", context), once);
}

#[test]
fn a_parent_is_an_article_or_a_comment() {
    let mut context = context(10);
    CommentWrapper::from_json_at(
        &note("https://remote.com/comment/1", ARTICLE, "hello"),
        900,
        &mut context,
    )
    .unwrap();
    assert!(matches!(
        resolve_parent(&url(ARTICLE), &context),
        Ok(DbArticleOrComment::Left(a)) if a.id == ArticleId(1)
    ));
    assert!(matches!(
        resolve_parent(&url("https://remote.com/comment/1"), &context),
        Ok(DbArticleOrComment::Right(c)) if c.id == CommentId(1)
    ));
    assert!(matches!(
        resolve_parent(&url("https://remote.com/comment/2"), &context),
        Err(BackendError::NotFound)
    ));
}

#[test]
fn a_comment_is_written_out_with_rendered_content_and_its_source() {
    let mut context = context(10);
    let parent = CommentWrapper::from_json_at(
        &note("https://remote.com/comment/1", ARTICLE, "*hi*"),
        900,
        &mut context,
    )
    .unwrap();
    let reply = CommentWrapper::from_json_at(
        &note("https://remote.com/comment/2", "https://remote.com/comment/1", "re"),
        900,
        &mut context,
    )
    .unwrap();

    let json = parent.into_json(&context).unwrap();
    assert_eq!(json.kind, NoteType::Note);
    assert_eq!(json.id.text, "https://remote.com/comment/1");
    assert_eq!(json.attributed_to.text, "https://remote.com/user/carol");
    assert_eq!(json.to.len(), 1);
    assert_eq!(json.to[0].text, "https://www.w3.org/ns/activitystreams#Public");
    assert_eq!(json.to[0].host.as_deref(), Some("www.w3.org"));
    assert_eq!(json.to[0].domain.as_deref(), Some("www.w3.org"));
    assert_eq!(json.to[0].port, None);
    assert_eq!(json.content, "<p><em>hi</em></p>\n");
    assert_eq!(json.in_reply_to.text, ARTICLE);
    assert_eq!(json.published, Some(500));
    assert_eq!(json.updated, None);
    assert_eq!(json.media_type, Some(MediaTypeMarkdownOrHtml::Html));
    let source = json.source.unwrap();
    assert_eq!(source.content, "*hi*");
    assert_eq!(source.media_type, MediaTypeMarkdown::Markdown);

    let json = reply.into_json(&context).unwrap();
    assert_eq!(json.in_reply_to.text, "https://remote.com/comment/1");
}

#[test]
fn a_deleted_comment_is_written_out_without_its_text() {
    let mut context = context(10);
    let stored = CommentWrapper::from_json_at(
        &note("https://remote.com/comment/1", ARTICLE, "*secret*"),
        900,
        &mut context,
    )
    .unwrap();
    let kept = stored.clone().into_json(&context).unwrap();
    context.comments[0].deleted = true;
    let mut deleted = stored.clone();
    deleted.0.deleted = true;
    let json = deleted.into_json(&context).unwrap();
    assert_eq!(json.content, "");
    assert!(json.source.is_none());
    assert_eq!(json.id.text, kept.id.text);
    assert_eq!(json.in_reply_to.text, kept.in_reply_to.text);
    assert_eq!(json.attributed_to.text, kept.attributed_to.text);
    assert_eq!(json.published, kept.published);
    assert_eq!(json.updated, kept.updated);
    assert_eq!(json.to[0].text, "https://www.w3.org/ns/activitystreams#Public");
    assert!(!format!("{:?}", json).contains("secret"));
    assert_eq!(context.comments[0].content, "*secret*");
    assert_eq!(kept.content, "<p><em>secret</em></p>\n");
}

#[test]
fn a_place_that_is_too_deep_is_refused_whoever_the_author_is() {
    let mut context = context(1);
    let mut parent = "https://example.com/article/Main_Page".to_string();
    for depth in 0..=1 {
        let id = format!("https://remote.com/comment/{depth}");
        CommentWrapper::from_json_at(&note(&id, &parent, "text"), 900, &mut context).unwrap();
        parent = id;
    }
    let mut stranger = note("https://remote.com/comment/2", &parent, "too deep");
    stranger.attributed_to = url("https://remote.com/user/nobody");
    let before = format!("{:?}", context);
    let r = CommentWrapper::from_json_at(&stranger, 900, &mut context);
    assert_eq!(r.err(), Some(BackendError::MaxDepthExceeded));
    assert_eq!(format!("{:?}", context), before);
    let parent_row = resolve_parent(&url(&parent), &context).unwrap();
    assert_eq!(verify_placement(&parent_row, 1), Err(BackendError::MaxDepthExceeded));
    assert_eq!(verify_placement(&parent_row, 2), Ok(()));
    let article = resolve_parent(&url(ARTICLE), &context).unwrap();
    assert_eq!(verify_placement(&article, 0), Ok(()));
    assert_eq!(verify_placement(&article, -1), Err(BackendError::MaxDepthExceeded));
}

#[test]
fn a_comment_cannot_be_written_out_without_its_references() {
    let mut context = context(10);
    let stored = CommentWrapper::from_json_at(
        &note("https://remote.com/comment/1", ARTICLE, "hello"),
        900,
        &mut context,
    )
    .unwrap();
    let mut no_author = stored.clone();
    no_author.0.creator_id = PersonId(9);
    assert_eq!(no_author.into_json(&context).err(), Some(BackendError::NotFound));
    let mut no_article = stored.clone();
    no_article.0.article_id = ArticleId(9);
    assert_eq!(no_article.into_json(&context).err(), Some(BackendError::NotFound));
    let mut no_parent = stored.clone();
    no_parent.0.parent_id = Some(CommentId(9));
    assert_eq!(no_parent.into_json(&context).err(), Some(BackendError::NotFound));
    let mut reply = stored.clone();
    reply.0.parent_id = Some(CommentId(1));
    assert_eq!(reply.into_json(&context).unwrap().in_reply_to.text, "https://remote.com/comment/1");
}

#[test]
fn a_comment_document_has_to_come_from_where_it_says() {
    let context = context(10);
    let json = note("https://remote.com/comment/1", ARTICLE, "hello");
    assert_eq!(CommentWrapper::verify(&json, &url("https://remote.com/"), &context), Ok(()));
    assert_eq!(
        CommentWrapper::verify(&json, &url("https://other.com/"), &context),
        Err(BackendError::DomainMismatch)
    );
    let local = note("https://example.com/comment/1", ARTICLE, "hello");
    assert_eq!(
        CommentWrapper::verify(&local, &url("https://example.com/"), &context),
        Err(BackendError::ObjectIsLocal)
    );
}

#[test]
fn a_stored_comment_is_found_by_its_identifier() {
    let mut context = context(10);
    CommentWrapper::from_json_at(
        &note("https://remote.com/comment/1", ARTICLE, "hello"),
        900,
        &mut context,
    )
    .unwrap();
    let found =
        CommentWrapper::read_from_id(url("https://remote.com/comment/1"), &context).unwrap();
    let found = found.unwrap();
    assert_eq!(found.id, CommentId(1));
    assert_eq!(found.content, "hello");
    let missing =
        CommentWrapper::read_from_id(url("https://remote.com/comment/2"), &context).unwrap();
    assert!(missing.is_none());
    let wrapped = CommentWrapper::from(context.comments[0].clone());
    assert_eq!(wrapped.0.id, CommentId(1));
}
