//! Comments as documents: placing an inbound comment in the tree of its
//! article, and writing a stored comment out.

use crate::comment_store::{DbCommentInsertForm, found};
use crate::context::{
    comment_ap_ids, comment_ids, find_article, find_article_by_ap_id, find_comment,
    find_comment_by_ap_id, find_person, find_person_by_ap_id, lemma_first_index_is,
    lemma_first_index_push_found, IbisContext, Store,
};
use crate::db_url::{clone_urls, DbUrl};
use crate::error::{BackendError, BackendResult};
use crate::kinds::{public, public_parts, MediaTypeMarkdown, MediaTypeMarkdownOrHtml, NoteType};
use crate::markdown::{comment_markup, render_comment_markdown};
use crate::newtypes::{ArticleId, CommentId, PersonId};
use crate::records::{Article, Comment, Person};
use crate::time::now_micros;
use crate::validate::{
    depth_allowed, object_verified, validate_comment_max_depth, verify_object_id,
};
use vstd::prelude::*;

verus! {

/// The text as its author wrote it.
#[derive(Debug)]
pub struct Source {
    pub content: String,
    pub media_type: MediaTypeMarkdown,
}

impl Source {
    /// A source field that holds a Markdown text.
    pub fn new(content: String) -> (source: Source)
        ensures
            source.content == content,
            source.media_type == MediaTypeMarkdown::Markdown,
    {
        Source { content, media_type: MediaTypeMarkdown::Markdown }
    }
}

/// A comment as instances send it to each other.
#[derive(Debug)]
pub struct ApubComment {
    pub kind: NoteType,
    pub id: DbUrl,
    pub attributed_to: DbUrl,
    pub to: Vec<DbUrl>,
    pub content: String,
    pub in_reply_to: DbUrl,
    pub published: Option<i64>,
    pub updated: Option<i64>,
    pub media_type: Option<MediaTypeMarkdownOrHtml>,
    pub source: Option<Source>,
}

/// A stored comment in its role as a federated object.
#[derive(Debug)]
pub struct CommentWrapper(pub Comment);

/// What a comment answers: an article, or another comment.
#[derive(Debug)]
pub enum DbArticleOrComment {
    Left(Article),
    Right(Comment),
}

impl Clone for Source {
    fn clone(&self) -> (r: Self)
        ensures
            r == *self,
    {
        Source { content: self.content.clone(), media_type: self.media_type }
    }
}

impl Clone for ApubComment {
    fn clone(&self) -> (r: Self)
        ensures
            r.kind == self.kind,
            r.id == self.id,
            r.attributed_to == self.attributed_to,
            r.to@ == self.to@,
            r.content == self.content,
            r.in_reply_to == self.in_reply_to,
            r.published == self.published,
            r.updated == self.updated,
            r.media_type == self.media_type,
            r.source == self.source,
    {
        ApubComment {
            kind: self.kind,
            id: self.id.clone(),
            attributed_to: self.attributed_to.clone(),
            to: clone_urls(&self.to),
            content: self.content.clone(),
            in_reply_to: self.in_reply_to.clone(),
            published: self.published,
            updated: self.updated,
            media_type: self.media_type,
            source: match &self.source {
                Some(s) => Some(s.clone()),
                None => None,
            },
        }
    }
}

impl Clone for CommentWrapper {
    fn clone(&self) -> (r: Self)
        ensures
            r == *self,
    {
        CommentWrapper(self.0.clone())
    }
}

impl std::ops::Deref for CommentWrapper {
    type Target = Comment;

    fn deref(&self) -> (c: &Comment)
        ensures
            *c == self.0,
    {
        &self.0
    }
}

impl From<Comment> for CommentWrapper {
    fn from(value: Comment) -> (w: Self) {
        CommentWrapper(value)
    }
}

impl vstd::std_specs::convert::FromSpecImpl<Comment> for CommentWrapper {
    open spec fn obeys_from_spec() -> bool {
        true
    }

    open spec fn from_spec(value: Comment) -> Self {
        CommentWrapper(value)
    }
}

/// The article that a comment under this parent belongs to.
pub open spec fn article_of(parent: DbArticleOrComment) -> ArticleId {
    match parent {
        DbArticleOrComment::Left(a) => a.id,
        DbArticleOrComment::Right(c) => c.article_id,
    }
}

/// The parent comment of a comment under this parent: none directly under the article.
pub open spec fn parent_of(parent: DbArticleOrComment) -> Option<CommentId> {
    match parent {
        DbArticleOrComment::Left(_) => None,
        DbArticleOrComment::Right(c) => Some(c.id),
    }
}

/// The depth of a comment under this parent: 0 directly under the article,
/// else one more than the parent's.
pub open spec fn depth_under(parent: DbArticleOrComment) -> int {
    match parent {
        DbArticleOrComment::Left(_) => 0,
        DbArticleOrComment::Right(c) => c.depth + 1,
    }
}

/// The text of a comment document as its author wrote it: the source where the
/// document carries one, else the content.
pub open spec fn authored_text(json: ApubComment) -> String {
    match json.source {
        Some(s) => s.content,
        None => json.content,
    }
}

/// The row that an inbound comment document asks for, or `MaxDepthExceeded`
/// where it would sit deeper than `max_depth`.
pub open spec fn comment_form_of(
    json: ApubComment,
    parent: DbArticleOrComment,
    creator_id: PersonId,
    now: i64,
    max_depth: i32,
) -> BackendResult<DbCommentInsertForm> {
    if depth_under(parent) > max_depth {
        Err(BackendError::MaxDepthExceeded)
    } else {
        Ok(
            DbCommentInsertForm {
                creator_id,
                article_id: article_of(parent),
                parent_id: parent_of(parent),
                content: authored_text(json),
                depth: depth_under(parent) as i32,
                ap_id: json.id,
                local: false,
                deleted: false,
                published: match json.published {
                    Some(t) => t,
                    None => now,
                },
                updated: json.updated,
            },
        )
    }
}

impl Store {
    /// What a canonical identifier refers to as the parent of a comment: the
    /// article that has it, else the comment that has it.
    pub open spec fn parent(self, text: Seq<char>) -> Option<DbArticleOrComment> {
        match self.article_by_ap_id(text) {
            Some(a) => Some(DbArticleOrComment::Left(a)),
            None => match self.comment_by_ap_id(text) {
                Some(c) => Some(DbArticleOrComment::Right(c)),
                None => None,
            },
        }
    }

    /// The row that an inbound comment document asks for. Fails with `NotFound`
    /// where its parent is not stored; else with `MaxDepthExceeded` where it
    /// would sit too deep, whoever wrote it; else with `NotFound` where its
    /// author is not stored.
    pub open spec fn inbound_comment(self, json: ApubComment, now: i64) -> BackendResult<
        DbCommentInsertForm,
    > {
        match self.parent(json.in_reply_to.text@) {
            None => Err(BackendError::NotFound),
            Some(parent) => if depth_under(parent) > self.max_comment_depth {
                Err(BackendError::MaxDepthExceeded)
            } else {
                match self.person_by_ap_id(json.attributed_to.text@) {
                    None => Err(BackendError::NotFound),
                    Some(creator) => comment_form_of(
                        json,
                        parent,
                        creator.id,
                        now,
                        self.max_comment_depth,
                    ),
                }
            },
        }
    }

    /// The store after an inbound comment document is taken in at the time
    /// `now`, and the row that it made. A document that is refused writes nothing.
    pub open spec fn receive_comment(self, json: ApubComment, now: i64) -> (
        Store,
        BackendResult<Comment>,
    ) {
        match self.inbound_comment(json, now) {
            Ok(form) => self.create_comment(form),
            Err(e) => (self, Err(e)),
        }
    }

    /// The canonical identifier of what a comment answers: its parent
    /// comment's, or without a parent its article's.
    pub open spec fn reply_target(self, c: Comment) -> BackendResult<DbUrl> {
        match c.parent_id {
            Some(p) => match self.comment(p) {
                Some(parent) => Ok(parent.ap_id),
                None => Err(BackendError::NotFound),
            },
            None => match self.article(c.article_id) {
                Some(a) => Ok(a.ap_id),
                None => Err(BackendError::NotFound),
            },
        }
    }

    /// What the document of a comment is made from: its author and the
    /// identifier of what it answers. `NotFound` where the author, the parent
    /// comment or, without a parent, the article is not stored.
    pub open spec fn comment_json_parts(self, c: Comment) -> BackendResult<(Person, DbUrl)> {
        match self.person(c.creator_id) {
            None => Err(BackendError::NotFound),
            Some(creator) => match self.reply_target(c) {
                Err(e) => Err(e),
                Ok(target) => Ok((creator, target)),
            },
        }
    }
}

impl Store {
    /// Whether a comment sits where the tree allows: at depth 0 directly
    /// under its article, else one deeper than its parent, which is stored;
    /// and no deeper than the configured maximum.
    pub open spec fn depth_holds(self, c: Comment) -> bool {
        &&& 0 <= c.depth <= self.max_comment_depth
        &&& match c.parent_id {
            None => c.depth == 0,
            Some(p) => match self.comment(p) {
                Some(parent) => c.depth == parent.depth + 1,
                None => false,
            },
        }
    }

    /// Whether every stored comment sits where the tree allows.
    pub open spec fn depths_hold(self) -> bool {
        forall|i: int| 0 <= i < self.comments.len() ==> self.depth_holds(#[trigger] self.comments[i])
    }
}

/// The rule of depths. A comment directly under an article is placed at depth
/// 0 without a parent, a comment under another comment one deeper than that
/// one and with it as parent; and the placement is refused with
/// `MaxDepthExceeded` exactly where that depth is greater than the maximum.
pub proof fn lemma_depth_rule(
    json: ApubComment,
    parent: DbArticleOrComment,
    creator_id: PersonId,
    now: i64,
    max_depth: i32,
)
    ensures
        match comment_form_of(json, parent, creator_id, now, max_depth) {
            Ok(form) => {
                &&& depth_under(parent) <= max_depth
                &&& form.depth == depth_under(parent)
                &&& match parent {
                    DbArticleOrComment::Left(a) => form.depth == 0 && form.parent_id is None
                        && form.article_id == a.id,
                    DbArticleOrComment::Right(c) => form.depth == c.depth + 1 && form.parent_id
                        == Some(c.id) && form.article_id == c.article_id,
                }
            },
            Err(e) => e == BackendError::MaxDepthExceeded && depth_under(parent) > max_depth,
        },
{
}

impl Store {
    /// Whether a comment has replies among the stored comments.
    pub open spec fn has_replies(self, id: CommentId) -> bool {
        exists|i: int|
            0 <= i < self.comments.len() && (#[trigger] self.comments[i]).parent_id == Some(id)
    }

    /// Whether a row that an inbound comment asks for leaves the stored
    /// comments in their places. A new comment always does. One that replaces
    /// a stored comment does unless it makes the comment its own parent, or
    /// moves a comment that has replies to another depth.
    pub open spec fn keeps_places(self, form: DbCommentInsertForm) -> bool {
        match self.comment_conflict(form.ap_id.text@) {
            None => true,
            Some(k) => {
                &&& form.parent_id != Some(self.comments[k].id)
                &&& form.depth == self.comments[k].depth || !self.has_replies(self.comments[k].id)
            },
        }
    }
}

/// The invariant of depths. Where every stored comment sits where the tree
/// allows, it still does after a comment document was taken in, provided
/// that the document does not make a stored comment its own parent or move a
/// stored comment that has replies to another depth.
pub proof fn lemma_receive_comment_keeps_depths(store: Store, json: ApubComment, now: i64)
    requires
        store.wf(),
        store.depths_hold(),
        store.inbound_comment(json, now) matches Ok(form) ==> store.keeps_places(form),
    ensures
        store.receive_comment(json, now).0.depths_hold(),
{
    let next = store.receive_comment(json, now).0;
    if store.receive_comment(json, now).1 is Ok {
        let form = store.inbound_comment(json, now)->Ok_0;
        let parent = store.parent(json.in_reply_to.text@)->0;
        let row = store.receive_comment(json, now).1->Ok_0;
        let ids = comment_ids(store.comments);
        let keys = comment_ap_ids(store.comments);
        let at: int = match store.comment_conflict(form.ap_id.text@) {
            Some(k) => {
                keys.index_of_first_ensures(json.id.text@);
                assert(comment_ids(next.comments) =~= ids);
                k
            },
            None => {
                assert(comment_ids(next.comments) =~= ids.push(row.id));
                store.comments.len() as int
            },
        };
        assert(next.comments[at] == row);
        assert forall|i: int| 0 <= i < next.comments.len() implies next.depth_holds(
            #[trigger] next.comments[i],
        ) by {
            let c = next.comments[i];
            if i != at {
                assert(c == store.comments[i]);
                assert(store.depth_holds(c));
                if c.parent_id is Some {
                    let p = c.parent_id->0;
                    ids.index_of_first_ensures(p);
                    let pi = ids.index_of_first(p)->0;
                    if at == store.comments.len() {
                        lemma_first_index_push_found(ids, p, row.id);
                    }
                    if pi == at {
                        assert(store.comments[i].parent_id == Some(store.comments[at].id));
                        assert(store.has_replies(store.comments[at].id));
                    }
                }
            } else {
                match parent {
                    DbArticleOrComment::Left(a) => {},
                    DbArticleOrComment::Right(p) => {
                        keys.index_of_first_ensures(json.in_reply_to.text@);
                        let j = keys.index_of_first(json.in_reply_to.text@)->0;
                        assert(p == store.comments[j]);
                        assert(store.depth_holds(store.comments[j]));
                        assert forall|m: int| 0 <= m < j implies ids[m] != p.id by {
                            assert(store.comments[m].id != store.comments[j].id);
                        }
                        lemma_first_index_is(ids, p.id, j);
                        if at == store.comments.len() {
                            lemma_first_index_push_found(ids, p.id, row.id);
                        } else {
                            assert(j != at);
                        }
                        assert(next.comments[j] == store.comments[j]);
                    },
                }
            }
        }
    }
}

/// Whether a comment document found the table of comments full: it asked for
/// a new row, the table has handed out its last identifier, the document is
/// refused with `IdExhausted` and nothing is written. No other input than
/// this keeps a comment with a stored parent and a stored author, at a depth
/// that is allowed, from being placed.
pub open spec fn found_no_room(store: Store, json: ApubComment, now: i64) -> bool {
    &&& store.next_comment_id == i32::MAX
    &&& store.comment_by_ap_id(json.id.text@) is None
    &&& store.receive_comment(json, now).1 == Err::<Comment, BackendError>(
        BackendError::IdExhausted,
    )
    &&& store.receive_comment(json, now).0 == store
}

/// Placement. A comment document whose parent and author are stored, and
/// whose place is no deeper than the maximum, is taken in: the row that it
/// makes sits one deeper than a parent comment, or at depth 0 under an
/// article, names that parent and its article, and is the stored row with
/// the document's identifier. The depth depends on the direct parent only.
/// The one exception is a new comment that finds the table full.
pub proof fn lemma_receive_comment_places(store: Store, json: ApubComment, now: i64)
    requires
        store.parent(json.in_reply_to.text@) is Some,
        depth_under(store.parent(json.in_reply_to.text@)->0) <= store.max_comment_depth,
        store.person_by_ap_id(json.attributed_to.text@) is Some,
    ensures
        ({
            let parent = store.parent(json.in_reply_to.text@)->0;
            let (next, r) = store.receive_comment(json, now);
            match r {
                Ok(c) => {
                    &&& c.depth == depth_under(parent)
                    &&& c.parent_id == parent_of(parent)
                    &&& c.article_id == article_of(parent)
                    &&& c.creator_id == store.person_by_ap_id(json.attributed_to.text@)->0.id
                    &&& next.comment_by_ap_id(json.id.text@) == Some(c)
                },
                Err(_) => found_no_room(store, json, now),
            }
        }),
{
    if store.receive_comment(json, now).1 is Ok {
        let form = store.inbound_comment(json, now)->Ok_0;
        let at = crate::comment_store::lemma_upserted_comment_at(store, form);
    }
}

/// Placement under an article. A comment document that answers a stored
/// article, by a stored author, where the maximum depth is not negative, is
/// taken in at depth 0, without a parent and under that article, and is the
/// stored row with its identifier. The one exception is a new comment that
/// finds the table full.
pub proof fn lemma_comment_under_article_is_placed(
    store: Store,
    json: ApubComment,
    now: i64,
    article: Article,
)
    requires
        store.parent(json.in_reply_to.text@) == Some(DbArticleOrComment::Left(article)),
        store.person_by_ap_id(json.attributed_to.text@) is Some,
        store.max_comment_depth >= 0,
    ensures
        ({
            let (next, r) = store.receive_comment(json, now);
            match r {
                Ok(c) => {
                    &&& c.depth == 0
                    &&& c.parent_id is None
                    &&& c.article_id == article.id
                    &&& next.comment_by_ap_id(json.id.text@) == Some(c)
                },
                Err(_) => found_no_room(store, json, now),
            }
        }),
{
    lemma_receive_comment_places(store, json, now);
}

/// Placement under a comment. A comment document that answers a stored
/// comment whose depth is below the maximum, by a stored author, is taken in
/// one deeper than that comment, with it as parent and under its article.
/// The one exception is a new comment that finds the table full.
pub proof fn lemma_reply_is_placed(store: Store, json: ApubComment, now: i64, parent: Comment)
    requires
        store.parent(json.in_reply_to.text@) == Some(DbArticleOrComment::Right(parent)),
        parent.depth + 1 <= store.max_comment_depth,
        store.person_by_ap_id(json.attributed_to.text@) is Some,
    ensures
        ({
            let (next, r) = store.receive_comment(json, now);
            match r {
                Ok(c) => {
                    &&& c.depth == parent.depth + 1
                    &&& c.parent_id == Some(parent.id)
                    &&& c.article_id == parent.article_id
                    &&& next.comment_by_ap_id(json.id.text@) == Some(c)
                },
                Err(_) => found_no_room(store, json, now),
            }
        }),
{
    lemma_receive_comment_places(store, json, now);
}

/// Refusal before the author. A comment document whose stored parent is too
/// deep is refused with `MaxDepthExceeded`, whether its author is stored or
/// not, and nothing is written.
pub proof fn lemma_too_deep_is_refused_first(store: Store, json: ApubComment, now: i64)
    requires
        store.parent(json.in_reply_to.text@) is Some,
        depth_under(store.parent(json.in_reply_to.text@)->0) > store.max_comment_depth,
    ensures
        store.receive_comment(json, now).1 == Err::<Comment, BackendError>(
            BackendError::MaxDepthExceeded,
        ),
        store.receive_comment(json, now).0 == store,
{
}

/// Idempotence of receipt. Where a comment document was taken in, a document
/// with the same canonical identifier that is taken in afterwards adds no
/// row: the one row with that identifier keeps its identifier and takes the
/// fields that the later document asks for.
pub proof fn lemma_receive_comment_twice(
    store: Store,
    first: ApubComment,
    second: ApubComment,
    earlier: i64,
    later: i64,
)
    requires
        store.wf(),
        first.id.text@ == second.id.text@,
        store.receive_comment(first, earlier).1 is Ok,
        store.receive_comment(first, earlier).0.inbound_comment(second, later) is Ok,
    ensures
        ({
            let stored = store.receive_comment(first, earlier).1->Ok_0;
            let once = store.receive_comment(first, earlier).0;
            let form = once.inbound_comment(second, later)->Ok_0;
            let (twice, again) = once.receive_comment(second, later);
            &&& again == Ok::<Comment, BackendError>(crate::comment_store::comment_row(stored.id, form))
            &&& twice.comments.len() == once.comments.len()
            &&& twice.comment_by_ap_id(second.id.text@) == Some(
                crate::comment_store::comment_row(stored.id, form),
            )
        }),
{
    let form1 = store.inbound_comment(first, earlier)->Ok_0;
    let once = store.receive_comment(first, earlier).0;
    let form2 = once.inbound_comment(second, later)->Ok_0;
    crate::comment_store::lemma_create_comment_twice(store, form1, form2);
}

/// Whether a document is the one that a comment is written out as.
pub open spec fn is_comment_json(
    json: ApubComment,
    c: Comment,
    creator: Person,
    in_reply_to: DbUrl,
) -> bool {
    &&& json.kind == NoteType::Note
    &&& json.id == c.ap_id
    &&& json.attributed_to == creator.ap_id
    &&& json.to@.len() == 1
    &&& json.to@[0]@ == public_parts()
    &&& json.content@ == shown_markup(c)
    &&& json.in_reply_to == in_reply_to
    &&& json.published == Some(c.published)
    &&& json.updated == c.updated
    &&& json.media_type == Some(MediaTypeMarkdownOrHtml::Html)
    &&& if c.deleted {
        json.source is None
    } else {
        json.source matches Some(s) && s.content == c.content && s.media_type
            == MediaTypeMarkdown::Markdown
    }
}

/// The content of the document that a comment is written out as: nothing
/// for a comment marked deleted, else the stored text rendered as HTML.
pub open spec fn shown_markup(c: Comment) -> Seq<char> {
    if c.deleted {
        Seq::<char>::empty()
    } else {
        comment_markup(c.content@)
    }
}

/// Accepts the place of a comment under this parent where it is no deeper
/// than `max_depth`, and refuses it with `MaxDepthExceeded` else. Nothing but
/// the parent is needed for this.
pub fn verify_placement(parent: &DbArticleOrComment, max_depth: i32) -> (r: BackendResult<()>)
    ensures
        r == depth_allowed(depth_under(*parent), max_depth as int),
{
    match parent {
        DbArticleOrComment::Left(_) => validate_comment_max_depth(0, max_depth),
        DbArticleOrComment::Right(comment) => {
            if comment.depth == i32::MAX {
                Err(BackendError::MaxDepthExceeded)
            } else {
                validate_comment_max_depth(comment.depth + 1, max_depth)
            }
        },
    }
}

/// The row that an inbound comment document asks for, once its parent and its
/// author have been resolved. The comment sits at depth 0 directly under an
/// article, else one deeper than its parent; `MaxDepthExceeded` where that is
/// more than `max_depth`. The time `now` stands in where the document does not
/// say when it was published.
pub fn comment_form(
    json: &ApubComment,
    parent: &DbArticleOrComment,
    creator_id: PersonId,
    now: i64,
    max_depth: i32,
) -> (r: BackendResult<DbCommentInsertForm>)
    ensures
        r == comment_form_of(*json, *parent, creator_id, now, max_depth),
{
    let (article_id, parent_id, depth) = match parent {
        DbArticleOrComment::Left(article) => (article.id, None, 0i32),
        DbArticleOrComment::Right(comment) => {
            if comment.depth == i32::MAX {
                return Err(BackendError::MaxDepthExceeded);
            }
            (comment.article_id, Some(comment.id), comment.depth + 1)
        },
    };
    match validate_comment_max_depth(depth, max_depth) {
        Ok(()) => {},
        Err(e) => {
            return Err(e);
        },
    }
    let content = match &json.source {
        Some(s) => s.content.clone(),
        None => json.content.clone(),
    };
    Ok(
        DbCommentInsertForm {
            creator_id,
            article_id,
            parent_id,
            content,
            depth,
            ap_id: json.id.clone(),
            local: false,
            deleted: false,
            published: match json.published {
                Some(t) => t,
                None => now,
            },
            updated: json.updated,
        },
    )
}

/// The document that a comment is written out as, once its author and what
/// it answers have been looked up: addressed to everybody, its content
/// rendered as HTML, the text as written in the source field. Of a comment
/// marked deleted the document holds neither: its content is empty and it
/// has no source.
pub fn comment_json(comment: Comment, creator: &Person, in_reply_to: DbUrl) -> (json: ApubComment)
    ensures
        is_comment_json(json, comment, *creator, in_reply_to),
{
    let mut to: Vec<DbUrl> = Vec::new();
    to.push(public());
    let (content, source) = if comment.deleted {
        (String::new(), None)
    } else {
        (render_comment_markdown(comment.content.as_str()), Some(Source::new(comment.content)))
    };
    ApubComment {
        kind: NoteType::Note,
        id: comment.ap_id,
        attributed_to: creator.ap_id.clone(),
        to,
        content,
        in_reply_to,
        published: Some(comment.published),
        updated: comment.updated,
        media_type: Some(MediaTypeMarkdownOrHtml::Html),
        source,
    }
}

/// Redaction in what is sent. The document that a deleted comment is written
/// out as has no content and no source, and carries the comment's own
/// identifier, author, reply target and times, as the document of a comment
/// that is not deleted does.
pub proof fn lemma_deleted_comment_is_written_out_empty(
    json: ApubComment,
    c: Comment,
    creator: Person,
    in_reply_to: DbUrl,
)
    requires
        is_comment_json(json, c, creator, in_reply_to),
        c.deleted,
    ensures
        json.content@.len() == 0,
        json.source is None,
        json.id == c.ap_id,
        json.in_reply_to == in_reply_to,
        json.attributed_to == creator.ap_id,
        json.published == Some(c.published),
        json.updated == c.updated,
{
}

/// Writing out. A stored comment whose author and whose parent comment, or
/// without a parent whose article, are stored is written out: under its own
/// identifier, in reply to the parent comment or the article, and without
/// its text where it is marked deleted.
pub proof fn lemma_stored_comment_is_written_out(store: Store, c: Comment)
    requires
        store.person(c.creator_id) is Some,
        match c.parent_id {
            Some(p) => store.comment(p) is Some,
            None => store.article(c.article_id) is Some,
        },
    ensures
        store.comment_json_parts(c) matches Ok((creator, target)) && {
            &&& creator == store.person(c.creator_id)->0
            &&& target == match c.parent_id {
                Some(p) => store.comment(p)->0.ap_id,
                None => store.article(c.article_id)->0.ap_id,
            }
            &&& forall|json: ApubComment|
                is_comment_json(json, c, creator, target) ==> {
                    &&& json.id == c.ap_id
                    &&& json.in_reply_to == target
                    &&& c.deleted ==> json.content@.len() == 0 && json.source is None
                }
        },
{
}

/// What a canonical identifier refers to as the parent of a comment.
pub fn resolve_parent(in_reply_to: &DbUrl, context: &IbisContext) -> (r: BackendResult<
    DbArticleOrComment,
>)
    ensures
        r == found(context@.parent(in_reply_to.text@)),
{
    match find_article_by_ap_id(&context.articles, &in_reply_to.text) {
        Some(a) => Ok(DbArticleOrComment::Left(context.articles[a].clone())),
        None => match find_comment_by_ap_id(&context.comments, &in_reply_to.text) {
            Some(c) => Ok(DbArticleOrComment::Right(context.comments[c].clone())),
            None => Err(BackendError::NotFound),
        },
    }
}

impl CommentWrapper {
    /// The stored comment with this canonical identifier, if there is one.
    pub fn read_from_id(object_id: DbUrl, context: &IbisContext) -> (r: BackendResult<
        Option<CommentWrapper>,
    >)
        ensures
            r matches Ok(found) && match found {
                Some(w) => context@.comment_by_ap_id(object_id.text@) == Some(w.0),
                None => context@.comment_by_ap_id(object_id.text@) is None,
            },
    {
        match Comment::read_from_ap_id(&object_id, context) {
            Ok(c) => Ok(Some(CommentWrapper(c))),
            Err(_) => Ok(None),
        }
    }

    /// Writes the comment out as a document: addressed to everybody, its
    /// content rendered as HTML, the text as written in the source field. A
    /// comment marked deleted is written out without its text: the content
    /// is empty and there is no source, while identifier, author, reply
    /// target and times are as for any other comment. Fails with `NotFound`
    /// where the author or what the comment answers is not stored.
    pub fn into_json(self, context: &IbisContext) -> (r: BackendResult<ApubComment>)
        ensures
            match (r, context@.comment_json_parts(self.0)) {
                (Ok(json), Ok((creator, target))) => is_comment_json(
                    json,
                    self.0,
                    creator,
                    target,
                ),
                (Err(e), Err(f)) => e == f,
                _ => false,
            },
    {
        let comment = self.0;
        let creator = match find_person(&context.persons, comment.creator_id) {
            Some(p) => &context.persons[p],
            None => {
                return Err(BackendError::NotFound);
            },
        };
        let in_reply_to = match comment.parent_id {
            Some(parent_id) => match find_comment(&context.comments, parent_id) {
                Some(k) => context.comments[k].ap_id.clone(),
                None => {
                    return Err(BackendError::NotFound);
                },
            },
            None => match find_article(&context.articles, comment.article_id) {
                Some(a) => context.articles[a].ap_id.clone(),
                None => {
                    return Err(BackendError::NotFound);
                },
            },
        };
        Ok(comment_json(comment, creator, in_reply_to))
    }

    /// Accepts a comment document whose identifier shares the expected domain
    /// and belongs to another instance.
    pub fn verify(json: &ApubComment, expected_domain: &DbUrl, context: &IbisContext) -> (r:
        BackendResult<()>)
        ensures
            r == object_verified(json.id@, expected_domain@, context@.domain),
    {
        verify_object_id(&json.id, expected_domain, &context.conf.federation.domain)
    }

    /// Takes in a comment document at the time `now`: resolves its parent
    /// among the stored records, refuses a place that is too deep before it
    /// looks for the author, resolves the author, and stores the comment by
    /// upsert. A document that is refused writes nothing.
    pub fn from_json_at(json: &ApubComment, now: i64, context: &mut IbisContext) -> (r:
        BackendResult<CommentWrapper>)
        requires
            old(context)@.wf(),
        ensures
            final(context)@.wf(),
            final(context)@ == old(context)@.receive_comment(*json, now).0,
            match (r, old(context)@.receive_comment(*json, now).1) {
                (Ok(w), Ok(c)) => w.0 == c,
                (Err(e), Err(f)) => e == f,
                _ => false,
            },
    {
        let parent = match resolve_parent(&json.in_reply_to, context) {
            Ok(p) => p,
            Err(e) => {
                return Err(e);
            },
        };
        match verify_placement(&parent, context.conf.max_comment_depth) {
            Ok(()) => {},
            Err(e) => {
                return Err(e);
            },
        }
        let creator_id = match find_person_by_ap_id(&context.persons, &json.attributed_to.text) {
            Some(p) => context.persons[p].id,
            None => {
                return Err(BackendError::NotFound);
            },
        };
        let form = match comment_form(
            json,
            &parent,
            creator_id,
            now,
            context.conf.max_comment_depth,
        ) {
            Ok(f) => f,
            Err(e) => {
                return Err(e);
            },
        };
        match Comment::create(form, context) {
            Ok(c) => Ok(CommentWrapper(c)),
            Err(e) => Err(e),
        }
    }

    /// Takes in a comment document now: as [`CommentWrapper::from_json_at`] at
    /// the time that the clock gives. The time matters only where the document
    /// does not say when it was published.
    pub fn from_json(json: ApubComment, context: &mut IbisContext) -> (r: BackendResult<
        CommentWrapper,
    >)
        requires
            old(context)@.wf(),
        ensures
            final(context)@.wf(),
            exists|now: i64|
                {
                    &&& now >= 0
                    &&& final(context)@ == (#[trigger] old(context)@.receive_comment(json, now)).0
                    &&& match (r, old(context)@.receive_comment(json, now).1) {
                        (Ok(w), Ok(c)) => w.0 == c,
                        (Err(e), Err(f)) => e == f,
                        _ => false,
                    }
                },
            json.published is Some ==> {
                &&& final(context)@ == old(context)@.receive_comment(json, 0).0
                &&& match (r, old(context)@.receive_comment(json, 0).1) {
                    (Ok(w), Ok(c)) => w.0 == c,
                    (Err(e), Err(f)) => e == f,
                    _ => false,
                }
            },
    {
        let now = now_micros();
        assert(json.published is Some ==> old(context)@.receive_comment(json, now) == old(
            context,
        )@.receive_comment(json, 0));
        CommentWrapper::from_json_at(&json, now, context)
    }
}

} // verus!
