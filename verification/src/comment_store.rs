//! The comment table: upsert by canonical identifier, sparse update, and the
//! lookups by identifier and by canonical identifier.

use crate::context::{
    comment_ap_ids, comment_ids, find_article, find_comment, find_comment_by_ap_id, find_person,
    IbisContext, Store,
};
use crate::db_url::{url_parts, DbUrl};
use crate::error::{BackendError, BackendResult};
use crate::newtypes::{ArticleId, CommentId, PersonId};
use crate::records::{
    Comment, CommentData, CommentView, CommentViewWithArticle, CommentViewWithArticleData,
};
use crate::validate::{decimal, decimal_text};
use vstd::prelude::*;
use vstd::string::{StrSliceExecFns, StringExecFns};

verus! {

/// All that a new comment row holds but its identifier. A comment that is
/// written on this instance gets its canonical identifier only once its row
/// identifier is known: until then it is stored under the identifier that
/// [`unassigned_ap_id`] makes for it.
#[derive(Debug)]
pub struct DbCommentInsertForm {
    pub creator_id: PersonId,
    pub article_id: ArticleId,
    pub parent_id: Option<CommentId>,
    pub content: String,
    pub depth: i32,
    pub ap_id: DbUrl,
    pub local: bool,
    pub deleted: bool,
    pub published: i64,
    pub updated: Option<i64>,
}

/// The fields of a comment row that an update may change: `None` leaves a field as it is.
#[derive(Debug)]
pub struct DbCommentUpdateForm {
    pub content: Option<String>,
    pub deleted: Option<bool>,
    pub ap_id: Option<DbUrl>,
    pub updated: Option<i64>,
}

impl Default for DbCommentUpdateForm {
    fn default() -> (form: Self)
        ensures
            form.content is None,
            form.deleted is None,
            form.ap_id is None,
            form.updated is None,
    {
        DbCommentUpdateForm { content: None, deleted: None, ap_id: None, updated: None }
    }
}

/// The text of the identifier under which a comment of this instance is
/// stored until its canonical identifier is assigned.
pub open spec fn unassigned_text(id: CommentId) -> Seq<char> {
    "http://changeme.invalid/"@ + decimal(id.0 as nat)
}

/// The identifier under which a comment of this instance is stored until its
/// canonical identifier is assigned: a URL on a domain that resolves
/// nowhere, ending in the row identifier that the comment is about to get.
/// Fails with `InvalidUrl` for a negative row identifier.
pub fn unassigned_ap_id(id: CommentId) -> (r: BackendResult<DbUrl>)
    ensures
        match r {
            Ok(u) => id.0 >= 0 && Some(u@) == url_parts(unassigned_text(id)),
            Err(e) => e == BackendError::InvalidUrl && (id.0 < 0 || url_parts(
                unassigned_text(id),
            ) is None),
        },
{
    if id.0 < 0 {
        return Err(BackendError::InvalidUrl);
    }
    let text = String::from_str("http://changeme.invalid/").concat(
        decimal_text(id.0 as u32).as_str(),
    );
    DbUrl::parse(text.as_str())
}

/// Whether an identifier is one under which a comment waits for its
/// canonical identifier: its text begins as those identifiers do.
pub open spec fn unassigned(text: Seq<char>) -> bool {
    "http://changeme.invalid/"@.is_prefix_of(text)
}

/// Whether a comment with this identifier still waits for its canonical
/// identifier.
pub fn is_unassigned(ap_id: &DbUrl) -> (b: bool)
    ensures
        b == unassigned(ap_id.text@),
{
    let prefix = "http://changeme.invalid/";
    let text = ap_id.text.as_str();
    let n = prefix.unicode_len();
    if text.unicode_len() < n {
        return false;
    }
    let mut i: usize = 0;
    while i < n
        invariant
            i <= n,
            n == prefix@.len(),
            n <= text@.len(),
            prefix@ == "http://changeme.invalid/"@,
            text@ == ap_id.text@,
            forall|j: int| 0 <= j < i ==> text@[j] == prefix@[j],
        decreases n - i,
    {
        if text.get_char(i) != prefix.get_char(i) {
            assert(text@.subrange(0, n as int)[i as int] != prefix@[i as int]);
            return false;
        }
        i += 1;
    }
    assert(prefix@ =~= text@.subrange(0, n as int));
    true
}

/// Every identifier that [`unassigned_ap_id`] is made from is one under
/// which a comment waits.
pub proof fn lemma_unassigned_text(id: CommentId)
    ensures
        unassigned(unassigned_text(id)),
{
    let prefix = "http://changeme.invalid/"@;
    assert(prefix =~= unassigned_text(id).subrange(0, prefix.len() as int));
}

/// The row that a form makes under an identifier.
pub open spec fn comment_row(id: CommentId, form: DbCommentInsertForm) -> Comment {
    Comment {
        id,
        creator_id: form.creator_id,
        article_id: form.article_id,
        parent_id: form.parent_id,
        content: form.content,
        depth: form.depth,
        ap_id: form.ap_id,
        local: form.local,
        deleted: form.deleted,
        published: form.published,
        updated: form.updated,
    }
}

/// A row after a sparse update.
pub open spec fn updated_row(row: Comment, form: DbCommentUpdateForm) -> Comment {
    Comment {
        id: row.id,
        creator_id: row.creator_id,
        article_id: row.article_id,
        parent_id: row.parent_id,
        content: match form.content {
            Some(c) => c,
            None => row.content,
        },
        depth: row.depth,
        ap_id: match form.ap_id {
            Some(u) => u,
            None => row.ap_id,
        },
        local: row.local,
        deleted: match form.deleted {
            Some(d) => d,
            None => row.deleted,
        },
        published: row.published,
        updated: match form.updated {
            Some(t) => Some(t),
            None => row.updated,
        },
    }
}

/// A comment as readers are shown it: one marked deleted has no content.
pub open spec fn redacted(c: CommentData) -> CommentData {
    CommentData {
        id: c.id,
        creator_id: c.creator_id,
        article_id: c.article_id,
        parent_id: c.parent_id,
        content: if c.deleted {
            Seq::<char>::empty()
        } else {
            c.content
        },
        depth: c.depth,
        ap_id: c.ap_id,
        local: c.local,
        deleted: c.deleted,
        published: c.published,
        updated: c.updated,
    }
}

impl Store {
    /// Where the row stands that has this canonical identifier.
    pub open spec fn comment_conflict(self, text: Seq<char>) -> Option<int> {
        comment_ap_ids(self.comments).index_of_first(text)
    }

    /// The store after an upsert of a comment, and what the upsert returns. A row
    /// with the form's canonical identifier is replaced and keeps its identifier;
    /// without one the form becomes a new row under the next identifier.
    pub open spec fn create_comment(self, form: DbCommentInsertForm) -> (
        Store,
        BackendResult<Comment>,
    ) {
        match self.comment_conflict(form.ap_id.text@) {
            Some(k) => {
                let row = comment_row(self.comments[k].id, form);
                (Store { comments: self.comments.update(k, row), ..self }, Ok(row))
            },
            None => if self.next_comment_id == i32::MAX {
                (self, Err(BackendError::IdExhausted))
            } else {
                let row = comment_row(CommentId(self.next_comment_id), form);
                (
                    Store {
                        comments: self.comments.push(row),
                        next_comment_id: (self.next_comment_id + 1) as i32,
                        ..self
                    },
                    Ok(row),
                )
            },
        }
    }

    /// The store after a sparse update of the comment with this identifier, and
    /// what the update returns. An update that fails writes nothing: the
    /// author is looked up before the row is written.
    pub open spec fn update_comment(self, form: DbCommentUpdateForm, id: CommentId) -> (
        Store,
        BackendResult<CommentView>,
    ) {
        match comment_ids(self.comments).index_of_first(id) {
            None => (self, Err(BackendError::NotFound)),
            Some(k) => {
                let taken = match form.ap_id {
                    Some(u) => self.comment_conflict(u.text@),
                    None => None,
                };
                if taken is Some && taken != Some(k) {
                    (self, Err(BackendError::UniqueViolation))
                } else {
                    let row = updated_row(self.comments[k], form);
                    match self.person(row.creator_id) {
                        Some(creator) => (
                            Store { comments: self.comments.update(k, row), ..self },
                            Ok(CommentView { comment: row, creator }),
                        ),
                        None => (self, Err(BackendError::NotFound)),
                    }
                }
            },
        }
    }

    /// What a reader is shown of the comment with this identifier: the row with
    /// its author and its article, or `NotFound` where one of the three is missing.
    pub open spec fn comment_view(self, id: CommentId) -> BackendResult<
        CommentViewWithArticleData,
    > {
        match self.comment(id) {
            None => Err(BackendError::NotFound),
            Some(c) => match (self.person(c.creator_id), self.article(c.article_id)) {
                (Some(creator), Some(article)) => Ok(
                    CommentViewWithArticleData { comment: redacted(c@), creator, article },
                ),
                _ => Err(BackendError::NotFound),
            },
        }
    }
}

/// A lookup's answer as a result: `NotFound` where there is no row.
pub open spec fn found<T>(row: Option<T>) -> BackendResult<T> {
    match row {
        Some(r) => Ok(r),
        None => Err(BackendError::NotFound),
    }
}

/// The view of a result that holds a comment with its author and article.
pub open spec fn view_result(r: BackendResult<CommentViewWithArticle>) -> BackendResult<
    CommentViewWithArticleData,
> {
    match r {
        Ok(v) => Ok(v@),
        Err(e) => Err(e),
    }
}

/// An upsert keeps the comment table well formed.
pub proof fn lemma_create_comment_wf(store: Store, form: DbCommentInsertForm)
    requires
        store.wf(),
    ensures
        store.create_comment(form).0.wf(),
{
    let next = store.create_comment(form).0;
    let keys = comment_ap_ids(store.comments);
    keys.index_of_first_ensures(form.ap_id.text@);
    match keys.index_of_first(form.ap_id.text@) {
        Some(k) => {
            assert(keys[k] == store.comments[k].ap_id.text@);
            assert forall|i: int, j: int| 0 <= i < j < next.comments.len() implies (
            #[trigger] next.comments[i]).ap_id.text@ != (#[trigger] next.comments[j]).ap_id.text@ by {
                assert(next.comments[i].ap_id.text@ == store.comments[i].ap_id.text@);
                assert(next.comments[j].ap_id.text@ == store.comments[j].ap_id.text@);
            }
            assert forall|i: int, j: int| 0 <= i < j < next.comments.len() implies (
            #[trigger] next.comments[i]).id != (#[trigger] next.comments[j]).id by {
                assert(next.comments[i].id == store.comments[i].id);
                assert(next.comments[j].id == store.comments[j].id);
            }
        },
        None => {
            assert forall|i: int| 0 <= i < store.comments.len() implies (
            #[trigger] store.comments[i]).ap_id.text@ != form.ap_id.text@ by {
                assert(keys[i] == store.comments[i].ap_id.text@);
                assert(keys.contains(keys[i]));
            }
        },
    }
}

/// Where the row stands that a successful upsert wrote: it is the first row
/// with the form's canonical identifier.
pub(crate) proof fn lemma_upserted_comment_at(store: Store, form: DbCommentInsertForm) -> (at: int)
    requires
        store.create_comment(form).1 is Ok,
    ensures
        0 <= at < store.create_comment(form).0.comments.len(),
        comment_ap_ids(store.create_comment(form).0.comments).index_of_first(form.ap_id.text@)
            == Some(at),
        store.create_comment(form).0.comments[at] == store.create_comment(form).1->Ok_0,
        store.create_comment(form).0.comment_by_ap_id(form.ap_id.text@) == Some(
            store.create_comment(form).1->Ok_0,
        ),
{
    let key = form.ap_id.text@;
    let keys = comment_ap_ids(store.comments);
    let once = store.create_comment(form).0;
    match keys.index_of_first(key) {
        Some(k) => {
            keys.index_of_first_ensures(key);
            assert(comment_ap_ids(once.comments) =~= keys);
            k
        },
        None => {
            assert(comment_ap_ids(once.comments) =~= keys.push(key));
            crate::context::lemma_first_index_push_missing(keys, key, key);
            store.comments.len() as int
        },
    }
}

/// Idempotence of the upsert. Storing a comment and then another with the same
/// canonical identifier leaves exactly one row with that identifier: the
/// second upsert adds no row, and the row holds the fields of the second form
/// under the identifier that the first was given.
pub proof fn lemma_create_comment_twice(
    store: Store,
    first: DbCommentInsertForm,
    second: DbCommentInsertForm,
)
    requires
        store.wf(),
        first.ap_id.text@ == second.ap_id.text@,
    ensures
        store.create_comment(first).1 matches Ok(stored) ==> {
            let once = store.create_comment(first).0;
            let twice = once.create_comment(second).0;
            &&& once.create_comment(second).1 == Ok::<Comment, BackendError>(
                comment_row(stored.id, second),
            )
            &&& twice.comments.len() == once.comments.len()
            &&& twice.next_comment_id == once.next_comment_id
            &&& twice.comment_by_ap_id(second.ap_id.text@) == Some(comment_row(stored.id, second))
            &&& forall|i: int, j: int|
                0 <= i < twice.comments.len() && 0 <= j < twice.comments.len() && (
                #[trigger] twice.comments[i]).ap_id.text@ == second.ap_id.text@ && (
                #[trigger] twice.comments[j]).ap_id.text@ == second.ap_id.text@ ==> i == j
        },
{
    if store.create_comment(first).1 is Ok {
        let at = lemma_upserted_comment_at(store, first);
        let once = store.create_comment(first).0;
        let key = first.ap_id.text@;
        lemma_create_comment_wf(store, first);
        let twice = once.create_comment(second).0;
        lemma_create_comment_wf(once, second);
        assert(comment_ap_ids(twice.comments) =~= comment_ap_ids(once.comments)) by {
            comment_ap_ids(once.comments).index_of_first_ensures(key);
        }
    }
}

/// Redaction. What readers are shown of a comment marked deleted has no
/// content, and its identifier, its parent and its depth are those of the
/// row, as is everything else; a comment not marked deleted is shown as it is.
pub proof fn lemma_redacted(c: CommentData)
    ensures
        c.deleted ==> redacted(c).content == Seq::<char>::empty(),
        !c.deleted ==> redacted(c) == c,
        redacted(c).id == c.id,
        redacted(c).parent_id == c.parent_id,
        redacted(c).depth == c.depth,
        redacted(c).article_id == c.article_id,
        redacted(c).creator_id == c.creator_id,
        redacted(c).ap_id == c.ap_id,
        redacted(c).deleted == c.deleted,
        redacted(c).published == c.published,
        redacted(c).updated == c.updated,
{
}

/// The row that a form makes under an identifier.
fn new_row(id: CommentId, form: DbCommentInsertForm) -> (row: Comment)
    ensures
        row == comment_row(id, form),
{
    Comment {
        id,
        creator_id: form.creator_id,
        article_id: form.article_id,
        parent_id: form.parent_id,
        content: form.content,
        depth: form.depth,
        ap_id: form.ap_id,
        local: form.local,
        deleted: form.deleted,
        published: form.published,
        updated: form.updated,
    }
}

/// A row after a sparse update.
fn apply_update(row: &Comment, form: DbCommentUpdateForm) -> (next: Comment)
    ensures
        next == updated_row(*row, form),
{
    Comment {
        id: row.id,
        creator_id: row.creator_id,
        article_id: row.article_id,
        parent_id: row.parent_id,
        content: match form.content {
            Some(c) => c,
            None => row.content.clone(),
        },
        depth: row.depth,
        ap_id: match form.ap_id {
            Some(u) => u,
            None => row.ap_id.clone(),
        },
        local: row.local,
        deleted: match form.deleted {
            Some(d) => d,
            None => row.deleted,
        },
        published: row.published,
        updated: match form.updated {
            Some(t) => Some(t),
            None => row.updated,
        },
    }
}

/// A copy of a comment as readers are shown it: the content of one marked
/// deleted is left out, everything else is kept.
pub fn redact(comment: &Comment) -> (shown: Comment)
    ensures
        shown@ == redacted(comment@),
        shown.deleted ==> shown.content@.len() == 0,
        shown.id == comment.id,
        shown.parent_id == comment.parent_id,
        shown.depth == comment.depth,
{
    let mut shown = comment.clone();
    if shown.deleted {
        shown.content = String::new();
    }
    shown
}

impl Comment {
    /// The identifier under which the next new comment of this instance is
    /// stored until its canonical identifier is assigned.
    pub fn next_unassigned_ap_id(context: &IbisContext) -> (r: BackendResult<DbUrl>)
        ensures
            match r {
                Ok(u) => context@.next_comment_id >= 0 && Some(u@) == url_parts(
                    unassigned_text(CommentId(context@.next_comment_id)),
                ),
                Err(e) => e == BackendError::InvalidUrl && (context@.next_comment_id < 0
                    || url_parts(unassigned_text(CommentId(context@.next_comment_id))) is None),
            },
    {
        unassigned_ap_id(CommentId(context.next_comment_id))
    }

    /// Stores a comment. Where a row already has the form's canonical identifier,
    /// that row takes the form's fields and keeps its identifier; otherwise the
    /// form becomes a new row. Returns the row as it now stands. Fails with
    /// `IdExhausted`, and writes nothing, where a new row is due and the table has
    /// handed out its last identifier.
    pub fn create(form: DbCommentInsertForm, context: &mut IbisContext) -> (r: BackendResult<
        Comment,
    >)
        requires
            old(context)@.wf(),
        ensures
            final(context)@.wf(),
            final(context)@ == old(context)@.create_comment(form).0,
            r == old(context)@.create_comment(form).1,
    {
        match find_comment_by_ap_id(&context.comments, &form.ap_id.text) {
            Some(k) => {
                let row = new_row(context.comments[k].id, form);
                let stored = row.clone();
                context.comments.set(k, row);
                Ok(stored)
            },
            None => {
                if context.next_comment_id == i32::MAX {
                    return Err(BackendError::IdExhausted);
                }
                let row = new_row(CommentId(context.next_comment_id), form);
                let stored = row.clone();
                context.comments.push(row);
                context.next_comment_id = context.next_comment_id + 1;
                Ok(stored)
            },
        }
    }

    /// Changes the fields that the form supplies of the comment with this
    /// identifier, and returns the row with its author. Fails with `NotFound`
    /// where no row has the identifier, with `UniqueViolation` where the form
    /// supplies a canonical identifier that another row holds, and with
    /// `NotFound` where the row's author is not stored. An update that fails
    /// writes nothing.
    pub fn update(form: DbCommentUpdateForm, id: CommentId, context: &mut IbisContext) -> (r:
        BackendResult<CommentView>)
        requires
            old(context)@.wf(),
        ensures
            final(context)@.wf(),
            final(context)@ == old(context)@.update_comment(form, id).0,
            r == old(context)@.update_comment(form, id).1,
    {
        let k = match find_comment(&context.comments, id) {
            Some(k) => k,
            None => {
                return Err(BackendError::NotFound);
            },
        };
        let taken = match &form.ap_id {
            Some(u) => find_comment_by_ap_id(&context.comments, &u.text),
            None => None,
        };
        match taken {
            Some(t) => {
                if t != k {
                    return Err(BackendError::UniqueViolation);
                }
            },
            None => {},
        }
        let creator = match find_person(&context.persons, context.comments[k].creator_id) {
            Some(p) => context.persons[p].clone(),
            None => {
                return Err(BackendError::NotFound);
            },
        };
        let row = apply_update(&context.comments[k], form);
        let comment = row.clone();
        context.comments.set(k, row);
        Ok(CommentView { comment, creator })
    }

    /// The row of the comment with this identifier, as it is stored.
    pub fn read(id: CommentId, context: &IbisContext) -> (r: BackendResult<Comment>)
        ensures
            r == found(context@.comment(id)),
    {
        match find_comment(&context.comments, id) {
            Some(k) => Ok(context.comments[k].clone()),
            None => Err(BackendError::NotFound),
        }
    }

    /// The comment with this identifier as readers are shown it, with its author
    /// and its article. The stored row is not changed.
    pub fn read_view(id: CommentId, context: &IbisContext) -> (r: BackendResult<
        CommentViewWithArticle,
    >)
        ensures
            view_result(r) == context@.comment_view(id),
    {
        let k = match find_comment(&context.comments, id) {
            Some(k) => k,
            None => {
                return Err(BackendError::NotFound);
            },
        };
        let row = &context.comments[k];
        let p = match find_person(&context.persons, row.creator_id) {
            Some(p) => p,
            None => {
                return Err(BackendError::NotFound);
            },
        };
        let a = match find_article(&context.articles, row.article_id) {
            Some(a) => a,
            None => {
                return Err(BackendError::NotFound);
            },
        };
        Ok(
            CommentViewWithArticle {
                comment: redact(row),
                creator: context.persons[p].clone(),
                article: context.articles[a].clone(),
            },
        )
    }

    /// The row of the comment with this canonical identifier, as it is stored.
    pub fn read_from_ap_id(ap_id: &DbUrl, context: &IbisContext) -> (r: BackendResult<Comment>)
        ensures
            r == found(context@.comment_by_ap_id(ap_id.text@)),
    {
        match find_comment_by_ap_id(&context.comments, &ap_id.text) {
            Some(k) => Ok(context.comments[k].clone()),
            None => Err(BackendError::NotFound),
        }
    }
}

} // verus!
