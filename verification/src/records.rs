//! The rows of the store. Times are microseconds since the Unix epoch.

use crate::db_url::{clone_opt_string, url_parts, DbUrl};
use crate::error::{BackendError, BackendResult};
use crate::newtypes::{ArticleId, CommentId, InstanceId, PersonId};
use vstd::prelude::*;

verus! {

/// A federated user.
#[derive(Debug)]
pub struct Person {
    pub id: PersonId,
    pub username: String,
    pub ap_id: DbUrl,
    pub inbox_url: String,
    pub public_key: String,
    pub private_key: Option<String>,
    pub last_refreshed_at: i64,
    pub local: bool,
}

/// A wiki page in its latest form.
#[derive(Debug)]
pub struct Article {
    pub id: ArticleId,
    pub title: String,
    pub text: String,
    pub ap_id: DbUrl,
    pub instance_id: InstanceId,
    pub local: bool,
    /// Only administrators may edit.
    pub protected: bool,
    /// Soft-deleted.
    pub removed: bool,
    pub published: i64,
    /// When the row was last written.
    pub updated: i64,
}

/// A comment under an article, or under another comment of the same article.
#[derive(Debug)]
pub struct Comment {
    pub id: CommentId,
    pub creator_id: PersonId,
    pub article_id: ArticleId,
    pub parent_id: Option<CommentId>,
    pub content: String,
    /// 0 directly under the article, else one more than the parent's.
    pub depth: i32,
    pub ap_id: DbUrl,
    pub local: bool,
    pub deleted: bool,
    pub published: i64,
    pub updated: Option<i64>,
}

/// A comment with the person who wrote it.
#[derive(Debug)]
pub struct CommentView {
    pub comment: Comment,
    pub creator: Person,
}

/// A comment with the person who wrote it and the article it belongs to.
#[derive(Debug)]
pub struct CommentViewWithArticle {
    pub comment: Comment,
    pub creator: Person,
    pub article: Article,
}

/// One entry of the outbox log: an activity that this instance has sent.
#[derive(Debug)]
pub struct SentActivity {
    pub id: DbUrl,
    pub published: i64,
}

/// A person's subscription to an instance.
#[derive(Clone, Copy, Debug, PartialEq, Eq, Structural)]
pub struct InstanceFollower {
    pub instance_id: InstanceId,
    pub follower_id: PersonId,
}

impl Clone for Person {
    fn clone(&self) -> (r: Self)
        ensures
            r == *self,
    {
        Person {
            id: self.id,
            username: self.username.clone(),
            ap_id: self.ap_id.clone(),
            inbox_url: self.inbox_url.clone(),
            public_key: self.public_key.clone(),
            private_key: clone_opt_string(&self.private_key),
            last_refreshed_at: self.last_refreshed_at,
            local: self.local,
        }
    }
}

impl Person {
    /// The inbox as a URL. The stored text has to be one: see
    /// [`Person::try_inbox_url`] for a text of which that is not known.
    pub fn inbox_url(&self) -> (u: DbUrl)
        requires
            url_parts(self.inbox_url@) is Some,
        ensures
            Some(u@) == url_parts(self.inbox_url@),
    {
        DbUrl::parse(self.inbox_url.as_str()).unwrap()
    }

    /// The inbox as a URL, or `InvalidUrl` where the stored text is none.
    pub fn try_inbox_url(&self) -> (r: BackendResult<DbUrl>)
        ensures
            match r {
                Ok(u) => Some(u@) == url_parts(self.inbox_url@),
                Err(e) => e == BackendError::InvalidUrl && url_parts(self.inbox_url@) is None,
            },
    {
        match DbUrl::parse(self.inbox_url.as_str()) {
            Ok(_) => Ok(self.inbox_url()),
            Err(e) => Err(e),
        }
    }
}

impl Clone for Article {
    fn clone(&self) -> (r: Self)
        ensures
            r == *self,
    {
        Article {
            id: self.id,
            title: self.title.clone(),
            text: self.text.clone(),
            ap_id: self.ap_id.clone(),
            instance_id: self.instance_id,
            local: self.local,
            protected: self.protected,
            removed: self.removed,
            published: self.published,
            updated: self.updated,
        }
    }
}

impl Clone for Comment {
    fn clone(&self) -> (r: Self)
        ensures
            r == *self,
    {
        Comment {
            id: self.id,
            creator_id: self.creator_id,
            article_id: self.article_id,
            parent_id: self.parent_id,
            content: self.content.clone(),
            depth: self.depth,
            ap_id: self.ap_id.clone(),
            local: self.local,
            deleted: self.deleted,
            published: self.published,
            updated: self.updated,
        }
    }
}

impl Clone for SentActivity {
    fn clone(&self) -> (r: Self)
        ensures
            r == *self,
    {
        SentActivity { id: self.id.clone(), published: self.published }
    }
}

/// A comment as a reader is shown it.
pub struct CommentData {
    pub id: CommentId,
    pub creator_id: PersonId,
    pub article_id: ArticleId,
    pub parent_id: Option<CommentId>,
    pub content: Seq<char>,
    pub depth: i32,
    pub ap_id: DbUrl,
    pub local: bool,
    pub deleted: bool,
    pub published: i64,
    pub updated: Option<i64>,
}

impl View for Comment {
    type V = CommentData;

    open spec fn view(&self) -> CommentData {
        CommentData {
            id: self.id,
            creator_id: self.creator_id,
            article_id: self.article_id,
            parent_id: self.parent_id,
            content: self.content@,
            depth: self.depth,
            ap_id: self.ap_id,
            local: self.local,
            deleted: self.deleted,
            published: self.published,
            updated: self.updated,
        }
    }
}

/// The mathematical value of a [`CommentView`].
pub struct CommentViewData {
    pub comment: CommentData,
    pub creator: Person,
}

impl View for CommentView {
    type V = CommentViewData;

    open spec fn view(&self) -> CommentViewData {
        CommentViewData { comment: self.comment@, creator: self.creator }
    }
}

/// The mathematical value of a [`CommentViewWithArticle`].
pub struct CommentViewWithArticleData {
    pub comment: CommentData,
    pub creator: Person,
    pub article: Article,
}

impl View for CommentViewWithArticle {
    type V = CommentViewWithArticleData;

    open spec fn view(&self) -> CommentViewWithArticleData {
        CommentViewWithArticleData {
            comment: self.comment@,
            creator: self.creator,
            article: self.article,
        }
    }
}

} // verus!
