//! Articles as documents.

use crate::article_store::DbArticleForm;
use crate::context::{find_instance, find_instance_by_ap_id, IbisContext, Store};
use crate::db_url::DbUrl;
use crate::error::{BackendError, BackendResult};
use crate::instance::Instance;
use crate::kinds::{public, public_parts, ArticleType};
use crate::newtypes::InstanceId;
use crate::records::Article;
use crate::validate::{object_verified, verify_object_id};
use vstd::prelude::*;

verus! {

/// An article in its latest form, as instances send it to each other.
#[derive(Debug)]
pub struct ApubArticle {
    pub kind: ArticleType,
    pub id: DbUrl,
    /// The instance that owns the article.
    pub attributed_to: DbUrl,
    pub to: Vec<DbUrl>,
    /// The title.
    pub name: String,
    /// The text.
    pub content: String,
    pub protected: bool,
}

/// A stored article in its role as a federated object.
#[derive(Debug)]
pub struct ArticleWrapper(pub Article);

/// What an inbound article document writes, once its owner has been resolved.
pub open spec fn article_form_of(json: ApubArticle, instance_id: InstanceId, now: i64)
    -> DbArticleForm {
    DbArticleForm {
        title: json.name,
        text: json.content,
        ap_id: json.id,
        instance_id,
        local: false,
        protected: json.protected,
        updated: now,
    }
}

/// Whether a document is the one that an article is written out as.
pub open spec fn is_article_json(json: ApubArticle, a: Article, owner: Instance) -> bool {
    &&& json.kind == ArticleType::Article
    &&& json.id == a.ap_id
    &&& json.attributed_to == owner.ap_id
    &&& json.to@.len() == 1
    &&& json.to@[0]@ == public_parts()
    &&& json.name == a.title
    &&& json.content == a.text
    &&& json.protected == a.protected
}

impl Store {
    /// What an inbound article document writes, or `NotFound` where the
    /// instance that owns the article is not stored.
    pub open spec fn inbound_article(self, json: ApubArticle, now: i64) -> BackendResult<
        DbArticleForm,
    > {
        match self.instance_by_ap_id(json.attributed_to.text@) {
            Some(owner) => Ok(article_form_of(json, owner.id, now)),
            None => Err(BackendError::NotFound),
        }
    }

    /// The store after an inbound article document is taken in at the time
    /// `now`, and the row that it made. A document that is refused writes nothing.
    pub open spec fn receive_article(self, json: ApubArticle, now: i64) -> (
        Store,
        BackendResult<Article>,
    ) {
        match self.inbound_article(json, now) {
            Ok(form) => self.create_or_update_article(form),
            Err(e) => (self, Err(e)),
        }
    }
}

/// The document that an article is written out as, once its owner has been
/// looked up: addressed to everybody.
pub fn article_json(article: Article, owner: &Instance) -> (json: ApubArticle)
    ensures
        is_article_json(json, article, *owner),
{
    let mut to: Vec<DbUrl> = Vec::new();
    to.push(public());
    ApubArticle {
        kind: ArticleType::Article,
        id: article.ap_id,
        attributed_to: owner.ap_id.clone(),
        to,
        name: article.title,
        content: article.text,
        protected: article.protected,
    }
}

/// What an inbound article document writes at the time `now`, once its
/// owner has been resolved: a remote article of that instance.
pub fn owned_article_form(json: &ApubArticle, instance_id: InstanceId, now: i64) -> (form:
    DbArticleForm)
    ensures
        form == article_form_of(*json, instance_id, now),
{
    DbArticleForm {
        title: json.name.clone(),
        text: json.content.clone(),
        ap_id: json.id.clone(),
        instance_id,
        local: false,
        protected: json.protected,
        updated: now,
    }
}

impl ArticleWrapper {
    /// Writes the article out as a document, addressed to everybody. Fails
    /// with `NotFound` where the instance that owns the article is not stored.
    pub fn into_json(self, context: &IbisContext) -> (r: BackendResult<ApubArticle>)
        ensures
            match (r, context@.instance(self.0.instance_id)) {
                (Ok(json), Some(owner)) => is_article_json(json, self.0, owner),
                (Err(e), None) => e == BackendError::NotFound,
                _ => false,
            },
    {
        let article = self.0;
        let owner = match find_instance(&context.instances, article.instance_id) {
            Some(k) => &context.instances[k],
            None => {
                return Err(BackendError::NotFound);
            },
        };
        Ok(article_json(article, owner))
    }

    /// Accepts an article document whose identifier shares the expected domain
    /// and belongs to another instance.
    pub fn verify(json: &ApubArticle, expected_domain: &DbUrl, context: &IbisContext) -> (r:
        BackendResult<()>)
        ensures
            r == object_verified(json.id@, expected_domain@, context@.domain),
    {
        verify_object_id(&json.id, expected_domain, &context.conf.federation.domain)
    }

    /// What an inbound article document writes at the time `now`, or
    /// `NotFound` where the instance that owns the article is not stored.
    pub fn article_form(json: &ApubArticle, now: i64, context: &IbisContext) -> (r:
        BackendResult<DbArticleForm>)
        ensures
            r == context@.inbound_article(*json, now),
    {
        match find_instance_by_ap_id(&context.instances, &json.attributed_to.text) {
            Some(k) => Ok(owned_article_form(json, context.instances[k].id, now)),
            None => Err(BackendError::NotFound),
        }
    }

    /// Takes in an article document at the time `now`: resolves its owner
    /// among the stored instances and stores the article by upsert. A document
    /// that is refused writes nothing.
    pub fn from_json_at(json: &ApubArticle, now: i64, context: &mut IbisContext) -> (r:
        BackendResult<ArticleWrapper>)
        requires
            old(context)@.wf(),
        ensures
            final(context)@.wf(),
            final(context)@ == old(context)@.receive_article(*json, now).0,
            match (r, old(context)@.receive_article(*json, now).1) {
                (Ok(w), Ok(a)) => w.0 == a,
                (Err(e), Err(f)) => e == f,
                _ => false,
            },
    {
        let form = match ArticleWrapper::article_form(json, now, context) {
            Ok(f) => f,
            Err(e) => {
                return Err(e);
            },
        };
        match Article::create_or_update(form, context) {
            Ok(a) => Ok(ArticleWrapper(a)),
            Err(e) => Err(e),
        }
    }
}

} // verus!
