//! The activities that an announcement can carry: each is verified, then applied.

use crate::apub_article::{ApubArticle, ArticleWrapper};
use crate::apub_comment::{ApubComment, CommentWrapper};
use crate::context::{find_local_instance, IbisContext, Store};
use crate::db_url::{DbUrl, UrlParts};
use crate::error::{BackendError, BackendResult};
use crate::instance::Instance;
use crate::kinds::{public, public_parts, CreateType, UpdateType};
use crate::time::now_micros;
use crate::validate::{object_verified, same_origin, verify_object_id, verify_same_origin};
use vstd::prelude::*;

verus! {

/// Brings the latest form of an article.
#[derive(Debug)]
pub struct UpdateArticle {
    pub actor: DbUrl,
    pub to: Vec<DbUrl>,
    pub object: ApubArticle,
    pub kind: UpdateType,
    pub id: DbUrl,
}

/// Brings a comment.
#[derive(Debug)]
pub struct CreateOrUpdateComment {
    pub actor: DbUrl,
    pub to: Vec<DbUrl>,
    pub object: ApubComment,
    pub kind: CreateType,
    pub id: DbUrl,
}

/// The activities that can be announced.
#[derive(Debug)]
pub enum AnnouncableActivities {
    UpdateArticle(UpdateArticle),
    CreateOrUpdateComment(CreateOrUpdateComment),
}

/// A result without its value.
pub open spec fn outcome<T>(r: BackendResult<T>) -> BackendResult<()> {
    match r {
        Ok(_) => Ok(()),
        Err(e) => Err(e),
    }
}

/// The identifier of an activity.
pub open spec fn activity_id(a: AnnouncableActivities) -> DbUrl {
    match a {
        AnnouncableActivities::UpdateArticle(u) => u.id,
        AnnouncableActivities::CreateOrUpdateComment(c) => c.id,
    }
}

/// The identifier of the object that an activity carries.
pub open spec fn activity_object_id(a: AnnouncableActivities) -> DbUrl {
    match a {
        AnnouncableActivities::UpdateArticle(u) => u.object.id,
        AnnouncableActivities::CreateOrUpdateComment(c) => c.object.id,
    }
}

/// The actor of an activity.
pub open spec fn activity_actor(a: AnnouncableActivities) -> DbUrl {
    match a {
        AnnouncableActivities::UpdateArticle(u) => u.actor,
        AnnouncableActivities::CreateOrUpdateComment(c) => c.actor,
    }
}

/// What the verification of an activity with these identifiers answers on
/// an instance with this domain: the identifiers have to be consistent, the
/// activity has to come from the domain of its actor, and the object that it
/// carries has to share that domain and to belong to another instance.
pub open spec fn parts_verified(id: UrlParts, actor: UrlParts, object: UrlParts, domain: Seq<char>)
    -> BackendResult<()> {
    if same_origin(id, actor) is Err {
        same_origin(id, actor)
    } else {
        object_verified(object, id, domain)
    }
}

/// What the verification of an activity answers on an instance with this domain.
pub open spec fn activity_verified(a: AnnouncableActivities, domain: Seq<char>) -> BackendResult<
    (),
> {
    parts_verified(activity_id(a)@, activity_actor(a)@, activity_object_id(a)@, domain)
}

/// What the verification of an update answers on an instance with this domain.
pub open spec fn update_verified(u: UpdateArticle, domain: Seq<char>) -> BackendResult<()> {
    parts_verified(u.id@, u.actor@, u.object.id@, domain)
}

/// Accepts an activity that comes from the domain of its actor and carries
/// an object of that domain which belongs to another instance than the one
/// with the domain `domain`.
pub fn verify_activity_parts(id: &DbUrl, actor: &DbUrl, object: &DbUrl, domain: &String) -> (r:
    BackendResult<()>)
    ensures
        r == parts_verified(id@, actor@, object@, domain@),
{
    match verify_same_origin(id, actor) {
        Ok(()) => {},
        Err(e) => {
            return Err(e);
        },
    }
    verify_object_id(object, id, domain)
}

/// Whether an activity is the update that is sent for an article.
pub open spec fn is_update_of(
    update: UpdateArticle,
    article: ArticleWrapper,
    id: DbUrl,
    local: Instance,
    owner: Instance,
) -> bool {
    &&& update.actor == local.ap_id
    &&& update.to@.len() == 1
    &&& update.to@[0]@ == public_parts()
    &&& crate::apub_article::is_article_json(update.object, article.0, owner)
    &&& update.kind == UpdateType::Update
    &&& update.id == id
}

impl Store {
    /// The store after an activity is applied at the time `now`, and whether
    /// that succeeded. An activity that fails writes nothing.
    pub open spec fn receive_activity(self, a: AnnouncableActivities, now: i64) -> (
        Store,
        BackendResult<()>,
    ) {
        match a {
            AnnouncableActivities::UpdateArticle(u) => {
                let (next, r) = self.receive_article(u.object, now);
                (next, outcome(r))
            },
            AnnouncableActivities::CreateOrUpdateComment(c) => {
                let (next, r) = self.receive_comment(c.object, now);
                (next, outcome(r))
            },
        }
    }

    /// The store after an update is verified and, where that succeeds, applied
    /// at the time `now`. An update that is refused writes nothing.
    pub open spec fn handle_update(self, u: UpdateArticle, now: i64) -> (Store, BackendResult<()>) {
        match update_verified(u, self.domain) {
            Ok(()) => {
                let (next, r) = self.receive_article(u.object, now);
                (next, outcome(r))
            },
            Err(e) => (self, Err(e)),
        }
    }

    /// The store after an activity is verified and, where that succeeds,
    /// applied at the time `now`. An activity that is refused writes nothing.
    pub open spec fn handle_activity(self, a: AnnouncableActivities, now: i64) -> (
        Store,
        BackendResult<()>,
    ) {
        match activity_verified(a, self.domain) {
            Ok(()) => self.receive_activity(a, now),
            Err(e) => (self, Err(e)),
        }
    }
}

/// No partial writes. An activity that is refused, at verification or when it
/// is applied, leaves the store exactly as it was.
pub proof fn lemma_refused_activity_writes_nothing(
    store: Store,
    a: AnnouncableActivities,
    now: i64,
)
    ensures
        store.handle_activity(a, now).1 is Err ==> store.handle_activity(a, now).0 == store,
        activity_verified(a, store.domain) is Err ==> store.handle_activity(a, now).1
            == activity_verified(a, store.domain),
{
}

/// Whether a new article was refused by the store, and why: `NotFound`
/// where the instance that owns it is not stored, `IdExhausted` where that
/// instance is stored and the table has handed out its last identifier. No
/// other input keeps a verified update of an unknown article from being
/// applied.
pub open spec fn new_article_refused(store: Store, u: UpdateArticle, e: BackendError) -> bool {
    if store.instance_by_ap_id(u.object.attributed_to.text@) is None {
        e == BackendError::NotFound
    } else {
        e == BackendError::IdExhausted && store.next_article_id == i32::MAX
    }
}

/// First receipt. An update that passes verification, of an article whose
/// canonical identifier is not stored yet, is applied and adds exactly one
/// article row: the row is keyed by that identifier and holds what the update
/// carries, no other row has the identifier, and nothing else in the store
/// differs. The same holds of an announcement that carries the update. The
/// two exceptions write nothing: the instance that owns the article is not
/// stored, or the table has handed out its last identifier.
pub proof fn lemma_update_of_unknown_article_adds_one_row(store: Store, u: UpdateArticle, now: i64)
    requires
        update_verified(u, store.domain) is Ok,
        store.article_by_ap_id(u.object.id.text@) is None,
    ensures
        store.handle_activity(AnnouncableActivities::UpdateArticle(u), now)
            == store.handle_update(u, now),
        ({
            let (next, r) = store.handle_update(u, now);
            match r {
                Ok(()) => {
                    let form = store.inbound_article(u.object, now)->Ok_0;
                    let row = crate::article_store::new_article_row(
                        crate::newtypes::ArticleId(store.next_article_id),
                        form,
                    );
                    &&& row.ap_id == u.object.id
                    &&& row.title == u.object.name
                    &&& row.text == u.object.content
                    &&& next.articles == store.articles.push(row)
                    &&& next.articles.len() == store.articles.len() + 1
                    &&& forall|i: int|
                        0 <= i < next.articles.len() && (#[trigger] next.articles[i]).ap_id.text@
                            == u.object.id.text@ ==> i == store.articles.len()
                    &&& next.article_by_ap_id(u.object.id.text@) == Some(row)
                    &&& next == (Store {
                        articles: next.articles,
                        next_article_id: next.next_article_id,
                        ..store
                    })
                },
                Err(e) => new_article_refused(store, u, e) && next == store,
            }
        }),
{
    if store.handle_update(u, now).1 is Ok {
        let form = store.inbound_article(u.object, now)->Ok_0;
        let at = crate::article_store::lemma_upserted_article_at(store, form);
        let keys = crate::context::article_ap_ids(store.articles);
        keys.index_of_first_ensures(u.object.id.text@);
        let next = store.handle_update(u, now).0;
        assert forall|i: int|
            0 <= i < next.articles.len() && (#[trigger] next.articles[i]).ap_id.text@
                == u.object.id.text@ implies i == store.articles.len() by {
            if i < store.articles.len() {
                assert(keys[i] == store.articles[i].ap_id.text@);
                assert(keys.contains(keys[i]));
            }
        }
    }
}

/// The row of an article after it was written again at a later time.
pub open spec fn refreshed(row: crate::records::Article, now: i64) -> crate::records::Article {
    crate::records::Article {
        id: row.id,
        title: row.title,
        text: row.text,
        ap_id: row.ap_id,
        instance_id: row.instance_id,
        local: row.local,
        protected: row.protected,
        removed: row.removed,
        published: row.published,
        updated: now,
    }
}

/// Replay. An update that was applied and is handled once more is applied
/// again, and all that this changes is the time at which the row of its
/// article was last written: no row is added, and no other row or table differs.
pub proof fn lemma_update_replay(store: Store, u: UpdateArticle, first: i64, second: i64)
    requires
        store.wf(),
    ensures
        store.handle_update(u, first).1 is Ok ==> {
            let once = store.handle_update(u, first).0;
            let (twice, again) = once.handle_update(u, second);
            &&& again is Ok
            &&& once.article_by_ap_id(u.object.id.text@) matches Some(row) && twice.article_by_ap_id(
                u.object.id.text@,
            ) == Some(refreshed(row, second))
            &&& exists|k: int|
                0 <= k < once.articles.len() && #[trigger] once.articles[k].ap_id.text@
                    == u.object.id.text@ && twice == (Store {
                    articles: once.articles.update(k, refreshed(once.articles[k], second)),
                    ..once
                })
        },
{
    if store.handle_update(u, first).1 is Ok {
        let form = store.inbound_article(u.object, first)->Ok_0;
        let once = store.handle_update(u, first).0;
        let k = crate::article_store::lemma_upserted_article_at(store, form);
        crate::article_store::lemma_create_or_update_article_wf(store, form);
        let later = once.inbound_article(u.object, second)->Ok_0;
        let twice = once.handle_update(u, second).0;
        crate::context::article_ap_ids(once.articles).index_of_first_ensures(u.object.id.text@);
        assert(crate::context::article_ap_ids(once.articles)[k] == once.articles[k].ap_id.text@);
        assert(twice.articles =~= once.articles.update(k, refreshed(once.articles[k], second)));
        assert(crate::context::article_ap_ids(twice.articles) =~= crate::context::article_ap_ids(
            once.articles,
        ));
        assert(twice == (Store {
            articles: once.articles.update(k, refreshed(once.articles[k], second)),
            ..once
        }));
    }
}

impl UpdateArticle {
    /// The update that this instance sends for one of its articles, under the
    /// identifier `id`. Fails with `NotFound` where this instance's own row
    /// or the row of the article's owner is missing.
    pub fn new(article: ArticleWrapper, id: DbUrl, context: &IbisContext) -> (r: BackendResult<
        UpdateArticle,
    >)
        ensures
            match r {
                Ok(update) => context@.local_instance() matches Some(local) && context@.instance(
                    article.0.instance_id,
                ) matches Some(owner) && is_update_of(update, article, id, local, owner),
                Err(e) => e == BackendError::NotFound && (context@.local_instance() is None
                    || context@.instance(article.0.instance_id) is None),
            },
    {
        let local = match find_local_instance(&context.instances) {
            Some(k) => &context.instances[k],
            None => {
                return Err(BackendError::NotFound);
            },
        };
        let object = match article.into_json(context) {
            Ok(o) => o,
            Err(e) => {
                return Err(e);
            },
        };
        Ok(UpdateArticle::of(object, id, local))
    }

    /// The update that an instance sends for an article document under the
    /// identifier `id`: addressed to everybody, with the instance as actor.
    pub fn of(object: ApubArticle, id: DbUrl, local: &Instance) -> (update: UpdateArticle)
        ensures
            update.actor == local.ap_id,
            update.to@.len() == 1,
            update.to@[0]@ == public_parts(),
            update.object == object,
            update.kind == UpdateType::Update,
            update.id == id,
    {
        let mut to: Vec<DbUrl> = Vec::new();
        to.push(public());
        UpdateArticle { actor: local.ap_id.clone(), to, object, kind: UpdateType::Update, id }
    }

    /// Accepts an update that comes from the domain of its actor and whose
    /// article shares that domain and belongs to another instance. Reads the
    /// store and writes nothing.
    pub fn verify(&self, context: &IbisContext) -> (r: BackendResult<()>)
        ensures
            r == update_verified(*self, context@.domain),
    {
        verify_activity_parts(
            &self.id,
            &self.actor,
            &self.object.id,
            &context.conf.federation.domain,
        )
    }

    /// Applies the update at the time `now`: stores the article that it
    /// carries by upsert. An update that fails writes nothing.
    pub fn receive_at(&self, now: i64, context: &mut IbisContext) -> (r: BackendResult<()>)
        requires
            old(context)@.wf(),
        ensures
            final(context)@.wf(),
            final(context)@ == old(context)@.receive_article(self.object, now).0,
            r == outcome(old(context)@.receive_article(self.object, now).1),
    {
        match ArticleWrapper::from_json_at(&self.object, now, context) {
            Ok(_) => Ok(()),
            Err(e) => Err(e),
        }
    }

    /// Verifies the update and, where that succeeds, applies it at the time
    /// `now`. An update that is refused writes nothing.
    pub fn handle_at(&self, now: i64, context: &mut IbisContext) -> (r: BackendResult<()>)
        requires
            old(context)@.wf(),
        ensures
            final(context)@.wf(),
            final(context)@ == old(context)@.handle_update(*self, now).0,
            r == old(context)@.handle_update(*self, now).1,
    {
        match self.verify(context) {
            Ok(()) => {},
            Err(e) => {
                return Err(e);
            },
        }
        self.receive_at(now, context)
    }
}

impl AnnouncableActivities {
    /// The identifier of the activity.
    pub fn id(&self) -> (id: &DbUrl)
        ensures
            *id == activity_id(*self),
    {
        match self {
            AnnouncableActivities::UpdateArticle(u) => &u.id,
            AnnouncableActivities::CreateOrUpdateComment(c) => &c.id,
        }
    }

    /// The actor of the activity.
    pub fn actor(&self) -> (actor: &DbUrl)
        ensures
            *actor == activity_actor(*self),
    {
        match self {
            AnnouncableActivities::UpdateArticle(u) => &u.actor,
            AnnouncableActivities::CreateOrUpdateComment(c) => &c.actor,
        }
    }

    /// The identifier of the object that the activity carries.
    pub fn object_id(&self) -> (id: &DbUrl)
        ensures
            *id == activity_object_id(*self),
    {
        match self {
            AnnouncableActivities::UpdateArticle(u) => &u.object.id,
            AnnouncableActivities::CreateOrUpdateComment(c) => &c.object.id,
        }
    }

    /// Accepts an activity that comes from the domain of its actor and whose
    /// object shares that domain and belongs to another instance. Reads the
    /// store and writes nothing.
    pub fn verify(&self, context: &IbisContext) -> (r: BackendResult<()>)
        ensures
            r == activity_verified(*self, context@.domain),
    {
        verify_activity_parts(
            self.id(),
            self.actor(),
            self.object_id(),
            &context.conf.federation.domain,
        )
    }

    /// Applies the activity at the time `now`: stores the object that it
    /// carries by upsert. An activity that fails writes nothing.
    pub fn receive_at(&self, now: i64, context: &mut IbisContext) -> (r: BackendResult<()>)
        requires
            old(context)@.wf(),
        ensures
            final(context)@.wf(),
            final(context)@ == old(context)@.receive_activity(*self, now).0,
            r == old(context)@.receive_activity(*self, now).1,
    {
        match self {
            AnnouncableActivities::UpdateArticle(u) => u.receive_at(now, context),
            AnnouncableActivities::CreateOrUpdateComment(c) => {
                match CommentWrapper::from_json_at(&c.object, now, context) {
                    Ok(_) => Ok(()),
                    Err(e) => Err(e),
                }
            },
        }
    }

    /// Verifies the activity and, where that succeeds, applies it at the time
    /// `now`. Verification is complete before anything is written, and an
    /// activity that is refused writes nothing.
    pub fn handle_at(&self, now: i64, context: &mut IbisContext) -> (r: BackendResult<()>)
        requires
            old(context)@.wf(),
        ensures
            final(context)@.wf(),
            final(context)@ == old(context)@.handle_activity(*self, now).0,
            r == old(context)@.handle_activity(*self, now).1,
    {
        match self.verify(context) {
            Ok(()) => {},
            Err(e) => {
                return Err(e);
            },
        }
        self.receive_at(now, context)
    }

    /// Applies the activity now: as [`AnnouncableActivities::receive_at`] at
    /// the time that the clock gives, which is not before the epoch.
    pub fn receive(self, context: &mut IbisContext) -> (r: BackendResult<()>)
        requires
            old(context)@.wf(),
        ensures
            final(context)@.wf(),
            exists|now: i64|
                {
                    &&& now >= 0
                    &&& final(context)@ == (#[trigger] old(context)@.receive_activity(
                        self,
                        now,
                    )).0
                    &&& r == old(context)@.receive_activity(self, now).1
                },
    {
        let now = now_micros();
        self.receive_at(now, context)
    }
}

} // verus!
