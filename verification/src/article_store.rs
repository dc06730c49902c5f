//! The article table, and the lookups in the tables that the core only reads.

use crate::comment_store::found;
use crate::context::{
    article_ap_ids, find_article, find_article_by_ap_id, find_instance, find_instance_by_ap_id,
    find_local_instance, find_person, find_person_by_ap_id, IbisContext, Store,
};
use crate::db_url::DbUrl;
use crate::error::{BackendError, BackendResult};
use crate::instance::Instance;
use crate::newtypes::{ArticleId, InstanceId, PersonId};
use crate::records::{Article, InstanceFollower, Person};
use vstd::prelude::*;

verus! {

/// What an upsert writes of an article.
#[derive(Debug)]
pub struct DbArticleForm {
    pub title: String,
    pub text: String,
    pub ap_id: DbUrl,
    pub instance_id: InstanceId,
    pub local: bool,
    pub protected: bool,
    /// The time of the write.
    pub updated: i64,
}

/// The row that a form makes of a new article.
pub open spec fn new_article_row(id: ArticleId, form: DbArticleForm) -> Article {
    Article {
        id,
        title: form.title,
        text: form.text,
        ap_id: form.ap_id,
        instance_id: form.instance_id,
        local: form.local,
        protected: form.protected,
        removed: false,
        published: form.updated,
        updated: form.updated,
    }
}

/// The row that a form makes of a stored article: the identifier, the removal
/// flag and the time of publication stay.
pub open spec fn replaced_article_row(row: Article, form: DbArticleForm) -> Article {
    Article {
        id: row.id,
        title: form.title,
        text: form.text,
        ap_id: form.ap_id,
        instance_id: form.instance_id,
        local: form.local,
        protected: form.protected,
        removed: row.removed,
        published: row.published,
        updated: form.updated,
    }
}

/// Whether a listing of articles takes a row.
pub open spec fn article_selected(
    a: Article,
    only_local: Option<bool>,
    instance_id: Option<InstanceId>,
    include_removed: bool,
) -> bool {
    &&& only_local matches Some(l) ==> a.local == l
    &&& instance_id matches Some(i) ==> a.instance_id == i
    &&& !include_removed ==> !a.removed
}

impl Store {
    /// The store after an upsert of an article, and what the upsert returns.
    pub open spec fn create_or_update_article(self, form: DbArticleForm) -> (
        Store,
        BackendResult<Article>,
    ) {
        match article_ap_ids(self.articles).index_of_first(form.ap_id.text@) {
            Some(k) => {
                let row = replaced_article_row(self.articles[k], form);
                (Store { articles: self.articles.update(k, row), ..self }, Ok(row))
            },
            None => if self.next_article_id == i32::MAX {
                (self, Err(BackendError::IdExhausted))
            } else {
                let row = new_article_row(ArticleId(self.next_article_id), form);
                (
                    Store {
                        articles: self.articles.push(row),
                        next_article_id: (self.next_article_id + 1) as i32,
                        ..self
                    },
                    Ok(row),
                )
            },
        }
    }

    /// The articles among the first `n` rows that a listing takes, in the order of the table.
    pub open spec fn articles_upto(
        self,
        only_local: Option<bool>,
        instance_id: Option<InstanceId>,
        include_removed: bool,
        n: int,
    ) -> Seq<Article>
        decreases n,
    {
        if n <= 0 {
            Seq::empty()
        } else {
            let before = self.articles_upto(only_local, instance_id, include_removed, n - 1);
            if article_selected(self.articles[n - 1], only_local, instance_id, include_removed) {
                before.push(self.articles[n - 1])
            } else {
                before
            }
        }
    }

    /// The articles that a listing takes, in the order of the table.
    pub open spec fn listed_articles(
        self,
        only_local: Option<bool>,
        instance_id: Option<InstanceId>,
        include_removed: bool,
    ) -> Seq<Article> {
        self.articles_upto(only_local, instance_id, include_removed, self.articles.len() as int)
    }

    /// The followers of an instance among the first `n` subscriptions, in the
    /// order of the table. A subscription of a person who is not stored counts for nothing.
    pub open spec fn followers_upto(self, id: InstanceId, n: int) -> Seq<Person>
        decreases n,
    {
        if n <= 0 {
            Seq::empty()
        } else {
            let before = self.followers_upto(id, n - 1);
            let edge = self.instance_followers[n - 1];
            if edge.instance_id == id {
                match self.person(edge.follower_id) {
                    Some(p) => before.push(p),
                    None => before,
                }
            } else {
                before
            }
        }
    }

    /// The followers of an instance, in the order of their subscriptions.
    pub open spec fn followers(self, id: InstanceId) -> Seq<Person> {
        self.followers_upto(id, self.instance_followers.len() as int)
    }
}

/// An upsert keeps the article table well formed.
pub proof fn lemma_create_or_update_article_wf(store: Store, form: DbArticleForm)
    requires
        store.wf(),
    ensures
        store.create_or_update_article(form).0.wf(),
{
    let next = store.create_or_update_article(form).0;
    let keys = article_ap_ids(store.articles);
    keys.index_of_first_ensures(form.ap_id.text@);
    match keys.index_of_first(form.ap_id.text@) {
        Some(k) => {
            assert(keys[k] == store.articles[k].ap_id.text@);
            assert forall|i: int, j: int| 0 <= i < j < next.articles.len() implies (
            #[trigger] next.articles[i]).ap_id.text@ != (#[trigger] next.articles[j]).ap_id.text@ by {
                assert(next.articles[i].ap_id.text@ == store.articles[i].ap_id.text@);
                assert(next.articles[j].ap_id.text@ == store.articles[j].ap_id.text@);
            }
            assert forall|i: int, j: int| 0 <= i < j < next.articles.len() implies (
            #[trigger] next.articles[i]).id != (#[trigger] next.articles[j]).id by {
                assert(next.articles[i].id == store.articles[i].id);
                assert(next.articles[j].id == store.articles[j].id);
            }
        },
        None => {
            assert forall|i: int| 0 <= i < store.articles.len() implies (
            #[trigger] store.articles[i]).ap_id.text@ != form.ap_id.text@ by {
                assert(keys[i] == store.articles[i].ap_id.text@);
                assert(keys.contains(keys[i]));
            }
        },
    }
}

/// Idempotence of the upsert. Storing an article and then another with the
/// same canonical identifier leaves exactly one row with that identifier: the
/// second upsert adds no row, and the row holds the fields of the second form
/// under the identifier, and with the removal flag and the time of
/// publication, that the first upsert left.
pub proof fn lemma_create_or_update_article_twice(
    store: Store,
    first: DbArticleForm,
    second: DbArticleForm,
)
    requires
        store.wf(),
        first.ap_id.text@ == second.ap_id.text@,
    ensures
        store.create_or_update_article(first).1 matches Ok(stored) ==> {
            let once = store.create_or_update_article(first).0;
            let twice = once.create_or_update_article(second).0;
            &&& once.create_or_update_article(second).1 == Ok::<Article, BackendError>(
                replaced_article_row(stored, second),
            )
            &&& twice.articles.len() == once.articles.len()
            &&& twice.next_article_id == once.next_article_id
            &&& twice.article_by_ap_id(second.ap_id.text@) == Some(
                replaced_article_row(stored, second),
            )
            &&& forall|i: int, j: int|
                0 <= i < twice.articles.len() && 0 <= j < twice.articles.len() && (
                #[trigger] twice.articles[i]).ap_id.text@ == second.ap_id.text@ && (
                #[trigger] twice.articles[j]).ap_id.text@ == second.ap_id.text@ ==> i == j
        },
{
    if store.create_or_update_article(first).1 is Ok {
        let at = lemma_upserted_article_at(store, first);
        let once = store.create_or_update_article(first).0;
        let key = first.ap_id.text@;
        lemma_create_or_update_article_wf(store, first);
        let twice = once.create_or_update_article(second).0;
        lemma_create_or_update_article_wf(once, second);
        assert(article_ap_ids(twice.articles) =~= article_ap_ids(once.articles)) by {
            article_ap_ids(once.articles).index_of_first_ensures(key);
        }
    }
}

/// Where the row stands that a successful upsert wrote: it is the first, and
/// the only, row with the form's canonical identifier.
pub(crate) proof fn lemma_upserted_article_at(store: Store, form: DbArticleForm) -> (at: int)
    requires
        store.create_or_update_article(form).1 is Ok,
    ensures
        0 <= at < store.create_or_update_article(form).0.articles.len(),
        article_ap_ids(store.create_or_update_article(form).0.articles).index_of_first(
            form.ap_id.text@,
        ) == Some(at),
        store.create_or_update_article(form).0.articles[at] == store.create_or_update_article(
            form,
        ).1->Ok_0,
        store.create_or_update_article(form).0.articles.len() >= store.articles.len(),
{
    let key = form.ap_id.text@;
    let keys = article_ap_ids(store.articles);
    let once = store.create_or_update_article(form).0;
    match keys.index_of_first(key) {
        Some(k) => {
            keys.index_of_first_ensures(key);
            assert(article_ap_ids(once.articles) =~= keys);
            k
        },
        None => {
            assert(article_ap_ids(once.articles) =~= keys.push(key));
            crate::context::lemma_first_index_push_missing(keys, key, key);
            store.articles.len() as int
        },
    }
}

/// An upsert removes no article: a canonical identifier that is stored is
/// still stored afterwards.
pub(crate) proof fn lemma_upsert_keeps_articles(store: Store, form: DbArticleForm, text: Seq<char>)
    requires
        store.article_by_ap_id(text) is Some,
    ensures
        store.create_or_update_article(form).0.article_by_ap_id(text) is Some,
{
    let keys = article_ap_ids(store.articles);
    let next = store.create_or_update_article(form).0;
    keys.index_of_first_ensures(form.ap_id.text@);
    match keys.index_of_first(form.ap_id.text@) {
        Some(k) => {
            assert(article_ap_ids(next.articles) =~= keys);
        },
        None => {
            if store.next_article_id != i32::MAX {
                assert(article_ap_ids(next.articles) =~= keys.push(form.ap_id.text@));
                crate::context::lemma_first_index_push_found(keys, text, form.ap_id.text@);
            }
        },
    }
}

/// An upsert stores no article but its own: a canonical identifier that is
/// not stored, and is not the form's, is still not stored afterwards.
pub(crate) proof fn lemma_upsert_keeps_absent(store: Store, form: DbArticleForm, text: Seq<char>)
    requires
        store.article_by_ap_id(text) is None,
        text != form.ap_id.text@,
    ensures
        store.create_or_update_article(form).0.article_by_ap_id(text) is None,
{
    let keys = article_ap_ids(store.articles);
    let next = store.create_or_update_article(form).0;
    keys.index_of_first_ensures(form.ap_id.text@);
    match keys.index_of_first(form.ap_id.text@) {
        Some(k) => {
            assert(article_ap_ids(next.articles) =~= keys);
        },
        None => {
            if store.next_article_id != i32::MAX {
                assert(article_ap_ids(next.articles) =~= keys.push(form.ap_id.text@));
                crate::context::lemma_first_index_push_missing(keys, text, form.ap_id.text@);
            }
        },
    }
}

fn new_article(id: ArticleId, form: DbArticleForm) -> (row: Article)
    ensures
        row == new_article_row(id, form),
{
    Article {
        id,
        title: form.title,
        text: form.text,
        ap_id: form.ap_id,
        instance_id: form.instance_id,
        local: form.local,
        protected: form.protected,
        removed: false,
        published: form.updated,
        updated: form.updated,
    }
}

fn replaced_article(row: &Article, form: DbArticleForm) -> (next: Article)
    ensures
        next == replaced_article_row(*row, form),
{
    Article {
        id: row.id,
        title: form.title,
        text: form.text,
        ap_id: form.ap_id,
        instance_id: form.instance_id,
        local: form.local,
        protected: form.protected,
        removed: row.removed,
        published: row.published,
        updated: form.updated,
    }
}

impl Article {
    /// Stores an article. Where a row already has the form's canonical
    /// identifier, that row takes the form's fields and keeps its identifier,
    /// its removal flag and its time of publication; otherwise the form becomes
    /// a new row, published at the time of the write. Returns the row as it now
    /// stands. Fails with `IdExhausted`, and writes nothing, where a new row is
    /// due and the table has handed out its last identifier.
    pub fn create_or_update(form: DbArticleForm, context: &mut IbisContext) -> (r: BackendResult<
        Article,
    >)
        requires
            old(context)@.wf(),
        ensures
            final(context)@.wf(),
            final(context)@ == old(context)@.create_or_update_article(form).0,
            r == old(context)@.create_or_update_article(form).1,
    {
        match find_article_by_ap_id(&context.articles, &form.ap_id.text) {
            Some(k) => {
                let row = replaced_article(&context.articles[k], form);
                let stored = row.clone();
                context.articles.set(k, row);
                Ok(stored)
            },
            None => {
                if context.next_article_id == i32::MAX {
                    return Err(BackendError::IdExhausted);
                }
                let row = new_article(ArticleId(context.next_article_id), form);
                let stored = row.clone();
                context.articles.push(row);
                context.next_article_id = context.next_article_id + 1;
                Ok(stored)
            },
        }
    }

    /// The row of the article with this identifier.
    pub fn read(id: ArticleId, context: &IbisContext) -> (r: BackendResult<Article>)
        ensures
            r == found(context@.article(id)),
    {
        match find_article(&context.articles, id) {
            Some(k) => Ok(context.articles[k].clone()),
            None => Err(BackendError::NotFound),
        }
    }

    /// The row of the article with this canonical identifier.
    pub fn read_from_ap_id(ap_id: &DbUrl, context: &IbisContext) -> (r: BackendResult<Article>)
        ensures
            r == found(context@.article_by_ap_id(ap_id.text@)),
    {
        match find_article_by_ap_id(&context.articles, &ap_id.text) {
            Some(k) => Ok(context.articles[k].clone()),
            None => Err(BackendError::NotFound),
        }
    }

    /// The articles in the order of the table: only the local or only the
    /// remote ones where `only_local` says so, only those of one instance
    /// where `instance_id` names it, and the removed ones only where
    /// `include_removed` is set.
    pub fn read_all(
        only_local: Option<bool>,
        instance_id: Option<InstanceId>,
        include_removed: bool,
        context: &IbisContext,
    ) -> (r: BackendResult<Vec<Article>>)
        ensures
            r matches Ok(list) && list@ == context@.listed_articles(
                only_local,
                instance_id,
                include_removed,
            ),
    {
        let mut list: Vec<Article> = Vec::new();
        let mut i: usize = 0;
        while i < context.articles.len()
            invariant
                i <= context.articles.len(),
                list@ == context@.articles_upto(only_local, instance_id, include_removed, i as int),
            decreases context.articles.len() - i,
        {
            let a = &context.articles[i];
            let local_ok = match only_local {
                Some(l) => a.local == l,
                None => true,
            };
            let instance_ok = match instance_id {
                Some(id) => a.instance_id == id,
                None => true,
            };
            if local_ok && instance_ok && (include_removed || !a.removed) {
                list.push(a.clone());
            }
            i += 1;
        }
        Ok(list)
    }
}

impl Person {
    /// The first row of a person with this identifier.
    pub fn read(id: PersonId, context: &IbisContext) -> (r: BackendResult<Person>)
        ensures
            r == found(context@.person(id)),
    {
        match find_person(&context.persons, id) {
            Some(k) => Ok(context.persons[k].clone()),
            None => Err(BackendError::NotFound),
        }
    }

    /// The first row of a person with this canonical identifier.
    pub fn read_from_ap_id(ap_id: &DbUrl, context: &IbisContext) -> (r: BackendResult<Person>)
        ensures
            r == found(context@.person_by_ap_id(ap_id.text@)),
    {
        match find_person_by_ap_id(&context.persons, &ap_id.text) {
            Some(k) => Ok(context.persons[k].clone()),
            None => Err(BackendError::NotFound),
        }
    }
}

impl Instance {
    /// The first row of an instance with this identifier.
    pub fn read(id: InstanceId, context: &IbisContext) -> (r: BackendResult<Instance>)
        ensures
            r == found(context@.instance(id)),
    {
        match find_instance(&context.instances, id) {
            Some(k) => Ok(context.instances[k].clone()),
            None => Err(BackendError::NotFound),
        }
    }

    /// The first row of an instance with this canonical identifier.
    pub fn read_from_ap_id(ap_id: &DbUrl, context: &IbisContext) -> (r: BackendResult<Instance>)
        ensures
            r == found(context@.instance_by_ap_id(ap_id.text@)),
    {
        match find_instance_by_ap_id(&context.instances, &ap_id.text) {
            Some(k) => Ok(context.instances[k].clone()),
            None => Err(BackendError::NotFound),
        }
    }

    /// The row of this instance itself.
    pub fn read_local(context: &IbisContext) -> (r: BackendResult<Instance>)
        ensures
            r == found(context@.local_instance()),
    {
        match find_local_instance(&context.instances) {
            Some(k) => Ok(context.instances[k].clone()),
            None => Err(BackendError::NotFound),
        }
    }

    /// The persons who follow an instance, in the order of their subscriptions.
    pub fn read_followers(id: InstanceId, context: &IbisContext) -> (r: BackendResult<
        Vec<Person>,
    >)
        ensures
            r matches Ok(list) && list@ == context@.followers(id),
    {
        let mut list: Vec<Person> = Vec::new();
        let mut i: usize = 0;
        while i < context.instance_followers.len()
            invariant
                i <= context.instance_followers.len(),
                list@ == context@.followers_upto(id, i as int),
            decreases context.instance_followers.len() - i,
        {
            let edge: InstanceFollower = context.instance_followers[i];
            if edge.instance_id == id {
                match find_person(&context.persons, edge.follower_id) {
                    Some(p) => {
                        list.push(context.persons[p].clone());
                    },
                    None => {},
                }
            }
            i += 1;
        }
        Ok(list)
    }
}

} // verus!
