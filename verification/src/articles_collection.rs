//! The collection of all articles of an instance: written out for peers that
//! pull it, and taken in item by item from a peer.

use crate::activities::{is_update_of, UpdateArticle};
use crate::apub_article::ArticleWrapper;
use crate::context::{IbisContext, Store};
use crate::db_url::{url_parts, DbUrl};
use crate::error::{BackendError, BackendResult};
use crate::kinds::CollectionType;
use crate::records::Article;
use crate::time::now_micros;
use crate::validate::{is_local, is_local_url, same_origin, verify_same_origin};
use vstd::prelude::*;
use vstd::string::StringExecFns;

verus! {

/// The collection of an instance's articles, as instances send it to each other.
#[derive(Debug)]
pub struct ApubArticleCollection {
    pub kind: CollectionType,
    pub id: DbUrl,
    pub total_items: i32,
    pub items: Vec<UpdateArticle>,
}

/// An item of a collection that could not be taken in, and why.
#[derive(Debug)]
pub struct SyncFailure {
    /// The canonical identifier of the article.
    pub id: DbUrl,
    pub error: BackendError,
}

/// What is left of a collection once it has been taken in: the items that failed.
#[derive(Debug)]
pub struct ArticleCollection(pub Vec<SyncFailure>);

/// The scheme under which an instance is reached.
pub open spec fn protocol_text(https: bool) -> Seq<char> {
    if https {
        "https"@
    } else {
        "http"@
    }
}

/// The address of the collection of all articles of the instance with this
/// domain, as a text.
pub open spec fn local_articles_text(domain: Seq<char>, https: bool) -> Seq<char> {
    protocol_text(https) + "://"@ + domain + "/all_articles"@
}

/// The scheme under which an instance is reached: `https`, or `http`.
pub fn http_protocol_str(https: bool) -> (scheme: &'static str)
    ensures
        scheme@ == protocol_text(https),
{
    if https {
        "https"
    } else {
        "http"
    }
}

/// The address of the collection of all articles of the instance with this
/// domain. Fails with `InvalidUrl` where the domain makes no URL.
pub fn local_articles_url(domain: &str, https: bool) -> (r: BackendResult<DbUrl>)
    ensures
        match r {
            Ok(u) => Some(u@) == url_parts(local_articles_text(domain@, https)),
            Err(e) => e == BackendError::InvalidUrl && url_parts(
                local_articles_text(domain@, https),
            ) is None,
        },
{
    let text = String::from_str(http_protocol_str(https)).concat("://").concat(domain).concat(
        "/all_articles",
    );
    DbUrl::parse(text.as_str())
}

impl Store {
    /// The articles that this instance offers to its peers: its own, without
    /// the removed ones, in the order of the table.
    pub open spec fn local_articles(self) -> Seq<Article> {
        self.listed_articles(Some(true), None, false)
    }

    /// Why the collection of local articles cannot be written out with this
    /// many activity identifiers, if it cannot: `IdExhausted` where there are
    /// fewer identifiers than articles, `NotFound` where there are articles
    /// and this instance's own row is missing, `InvalidUrl` where the domain
    /// makes no address for the collection.
    pub open spec fn collection_refusal(self, ids: int) -> Option<BackendError> {
        if ids < self.local_articles().len() {
            Some(BackendError::IdExhausted)
        } else if self.local_articles().len() > 0 && self.local_instance() is None {
            Some(BackendError::NotFound)
        } else if exists|i: int|
            0 <= i < self.local_articles().len() && self.instance(
                (#[trigger] self.local_articles()[i]).instance_id,
            ) is None {
            Some(BackendError::NotFound)
        } else if url_parts(local_articles_text(self.domain, self.https)) is None {
            Some(BackendError::InvalidUrl)
        } else {
            None
        }
    }

    /// What taking in one item of a collection at the time `now` does: an
    /// item whose article belongs to this instance is skipped; any other is
    /// verified and applied, and where that fails nothing is written and the
    /// failure is reported under the article's identifier.
    pub open spec fn sync_step(self, item: UpdateArticle, now: i64) -> (Store, Option<SyncFailure>) {
        if is_local(item.object.id@, self.domain) {
            (self, None)
        } else {
            match self.handle_update(item, now).1 {
                Ok(()) => (self.handle_update(item, now).0, None),
                Err(e) => (
                    self.handle_update(item, now).0,
                    Some(SyncFailure { id: item.object.id, error: e }),
                ),
            }
        }
    }

    /// The store after the first `n` items of a collection were taken in, one
    /// after the other, and the failures among them in their order.
    pub open spec fn sync_upto(self, items: Seq<UpdateArticle>, now: i64, n: int) -> (
        Store,
        Seq<SyncFailure>,
    )
        decreases n,
    {
        if n <= 0 {
            (self, Seq::empty())
        } else {
            let (before, failures) = self.sync_upto(items, now, n - 1);
            let (after, failure) = before.sync_step(items[n - 1], now);
            (
                after,
                match failure {
                    Some(f) => failures.push(f),
                    None => failures,
                },
            )
        }
    }

    /// The store after a collection was taken in, and the failures in their order.
    pub open spec fn sync(self, items: Seq<UpdateArticle>, now: i64) -> (Store, Seq<SyncFailure>) {
        self.sync_upto(items, now, items.len() as int)
    }
}

/// Whether an update is the item that is written out for a local article
/// under an activity identifier.
pub open spec fn is_item(store: Store, item: UpdateArticle, article: Article, id: DbUrl) -> bool {
    store.local_instance() matches Some(local) && store.instance(article.instance_id) matches Some(
        owner,
    ) && is_update_of(item, ArticleWrapper(article), id, local, owner)
}

/// Whether a collection document is the one that is written out for the
/// local articles, with these activity identifiers for its items.
pub open spec fn is_local_collection(c: ApubArticleCollection, store: Store, ids: Seq<DbUrl>)
    -> bool {
    &&& c.kind == CollectionType::Collection
    &&& Some(c.id@) == url_parts(local_articles_text(store.domain, store.https))
    &&& c.total_items == store.local_articles().len()
    &&& c.items@.len() == store.local_articles().len()
    &&& forall|i: int|
        0 <= i < c.items@.len() ==> is_item(
            store,
            #[trigger] c.items@[i],
            store.local_articles()[i],
            ids[i],
        )
}

/// A listing takes no more articles than the rows it has looked at.
proof fn lemma_articles_upto_len(
    store: Store,
    only_local: Option<bool>,
    instance_id: Option<crate::newtypes::InstanceId>,
    include_removed: bool,
    n: int,
)
    requires
        0 <= n,
    ensures
        store.articles_upto(only_local, instance_id, include_removed, n).len() <= n,
    decreases n,
{
    if n > 0 {
        lemma_articles_upto_len(store, only_local, instance_id, include_removed, n - 1);
    }
}

/// An item that fails writes nothing.
pub proof fn lemma_failed_item_writes_nothing(store: Store, item: UpdateArticle, now: i64)
    ensures
        store.sync_step(item, now).1 matches Some(f) ==> store.sync_step(item, now).0 == store
            && f.id == item.object.id,
{
}

/// An item that is taken in without failure, and whose article belongs to
/// another instance, leaves that article stored.
pub proof fn lemma_applied_item_is_stored(store: Store, item: UpdateArticle, now: i64)
    requires
        !is_local(item.object.id@, store.domain),
        store.sync_step(item, now).1 is None,
    ensures
        store.sync_step(item, now).0.article_by_ap_id(item.object.id.text@) is Some,
{
    let form = store.inbound_article(item.object, now)->Ok_0;
    let at = crate::article_store::lemma_upserted_article_at(store, form);
}

/// Taking in an item removes no article and changes no setting.
proof fn lemma_step_keeps_articles(store: Store, item: UpdateArticle, now: i64, text: Seq<char>)
    ensures
        store.sync_step(item, now).0.domain == store.domain,
        store.article_by_ap_id(text) is Some ==> store.sync_step(item, now).0.article_by_ap_id(
            text,
        ) is Some,
{
    if store.article_by_ap_id(text) is Some && store.inbound_article(item.object, now) is Ok {
        crate::article_store::lemma_upsert_keeps_articles(
            store,
            store.inbound_article(item.object, now)->Ok_0,
            text,
        );
    }
}

/// The items after the first `m` remove no article that is stored after
/// those, drop no failure that is reported for those, and change no setting.
proof fn lemma_sync_keeps(
    store: Store,
    items: Seq<UpdateArticle>,
    now: i64,
    m: int,
    n: int,
    text: Seq<char>,
    failure: SyncFailure,
)
    requires
        0 <= m <= n,
    ensures
        store.sync_upto(items, now, n).0.domain == store.domain,
        store.sync_upto(items, now, m).0.article_by_ap_id(text) is Some ==> store.sync_upto(
            items,
            now,
            n,
        ).0.article_by_ap_id(text) is Some,
        store.sync_upto(items, now, m).1.contains(failure) ==> store.sync_upto(
            items,
            now,
            n,
        ).1.contains(failure),
        store.sync_upto(items, now, m).1.len() <= store.sync_upto(items, now, n).1.len() <= n,
    decreases n,
{
    if n > 0 {
        if m < n {
            lemma_sync_keeps(store, items, now, m, n - 1, text, failure);
        } else {
            lemma_sync_keeps(store, items, now, n - 1, n - 1, text, failure);
        }
        let (before, failures) = store.sync_upto(items, now, n - 1);
        lemma_step_keeps_articles(before, items[n - 1], now, text);
        if m < n && failures.contains(failure) {
            let w = choose|i: int| 0 <= i < failures.len() && failures[i] == failure;
            match before.sync_step(items[n - 1], now).1 {
                Some(f) => {
                    assert(failures.push(f)[w] == failure);
                },
                None => {},
            }
        }
    }
}

/// Isolation of failures. Whatever happens to the other items of a
/// collection, the item at place `k` is handled by itself: if it fails, it
/// writes nothing and its failure is among those returned, under the
/// identifier of its article; if it is applied, its article is stored when
/// the whole collection has been taken in.
pub proof fn lemma_sync_isolates_failures(
    store: Store,
    items: Seq<UpdateArticle>,
    now: i64,
    k: int,
)
    requires
        0 <= k < items.len(),
    ensures
        ({
            let before = store.sync_upto(items, now, k).0;
            let (after, failure) = before.sync_step(items[k], now);
            let (end, failures) = store.sync(items, now);
            &&& after == store.sync_upto(items, now, k + 1).0
            &&& match failure {
                Some(f) => after == before && f.id == items[k].object.id && failures.contains(f),
                None => !is_local(items[k].object.id@, store.domain) ==> end.article_by_ap_id(
                    items[k].object.id.text@,
                ) is Some,
            }
        }),
{
    let before = store.sync_upto(items, now, k).0;
    let (after, failure) = before.sync_step(items[k], now);
    let text = items[k].object.id.text@;
    let n = items.len() as int;
    match failure {
        Some(f) => {
            lemma_failed_item_writes_nothing(before, items[k], now);
            let reported = store.sync_upto(items, now, k + 1).1;
            assert(reported == store.sync_upto(items, now, k).1.push(f));
            assert(reported[reported.len() - 1] == f);
            lemma_sync_keeps(store, items, now, k + 1, n, text, f);
        },
        None => {
            lemma_sync_keeps(store, items, now, k, k, text, SyncFailure {
                id: items[k].object.id,
                error: BackendError::NotFound,
            });
            if !is_local(items[k].object.id@, store.domain) {
                lemma_applied_item_is_stored(before, items[k], now);
                lemma_sync_keeps(store, items, now, k + 1, n, text, SyncFailure {
                    id: items[k].object.id,
                    error: BackendError::NotFound,
                });
            }
        },
    }
}

/// Taking in the first `n` items of a collection depends on those items only.
proof fn lemma_sync_prefix(
    store: Store,
    a: Seq<UpdateArticle>,
    b: Seq<UpdateArticle>,
    now: i64,
    n: int,
)
    requires
        0 <= n <= a.len(),
        n <= b.len(),
        forall|i: int| 0 <= i < n ==> a[i] == b[i],
    ensures
        store.sync_upto(a, now, n) == store.sync_upto(b, now, n),
    decreases n,
{
    if n > 0 {
        lemma_sync_prefix(store, a, b, now, n - 1);
    }
}

/// Past an item that fails, the store is the one that the collection without
/// that item leaves, and the failures are one more.
proof fn lemma_sync_skips(store: Store, items: Seq<UpdateArticle>, now: i64, k: int, n: int)
    requires
        0 <= k < n <= items.len(),
        store.sync_upto(items, now, k).0.sync_step(items[k], now).1 is Some,
    ensures
        store.sync_upto(items, now, n).0 == store.sync_upto(items.remove(k), now, n - 1).0,
        store.sync_upto(items, now, n).1.len() == store.sync_upto(
            items.remove(k),
            now,
            n - 1,
        ).1.len() + 1,
    decreases n,
{
    let rest = items.remove(k);
    if n == k + 1 {
        lemma_sync_prefix(store, items, rest, now, k);
        lemma_failed_item_writes_nothing(store.sync_upto(items, now, k).0, items[k], now);
    } else {
        lemma_sync_skips(store, items, now, k, n - 1);
        assert(rest[n - 2] == items[n - 1]);
    }
}

/// Isolation, seen from the other items. Where the item at place `k` fails,
/// the store after the whole collection was taken in is the very store that
/// the collection without that item leaves: no row of another item is
/// missing, added or different on account of the failure, wherever in the
/// collection the failing item stands. The failures are those of the other
/// items and one more.
pub proof fn lemma_sync_without_failing_item(
    store: Store,
    items: Seq<UpdateArticle>,
    now: i64,
    k: int,
)
    requires
        0 <= k < items.len(),
        store.sync_upto(items, now, k).0.sync_step(items[k], now).1 is Some,
    ensures
        store.sync(items, now).0 == store.sync(items.remove(k), now).0,
        store.sync(items, now).1.len() == store.sync(items.remove(k), now).1.len() + 1,
{
    lemma_sync_skips(store, items, now, k, items.len() as int);
}

/// Whether the item at place `i` of a collection is valid: its article
/// belongs to another instance, and at its turn the item is verified and
/// applied.
pub open spec fn item_is_applied(store: Store, items: Seq<UpdateArticle>, now: i64, i: int) -> bool {
    &&& !is_local(items[i].object.id@, store.domain)
    &&& store.sync_upto(items, now, i).0.sync_step(items[i], now).1 is None
}

/// Whether the item at place `i` of a collection is malformed: at its turn
/// its verification or its application fails.
pub open spec fn item_fails(store: Store, items: Seq<UpdateArticle>, now: i64, i: int) -> bool {
    store.sync_upto(items, now, i).0.sync_step(items[i], now).1 is Some
}

/// What the first `n` items of a collection with one malformed item leave.
proof fn lemma_sync_counts_upto(
    store: Store,
    items: Seq<UpdateArticle>,
    now: i64,
    k: int,
    n: int,
)
    requires
        0 <= k < items.len(),
        0 <= n <= items.len(),
        item_fails(store, items, now, k),
        forall|i: int|
            0 <= i < items.len() && i != k ==> #[trigger] item_is_applied(store, items, now, i),
        forall|i: int|
            0 <= i < items.len() ==> store.article_by_ap_id(
                (#[trigger] items[i]).object.id.text@,
            ) is None,
        forall|i: int, j: int|
            0 <= i < j < items.len() ==> (#[trigger] items[i]).object.id.text@ != (
            #[trigger] items[j]).object.id.text@,
    ensures
        ({
            let (s, f) = store.sync_upto(items, now, n);
            let m = if k < n {
                n - 1
            } else {
                n
            };
            &&& s.articles.len() == store.articles.len() + m
            &&& forall|j: int|
                n <= j < items.len() ==> s.article_by_ap_id((#[trigger] items[j]).object.id.text@)
                    is None
            &&& s.article_by_ap_id(items[k].object.id.text@) is None
            &&& forall|j: int|
                0 <= j < n && j != k ==> s.article_by_ap_id(
                    (#[trigger] items[j]).object.id.text@,
                ) is Some
            &&& f.len() == n - m
            &&& k < n ==> f[0].id == items[k].object.id
        }),
    decreases n,
{
    if n > 0 {
        lemma_sync_counts_upto(store, items, now, k, n - 1);
        let (before, failures) = store.sync_upto(items, now, n - 1);
        let item = items[n - 1];
        let (s, f) = store.sync_upto(items, now, n);
        lemma_sync_grows(store, items, now, 0, n - 1);
        if n - 1 == k {
            lemma_failed_item_writes_nothing(before, item, now);
        } else {
            assert(item_is_applied(store, items, now, n - 1));
            let form = before.inbound_article(item.object, now)->Ok_0;
            assert(before.article_by_ap_id(item.object.id.text@) is None);
            let at = crate::article_store::lemma_upserted_article_at(before, form);
            assert forall|j: int| n <= j < items.len() implies s.article_by_ap_id(
                (#[trigger] items[j]).object.id.text@,
            ) is None by {
                assert(items[n - 1].object.id.text@ != items[j].object.id.text@);
                crate::article_store::lemma_upsert_keeps_absent(
                    before,
                    form,
                    items[j].object.id.text@,
                );
            }
            assert(s.article_by_ap_id(items[k].object.id.text@) is None) by {
                if k < n - 1 {
                    assert(items[k].object.id.text@ != items[n - 1].object.id.text@);
                } else {
                    assert(items[n - 1].object.id.text@ != items[k].object.id.text@);
                }
                crate::article_store::lemma_upsert_keeps_absent(
                    before,
                    form,
                    items[k].object.id.text@,
                );
            }
            assert forall|j: int| 0 <= j < n && j != k implies s.article_by_ap_id(
                (#[trigger] items[j]).object.id.text@,
            ) is Some by {
                if j < n - 1 {
                    crate::article_store::lemma_upsert_keeps_articles(
                        before,
                        form,
                        items[j].object.id.text@,
                    );
                }
            }
        }
    }
}

/// Partial failure, counted. A collection of items whose articles are not
/// stored yet, no two with the same identifier, all valid but the malformed
/// one at place `k`, leaves one article row for each of the valid items and
/// none for the malformed one: as many rows more as there are valid items.
/// The one failure reported is that of the malformed item.
pub proof fn lemma_sync_stores_all_but_the_malformed(
    store: Store,
    items: Seq<UpdateArticle>,
    now: i64,
    k: int,
)
    requires
        0 <= k < items.len(),
        item_fails(store, items, now, k),
        forall|i: int|
            0 <= i < items.len() && i != k ==> #[trigger] item_is_applied(store, items, now, i),
        forall|i: int|
            0 <= i < items.len() ==> store.article_by_ap_id(
                (#[trigger] items[i]).object.id.text@,
            ) is None,
        forall|i: int, j: int|
            0 <= i < j < items.len() ==> (#[trigger] items[i]).object.id.text@ != (
            #[trigger] items[j]).object.id.text@,
    ensures
        ({
            let (end, failures) = store.sync(items, now);
            &&& end.articles.len() == store.articles.len() + items.len() - 1
            &&& forall|j: int|
                0 <= j < items.len() && j != k ==> end.article_by_ap_id(
                    (#[trigger] items[j]).object.id.text@,
                ) is Some
            &&& end.article_by_ap_id(items[k].object.id.text@) is None
            &&& failures.len() == 1
            &&& failures[0].id == items[k].object.id
        }),
{
    lemma_sync_counts_upto(store, items, now, k, items.len() as int);
}

/// Whether two article rows hold the same title, text, canonical
/// identifier, owner, origin and protection: what an update writes, but for
/// the time of the write.
pub open spec fn same_payload(a: Article, b: Article) -> bool {
    &&& a.title == b.title
    &&& a.text == b.text
    &&& a.ap_id == b.ap_id
    &&& a.instance_id == b.instance_id
    &&& a.local == b.local
    &&& a.protected == b.protected
}

/// Whether two article rows have the same identifier, the same canonical
/// identifier as a text, the same removal flag and the same time of
/// publication: what an update of a stored article leaves as it is.
pub open spec fn same_keys(a: Article, b: Article) -> bool {
    &&& a.id == b.id
    &&& a.ap_id.text@ == b.ap_id.text@
    &&& a.removed == b.removed
    &&& a.published == b.published
}

/// Whether two article rows differ at most in the time at which they were
/// last written.
pub open spec fn same_but_updated(a: Article, b: Article) -> bool {
    same_payload(a, b) && same_keys(a, b)
}

/// What taking in one item can do to a store: it touches nothing but the
/// article table, adds at most one row, and leaves every stored row its
/// identifier, canonical identifier, removal flag and time of publication.
proof fn lemma_step_effect(store: Store, item: UpdateArticle, now: i64)
    ensures
        ({
            let next = store.sync_step(item, now).0;
            &&& next == (Store {
                articles: next.articles,
                next_article_id: next.next_article_id,
                ..store
            })
            &&& store.articles.len() <= next.articles.len()
            &&& store.next_article_id <= next.next_article_id
            &&& store.next_article_id == i32::MAX ==> next.articles.len() == store.articles.len()
            &&& forall|r: int|
                0 <= r < store.articles.len() ==> same_keys(
                    #[trigger] next.articles[r],
                    store.articles[r],
                )
        }),
{
    if store.inbound_article(item.object, now) is Ok {
        let form = store.inbound_article(item.object, now)->Ok_0;
        crate::context::article_ap_ids(store.articles).index_of_first_ensures(form.ap_id.text@);
    }
}

/// What the items from place `m` to place `n` can do to the store that the
/// items before them left.
proof fn lemma_sync_grows(store: Store, items: Seq<UpdateArticle>, now: i64, m: int, n: int)
    requires
        0 <= m <= n,
    ensures
        ({
            let a = store.sync_upto(items, now, m).0;
            let b = store.sync_upto(items, now, n).0;
            &&& b == (Store { articles: b.articles, next_article_id: b.next_article_id, ..a })
            &&& a.articles.len() <= b.articles.len()
            &&& a.next_article_id <= b.next_article_id
            &&& a.next_article_id == i32::MAX ==> b.articles.len() == a.articles.len()
            &&& forall|r: int|
                0 <= r < a.articles.len() ==> same_keys(#[trigger] b.articles[r], a.articles[r])
        }),
    decreases n,
{
    if m < n {
        lemma_sync_grows(store, items, now, m, n - 1);
        let a = store.sync_upto(items, now, m).0;
        let before = store.sync_upto(items, now, n - 1).0;
        let b = store.sync_upto(items, now, n).0;
        lemma_step_effect(before, items[n - 1], now);
        assert forall|r: int| 0 <= r < a.articles.len() implies same_keys(
            #[trigger] b.articles[r],
            a.articles[r],
        ) by {
            assert(same_keys(b.articles[r], before.articles[r]));
            assert(same_keys(before.articles[r], a.articles[r]));
        }
    }
}

/// Taking in items keeps the store well formed.
proof fn lemma_sync_wf(store: Store, items: Seq<UpdateArticle>, now: i64, n: int)
    requires
        store.wf(),
    ensures
        store.sync_upto(items, now, n).0.wf(),
    decreases n,
{
    if n > 0 {
        lemma_sync_wf(store, items, now, n - 1);
        let before = store.sync_upto(items, now, n - 1).0;
        if before.inbound_article(items[n - 1].object, now) is Ok {
            crate::article_store::lemma_create_or_update_article_wf(
                before,
                before.inbound_article(items[n - 1].object, now)->Ok_0,
            );
        }
    }
}

/// The first `n` items of a collection, taken in once more after the whole
/// collection was taken in, add no row and move no row, and what they write
/// is what they wrote the first time.
proof fn lemma_resync_upto(
    store: Store,
    items: Seq<UpdateArticle>,
    first: i64,
    second: i64,
    n: int,
)
    requires
        store.wf(),
        0 <= n <= items.len(),
    ensures
        ({
            let once = store.sync(items, first).0;
            let p = store.sync_upto(items, first, n).0;
            let u = once.sync_upto(items, second, n).0;
            &&& u == (Store { articles: u.articles, ..once })
            &&& u.articles.len() == once.articles.len()
            &&& forall|r: int|
                0 <= r < u.articles.len() ==> same_keys(#[trigger] u.articles[r], once.articles[r])
            &&& forall|r: int|
                0 <= r < u.articles.len() ==> (r < p.articles.len() && same_payload(
                    #[trigger] u.articles[r],
                    p.articles[r],
                )) || same_payload(u.articles[r], once.articles[r])
        }),
    decreases n,
{
    let total = items.len() as int;
    let once = store.sync(items, first).0;
    if n > 0 {
        lemma_resync_upto(store, items, first, second, n - 1);
        let item = items[n - 1];
        let p0 = store.sync_upto(items, first, n - 1).0;
        let p1 = store.sync_upto(items, first, n).0;
        let u0 = once.sync_upto(items, second, n - 1).0;
        let u1 = once.sync_upto(items, second, n).0;
        let x = item.object.id.text@;
        lemma_sync_grows(store, items, first, n - 1, total);
        lemma_sync_grows(store, items, first, n, total);
        lemma_sync_grows(store, items, first, 0, n - 1);
        lemma_sync_wf(store, items, first, total);
        lemma_step_effect(p0, item, first);
        let applies = !is_local(item.object.id@, store.domain) && crate::activities::update_verified(
            item,
            store.domain,
        ) is Ok && store.instance_by_ap_id(item.object.attributed_to.text@) is Some;
        if applies {
            let form1 = p0.inbound_article(item.object, first)->Ok_0;
            let form2 = u0.inbound_article(item.object, second)->Ok_0;
            let keys_p = crate::context::article_ap_ids(p0.articles);
            let keys_u = crate::context::article_ap_ids(u0.articles);
            keys_p.index_of_first_ensures(x);
            if p0.create_or_update_article(form1).1 is Ok {
                let c = crate::article_store::lemma_upserted_article_at(p0, form1);
                crate::context::article_ap_ids(p1.articles).index_of_first_ensures(x);
                assert(crate::context::article_ap_ids(p1.articles)[c] == p1.articles[c].ap_id.text@);
                assert(same_keys(once.articles[c], p1.articles[c]));
                assert(same_keys(u0.articles[c], once.articles[c]));
                assert forall|j: int| 0 <= j < c implies keys_u[j] != x by {
                    assert(same_keys(u0.articles[j], once.articles[j]));
                    assert(once.articles[j].ap_id.text@ != once.articles[c].ap_id.text@);
                }
                assert(keys_u[c] == x);
                crate::context::lemma_first_index_is(keys_u, x, c);
                assert(u1.articles =~= u0.articles.update(
                    c,
                    crate::article_store::replaced_article_row(u0.articles[c], form2),
                ));
                assert forall|r: int| 0 <= r < u1.articles.len() implies (r < p1.articles.len()
                    && same_payload(#[trigger] u1.articles[r], p1.articles[r])) || same_payload(
                    u1.articles[r],
                    once.articles[r],
                ) by {
                    if r != c {
                        assert(u1.articles[r] == u0.articles[r]);
                        if r < p0.articles.len() {
                            assert(p1.articles[r] == p0.articles[r]);
                        }
                    }
                }
                assert forall|r: int| 0 <= r < u1.articles.len() implies same_keys(
                    #[trigger] u1.articles[r],
                    once.articles[r],
                ) by {
                    if r != c {
                        assert(u1.articles[r] == u0.articles[r]);
                    }
                }
            } else {
                assert(p0.next_article_id == i32::MAX);
                assert(p1 == p0);
                keys_u.index_of_first_ensures(x);
                if keys_u.index_of_first(x) is Some {
                    let j = keys_u.index_of_first(x)->0;
                    assert(keys_u[j] == u0.articles[j].ap_id.text@);
                    assert(same_keys(u0.articles[j], once.articles[j]));
                    assert(same_keys(once.articles[j], p0.articles[j]));
                    assert(keys_p[j] == p0.articles[j].ap_id.text@);
                    assert(keys_p.contains(keys_p[j]));
                }
                assert(u1 == u0);
            }
        } else {
            assert(p1 == p0);
            assert(u1 == u0);
        }
    } else {
        lemma_sync_grows(store, items, first, 0, total);
    }
}

/// Idempotence of synchronisation. A collection that is taken in once more
/// after it was taken in leaves one row per canonical identifier as before:
/// no article row is added, every row keeps its place, its identifier and
/// all that it holds but the time at which it was last written, and nothing
/// else in the store differs.
pub proof fn lemma_sync_twice(store: Store, items: Seq<UpdateArticle>, first: i64, second: i64)
    requires
        store.wf(),
    ensures
        ({
            let once = store.sync(items, first).0;
            let twice = once.sync(items, second).0;
            &&& twice.articles.len() == once.articles.len()
            &&& forall|r: int|
                0 <= r < once.articles.len() ==> same_but_updated(
                    #[trigger] twice.articles[r],
                    once.articles[r],
                )
            &&& twice == (Store { articles: twice.articles, ..once })
        }),
{
    lemma_resync_upto(store, items, first, second, items.len() as int);
}

impl ApubArticleCollection {
    /// The collection document of the instance with this domain that holds
    /// these items: the total stated is their number. Fails with
    /// `InvalidUrl` where the domain makes no address for the collection.
    pub fn new(items: Vec<UpdateArticle>, domain: &str, https: bool) -> (r: BackendResult<
        ApubArticleCollection,
    >)
        requires
            items@.len() <= i32::MAX,
        ensures
            match r {
                Ok(c) => {
                    &&& c.kind == CollectionType::Collection
                    &&& Some(c.id@) == url_parts(local_articles_text(domain@, https))
                    &&& c.total_items == items@.len()
                    &&& c.items == items
                },
                Err(e) => e == BackendError::InvalidUrl && url_parts(
                    local_articles_text(domain@, https),
                ) is None,
            },
    {
        let id = match local_articles_url(domain, https) {
            Ok(u) => u,
            Err(e) => {
                return Err(e);
            },
        };
        Ok(
            ApubArticleCollection {
                kind: CollectionType::default(),
                id,
                total_items: items.len() as i32,
                items,
            },
        )
    }
}

impl ArticleCollection {
    /// Writes out the collection of this instance's articles: one update per
    /// local article that is not removed, in the order of the table, each
    /// under the activity identifier at its place in `activity_ids`. The
    /// total stated is the number of items.
    #[verifier::loop_isolation(false)]
    pub fn read_local(owner: &(), context: &IbisContext, activity_ids: Vec<DbUrl>) -> (r:
        BackendResult<ApubArticleCollection>)
        requires
            context@.wf(),
        ensures
            match r {
                Ok(c) => context@.collection_refusal(activity_ids@.len() as int) is None
                    && is_local_collection(c, context@, activity_ids@),
                Err(e) => context@.collection_refusal(activity_ids@.len() as int) == Some(e),
            },
    {
        let articles = match Article::read_all(Some(true), None, false, context) {
            Ok(a) => a,
            Err(e) => {
                return Err(e);
            },
        };
        proof {
            lemma_articles_upto_len(
                context@,
                Some(true),
                None,
                false,
                context@.articles.len() as int,
            );
        }
        if activity_ids.len() < articles.len() {
            return Err(BackendError::IdExhausted);
        }
        let mut items: Vec<UpdateArticle> = Vec::new();
        let mut i: usize = 0;
        while i < articles.len()
            invariant
                i <= articles.len(),
                items@.len() == i,
                forall|j: int|
                    0 <= j < i ==> is_item(
                        context@,
                        #[trigger] items@[j],
                        articles@[j],
                        activity_ids@[j],
                    ),
            decreases articles.len() - i,
        {
            let update = match UpdateArticle::new(
                ArticleWrapper(articles[i].clone()),
                activity_ids[i].clone(),
                context,
            ) {
                Ok(u) => u,
                Err(e) => {
                    assert(context@.local_instance() is None || context@.instance(
                        context@.local_articles()[i as int].instance_id,
                    ) is None);
                    return Err(e);
                },
            };
            items.push(update);
            i += 1;
        }
        assert forall|j: int| 0 <= j < context@.local_articles().len() implies context@.instance(
            (#[trigger] context@.local_articles()[j]).instance_id,
        ) is Some by {
            assert(is_item(context@, items@[j], articles@[j], activity_ids@[j]));
        }
        assert(context@.local_articles().len() > 0 ==> context@.local_instance() is Some) by {
            if context@.local_articles().len() > 0 {
                assert(is_item(context@, items@[0], articles@[0], activity_ids@[0]));
            }
        }
        ApubArticleCollection::new(
            items,
            context.conf.federation.domain.as_str(),
            context.conf.https,
        )
    }

    /// Accepts a collection whose identifier is consistent and has the
    /// expected domain.
    pub fn verify(json: &ApubArticleCollection, expected_domain: &DbUrl, context: &IbisContext)
        -> (r: BackendResult<()>)
        ensures
            r == same_origin(json.id@, expected_domain@),
    {
        verify_same_origin(&json.id, expected_domain)
    }

    /// Takes in a peer's collection at the time `now`, item by item in the
    /// order of the collection. An item whose article belongs to this instance
    /// is skipped. Every other item is verified and applied by itself: where
    /// one fails, it writes nothing, what the items before it wrote stays, and
    /// the items after it are still taken in. The failures are returned, each
    /// under the identifier of its article.
    pub fn from_json_at(
        apub: ApubArticleCollection,
        owner: &(),
        now: i64,
        context: &mut IbisContext,
    ) -> (r: BackendResult<ArticleCollection>)
        requires
            old(context)@.wf(),
        ensures
            final(context)@.wf(),
            final(context)@ == old(context)@.sync(apub.items@, now).0,
            r matches Ok(c) && c.0@ == old(context)@.sync(apub.items@, now).1,
    {
        let mut failures: Vec<SyncFailure> = Vec::new();
        let mut i: usize = 0;
        while i < apub.items.len()
            invariant
                i <= apub.items.len(),
                context@.wf(),
                context@ == old(context)@.sync_upto(apub.items@, now, i as int).0,
                failures@ == old(context)@.sync_upto(apub.items@, now, i as int).1,
            decreases apub.items.len() - i,
        {
            let item = &apub.items[i];
            if !is_local_url(&item.object.id, &context.conf.federation.domain) {
                match item.handle_at(now, context) {
                    Ok(()) => {},
                    Err(error) => {
                        failures.push(SyncFailure { id: item.object.id.clone(), error });
                    },
                }
            }
            i += 1;
        }
        Ok(ArticleCollection(failures))
    }

    /// Takes in a peer's collection now: as [`ArticleCollection::from_json_at`]
    /// at the time that the clock gives.
    pub fn from_json(apub: ApubArticleCollection, owner: &(), context: &mut IbisContext) -> (r:
        BackendResult<ArticleCollection>)
        requires
            old(context)@.wf(),
        ensures
            final(context)@.wf(),
            exists|now: i64|
                {
                    &&& now >= 0
                    &&& final(context)@ == (#[trigger] old(context)@.sync(apub.items@, now)).0
                    &&& r matches Ok(c) && c.0@ == old(context)@.sync(apub.items@, now).1
                },
    {
        let now = now_micros();
        ArticleCollection::from_json_at(apub, owner, now, context)
    }
}

} // verus!
