//! The comments of one article as readers are shown them, newest first.

use crate::comment_store::{redact, redacted};
use crate::context::{find_person, IbisContext, Store};
use crate::error::BackendResult;
use crate::newtypes::ArticleId;
use crate::records::{Comment, CommentView, CommentViewData};
use vstd::prelude::*;

verus! {

/// The views of a list of comments with their authors.
pub open spec fn comment_views(list: Seq<CommentView>) -> Seq<CommentViewData> {
    list.map_values(|v: CommentView| v@)
}

/// No entry of the list is older than the one after it.
pub open spec fn newest_first(list: Seq<CommentViewData>) -> bool {
    forall|i: int, j: int|
        0 <= i <= j < list.len() ==> (#[trigger] list[i]).comment.published >= (
        #[trigger] list[j]).comment.published
}

impl Store {
    /// What the listing of an article shows of one comment row: nothing where the
    /// row belongs to another article or its author is not stored.
    pub open spec fn listed(self, c: Comment, article_id: ArticleId) -> Option<CommentViewData> {
        if c.article_id == article_id {
            match self.person(c.creator_id) {
                Some(creator) => Some(CommentViewData { comment: redacted(c@), creator }),
                None => None,
            }
        } else {
            None
        }
    }

    /// What the listing of an article shows of the first `n` comment rows, in the
    /// order of the table.
    pub open spec fn listing_upto(self, article_id: ArticleId, n: int) -> Seq<CommentViewData>
        decreases n,
    {
        if n <= 0 {
            Seq::empty()
        } else {
            let before = self.listing_upto(article_id, n - 1);
            match self.listed(self.comments[n - 1], article_id) {
                Some(v) => before.push(v),
                None => before,
            }
        }
    }

    /// What the listing of an article shows, in the order of the table.
    pub open spec fn listing(self, article_id: ArticleId) -> Seq<CommentViewData> {
        self.listing_upto(article_id, self.comments.len() as int)
    }

    /// What the listing of an article shows of the first `n` comment rows,
    /// newest first; comments published at the same moment stand in the order
    /// of the table.
    pub open spec fn sorted_listing_upto(self, article_id: ArticleId, n: int) -> Seq<
        CommentViewData,
    >
        decreases n,
    {
        if n <= 0 {
            Seq::empty()
        } else {
            let before = self.sorted_listing_upto(article_id, n - 1);
            match self.listed(self.comments[n - 1], article_id) {
                Some(v) => placed(before, v),
                None => before,
            }
        }
    }

    /// What the listing of an article shows, newest first; comments published
    /// at the same moment stand in the order of the table.
    pub open spec fn sorted_listing(self, article_id: ArticleId) -> Seq<CommentViewData> {
        self.sorted_listing_upto(article_id, self.comments.len() as int)
    }
}

/// Where an entry published at `published` goes into a list that is read from
/// `from` on: before the first entry that is older.
pub open spec fn place_from(list: Seq<CommentViewData>, published: i64, from: int) -> int
    decreases list.len() - from,
{
    if from < 0 || from >= list.len() || list[from].comment.published < published {
        from
    } else {
        place_from(list, published, from + 1)
    }
}

/// A list with one more entry, put before the first entry that is older.
pub open spec fn placed(list: Seq<CommentViewData>, v: CommentViewData) -> Seq<CommentViewData> {
    list.insert(place_from(list, v.comment.published, 0), v)
}

/// An entry goes to a place within the list, after the entries that are not
/// older and before one that is.
proof fn lemma_place(list: Seq<CommentViewData>, published: i64, from: int)
    requires
        0 <= from <= list.len(),
    ensures
        from <= place_from(list, published, from) <= list.len(),
        forall|j: int|
            from <= j < place_from(list, published, from) ==> (#[trigger] list[j]).comment.published
                >= published,
        place_from(list, published, from) < list.len() ==> list[place_from(
            list,
            published,
            from,
        )].comment.published < published,
    decreases list.len() - from,
{
    if from < list.len() && list[from].comment.published >= published {
        lemma_place(list, published, from + 1);
    }
}

/// Order of the listing. The sorted listing is newest first.
pub proof fn lemma_sorted_listing_is_newest_first(store: Store, article_id: ArticleId, n: int)
    ensures
        newest_first(store.sorted_listing_upto(article_id, n)),
    decreases n,
{
    if n > 0 {
        lemma_sorted_listing_is_newest_first(store, article_id, n - 1);
        let before = store.sorted_listing_upto(article_id, n - 1);
        match store.listed(store.comments[n - 1], article_id) {
            Some(v) => {
                lemma_place(before, v.comment.published, 0);
                let k = place_from(before, v.comment.published, 0);
                let after = placed(before, v);
                assert forall|j: int| k <= j < before.len() implies (
                #[trigger] before[j]).comment.published <= v.comment.published by {
                    assert(before[k].comment.published >= before[j].comment.published);
                }
                assert forall|a: int, b: int| 0 <= a <= b < after.len() implies (
                #[trigger] after[a]).comment.published >= (
                #[trigger] after[b]).comment.published by {
                    if a < k && b > k {
                        assert(after[a] == before[a]);
                        assert(after[b] == before[b - 1]);
                    } else if a < k && b < k {
                        assert(after[a] == before[a]);
                        assert(after[b] == before[b]);
                    } else if a > k {
                        assert(after[a] == before[a - 1]);
                        assert(after[b] == before[b - 1]);
                    } else if a == k && b > k {
                        assert(after[b] == before[b - 1]);
                    } else if b == k && a < k {
                        assert(after[a] == before[a]);
                    }
                }
            },
            None => {},
        }
    }
}

/// Content of the listing. The sorted listing holds what the listing in the
/// order of the table holds, each entry as often: sorting neither drops nor
/// invents a comment.
pub proof fn lemma_sorted_listing_is_listing(store: Store, article_id: ArticleId, n: int)
    ensures
        store.sorted_listing_upto(article_id, n).to_multiset() == store.listing_upto(
            article_id,
            n,
        ).to_multiset(),
    decreases n,
{
    if n > 0 {
        lemma_sorted_listing_is_listing(store, article_id, n - 1);
        let before = store.sorted_listing_upto(article_id, n - 1);
        match store.listed(store.comments[n - 1], article_id) {
            Some(v) => {
                lemma_place(before, v.comment.published, 0);
                lemma_insert_multiset(before, place_from(before, v.comment.published, 0), v);
                vstd::seq_lib::to_multiset_build(store.listing_upto(article_id, n - 1), v);
            },
            None => {},
        }
    }
}



/// Redaction in listings. Every entry of the listing of an article shows a
/// comment row of that article as readers are to see it: without content
/// where the row is marked deleted, and otherwise unchanged.
pub proof fn lemma_listing_is_redacted(store: Store, article_id: ArticleId, n: int, i: int)
    requires
        0 <= n <= store.comments.len(),
        0 <= i < store.listing_upto(article_id, n).len(),
    ensures
        exists|k: int|
            0 <= k < n && (#[trigger] store.comments[k]).article_id == article_id
                && store.listing_upto(article_id, n)[i].comment == redacted(store.comments[k]@),
        store.listing_upto(article_id, n)[i].comment.deleted ==> store.listing_upto(
            article_id,
            n,
        )[i].comment.content.len() == 0,
    decreases n,
{
    let before = store.listing_upto(article_id, n - 1);
    if i < before.len() {
        lemma_listing_is_redacted(store, article_id, n - 1, i);
        let k = choose|k: int|
            0 <= k < n - 1 && (#[trigger] store.comments[k]).article_id == article_id
                && before[i].comment == redacted(store.comments[k]@);
        assert(store.listing_upto(article_id, n)[i] == before[i]);
        assert(store.comments[k].article_id == article_id);
    } else {
        assert(store.comments[n - 1].article_id == article_id);
    }
}

/// Redaction in what readers get. Every entry of the sorted listing of an
/// article, which is what [`Comment::read_for_article`] returns, shows a
/// comment row of that article as readers are to see it: without content
/// where the row is marked deleted, and with the row's identifier, parent
/// and depth.
pub proof fn lemma_sorted_listing_is_redacted(
    store: Store,
    article_id: ArticleId,
    n: int,
    i: int,
)
    requires
        0 <= n <= store.comments.len(),
        0 <= i < store.sorted_listing_upto(article_id, n).len(),
    ensures
        exists|k: int|
            0 <= k < n && (#[trigger] store.comments[k]).article_id == article_id
                && store.sorted_listing_upto(article_id, n)[i].comment == redacted(
                store.comments[k]@,
            ),
        store.sorted_listing_upto(article_id, n)[i].comment.deleted ==> store.sorted_listing_upto(
            article_id,
            n,
        )[i].comment.content.len() == 0,
    decreases n,
{
    let before = store.sorted_listing_upto(article_id, n - 1);
    let now = store.sorted_listing_upto(article_id, n);
    match store.listed(store.comments[n - 1], article_id) {
        Some(v) => {
            lemma_place(before, v.comment.published, 0);
            let at = place_from(before, v.comment.published, 0);
            if i == at {
                assert(now[i] == v);
                assert(store.comments[n - 1].article_id == article_id);
            } else {
                let j = if i < at {
                    i
                } else {
                    i - 1
                };
                assert(now[i] == before[j]);
                lemma_sorted_listing_is_redacted(store, article_id, n - 1, j);
                let k = choose|k: int|
                    0 <= k < n - 1 && (#[trigger] store.comments[k]).article_id == article_id
                        && before[j].comment == redacted(store.comments[k]@);
                assert(store.comments[k].article_id == article_id);
            }
        },
        None => {
            lemma_sorted_listing_is_redacted(store, article_id, n - 1, i);
            let k = choose|k: int|
                0 <= k < n - 1 && (#[trigger] store.comments[k]).article_id == article_id
                    && before[i].comment == redacted(store.comments[k]@);
            assert(store.comments[k].article_id == article_id);
        },
    }
}

/// Inserting into a sequence adds one occurrence of the item to what it holds.
proof fn lemma_insert_multiset<T>(s: Seq<T>, k: int, x: T)
    requires
        0 <= k <= s.len(),
    ensures
        s.insert(k, x).to_multiset() == s.to_multiset().insert(x),
{
    let t = s.insert(k, x);
    assert(t.remove(k) =~= s);
    vstd::seq_lib::to_multiset_remove(t, k);
    t.to_multiset_ensures();
    assert(t[k] == x);
    assert(t.contains(x));
    assert(t.to_multiset() =~= t.to_multiset().remove(x).insert(x));
}

impl Comment {
    /// The comments of an article with their authors, newest first, each as
    /// readers are shown it. A comment whose author is not stored is left out.
    /// Comments published at the same moment come in the order of the table.
    pub fn read_for_article(article_id: ArticleId, context: &IbisContext) -> (r: BackendResult<
        Vec<CommentView>,
    >)
        ensures
            r matches Ok(list) && comment_views(list@) == context@.sorted_listing(article_id),
    {
        let mut out: Vec<CommentView> = Vec::new();
        let mut i: usize = 0;
        assert(comment_views(out@) =~= Seq::<CommentViewData>::empty());
        while i < context.comments.len()
            invariant
                i <= context.comments.len(),
                comment_views(out@) == context@.sorted_listing_upto(article_id, i as int),
            decreases context.comments.len() - i,
        {
            let row = &context.comments[i];
            if row.article_id == article_id {
                match find_person(&context.persons, row.creator_id) {
                    Some(p) => {
                        let shown = CommentView {
                            comment: redact(row),
                            creator: context.persons[p].clone(),
                        };
                        let ghost before = comment_views(out@);
                        let mut k: usize = 0;
                        while k < out.len() && out[k].comment.published >= shown.comment.published
                            invariant
                                k <= out.len(),
                                before == comment_views(out@),
                                place_from(before, shown.comment.published, 0) == place_from(
                                    before,
                                    shown.comment.published,
                                    k as int,
                                ),
                            decreases out.len() - k,
                        {
                            assert(before[k as int] == out@[k as int]@);
                            k += 1;
                        }
                        assert(place_from(before, shown.comment.published, k as int) == k) by {
                            if k < out.len() {
                                assert(before[k as int] == out@[k as int]@);
                            }
                        }
                        out.insert(k, shown);
                        assert(comment_views(out@) =~= before.insert(k as int, shown@));
                    },
                    None => {},
                }
            }
            i += 1;
        }
        Ok(out)
    }
}

} // verus!
