//! The store: the tables that the federation core reads and writes, and the
//! site's configuration.

use crate::instance::Instance;
use crate::newtypes::{ArticleId, CommentId, InstanceId, PersonId};
use crate::records::{Article, Comment, InstanceFollower, Person, SentActivity};
use vstd::prelude::*;

verus! {

/// What the configuration says of federation.
#[derive(Debug)]
pub struct IbisConfigFederation {
    /// The domain under which this instance is reached, with the port where one is needed.
    pub domain: String,
}

/// The site's configuration.
#[derive(Debug)]
pub struct IbisConfig {
    pub federation: IbisConfigFederation,
    /// Whether this instance is reached by `https`.
    pub https: bool,
    /// The greatest depth at which a comment may sit.
    pub max_comment_depth: i32,
}

impl Clone for IbisConfigFederation {
    fn clone(&self) -> (r: Self)
        ensures
            r == *self,
    {
        IbisConfigFederation { domain: self.domain.clone() }
    }
}

impl Clone for IbisConfig {
    fn clone(&self) -> (r: Self)
        ensures
            r == *self,
    {
        IbisConfig {
            federation: self.federation.clone(),
            https: self.https,
            max_comment_depth: self.max_comment_depth,
        }
    }
}

/// The configuration and the tables, each in the order in which its rows were inserted.
#[derive(Debug)]
pub struct IbisContext {
    pub conf: IbisConfig,
    pub instances: Vec<Instance>,
    pub persons: Vec<Person>,
    pub articles: Vec<Article>,
    pub comments: Vec<Comment>,
    pub instance_followers: Vec<InstanceFollower>,
    pub sent_activities: Vec<SentActivity>,
    /// The identifier that the next new article gets.
    pub next_article_id: i32,
    /// The identifier that the next new comment gets.
    pub next_comment_id: i32,
}

/// The mathematical value of an [`IbisContext`].
#[verifier::ext_equal]
pub struct Store {
    pub domain: Seq<char>,
    pub https: bool,
    pub max_comment_depth: i32,
    pub instances: Seq<Instance>,
    pub persons: Seq<Person>,
    pub articles: Seq<Article>,
    pub comments: Seq<Comment>,
    pub instance_followers: Seq<InstanceFollower>,
    pub sent_activities: Seq<SentActivity>,
    pub next_article_id: i32,
    pub next_comment_id: i32,
}

impl View for IbisContext {
    type V = Store;

    open spec fn view(&self) -> Store {
        Store {
            domain: self.conf.federation.domain@,
            https: self.conf.https,
            max_comment_depth: self.conf.max_comment_depth,
            instances: self.instances@,
            persons: self.persons@,
            articles: self.articles@,
            comments: self.comments@,
            instance_followers: self.instance_followers@,
            sent_activities: self.sent_activities@,
            next_article_id: self.next_article_id,
            next_comment_id: self.next_comment_id,
        }
    }
}

/// The identifiers of the comment rows, row by row.
pub open spec fn comment_ids(rows: Seq<Comment>) -> Seq<CommentId> {
    rows.map_values(|c: Comment| c.id)
}

/// The canonical identifiers of the comment rows, row by row.
pub open spec fn comment_ap_ids(rows: Seq<Comment>) -> Seq<Seq<char>> {
    rows.map_values(|c: Comment| c.ap_id.text@)
}

/// The identifiers of the article rows, row by row.
pub open spec fn article_ids(rows: Seq<Article>) -> Seq<ArticleId> {
    rows.map_values(|a: Article| a.id)
}

/// The canonical identifiers of the article rows, row by row.
pub open spec fn article_ap_ids(rows: Seq<Article>) -> Seq<Seq<char>> {
    rows.map_values(|a: Article| a.ap_id.text@)
}

/// The identifiers of the person rows, row by row.
pub open spec fn person_ids(rows: Seq<Person>) -> Seq<PersonId> {
    rows.map_values(|p: Person| p.id)
}

/// The canonical identifiers of the person rows, row by row.
pub open spec fn person_ap_ids(rows: Seq<Person>) -> Seq<Seq<char>> {
    rows.map_values(|p: Person| p.ap_id.text@)
}

/// The identifiers of the instance rows, row by row.
pub open spec fn instance_ids(rows: Seq<Instance>) -> Seq<InstanceId> {
    rows.map_values(|i: Instance| i.id)
}

/// The canonical identifiers of the instance rows, row by row.
pub open spec fn instance_ap_ids(rows: Seq<Instance>) -> Seq<Seq<char>> {
    rows.map_values(|i: Instance| i.ap_id.text@)
}

/// For each instance row, whether it is this instance itself.
pub open spec fn instance_local_flags(rows: Seq<Instance>) -> Seq<bool> {
    rows.map_values(|i: Instance| i.local)
}

/// Whether comment rows can stand in a table whose next identifier is `next`:
/// no two share an identifier or a canonical identifier, and every
/// identifier is positive and below `next`.
pub open spec fn comment_rows_wf(rows: Seq<Comment>, next: i32) -> bool {
    &&& 1 <= next
    &&& rows.len() < next
    &&& forall|i: int| 0 <= i < rows.len() ==> 0 < (#[trigger] rows[i]).id.0 < next
    &&& forall|i: int, j: int|
        0 <= i < j < rows.len() ==> (#[trigger] rows[i]).id != (#[trigger] rows[j]).id
    &&& forall|i: int, j: int|
        0 <= i < j < rows.len() ==> (#[trigger] rows[i]).ap_id.text@ != (
        #[trigger] rows[j]).ap_id.text@
}

/// Whether article rows can stand in a table whose next identifier is `next`:
/// no two share an identifier or a canonical identifier, and every
/// identifier is positive and below `next`.
pub open spec fn article_rows_wf(rows: Seq<Article>, next: i32) -> bool {
    &&& 1 <= next
    &&& rows.len() < next
    &&& forall|i: int| 0 <= i < rows.len() ==> 0 < (#[trigger] rows[i]).id.0 < next
    &&& forall|i: int, j: int|
        0 <= i < j < rows.len() ==> (#[trigger] rows[i]).id != (#[trigger] rows[j]).id
    &&& forall|i: int, j: int|
        0 <= i < j < rows.len() ==> (#[trigger] rows[i]).ap_id.text@ != (
        #[trigger] rows[j]).ap_id.text@
}

impl Store {
    /// The comment table holds one row per identifier and per canonical
    /// identifier, and every identifier was handed out by this table.
    pub open spec fn comments_wf(self) -> bool {
        comment_rows_wf(self.comments, self.next_comment_id)
    }

    /// The article table holds one row per identifier and per canonical
    /// identifier, and every identifier was handed out by this table.
    pub open spec fn articles_wf(self) -> bool {
        article_rows_wf(self.articles, self.next_article_id)
    }

    /// Both tables that the core writes are well formed.
    pub open spec fn wf(self) -> bool {
        self.comments_wf() && self.articles_wf()
    }

    /// The row of the comment with this identifier.
    pub open spec fn comment(self, id: CommentId) -> Option<Comment> {
        match comment_ids(self.comments).index_of_first(id) {
            Some(i) => Some(self.comments[i]),
            None => None,
        }
    }

    /// The row of the comment with this canonical identifier.
    pub open spec fn comment_by_ap_id(self, text: Seq<char>) -> Option<Comment> {
        match comment_ap_ids(self.comments).index_of_first(text) {
            Some(i) => Some(self.comments[i]),
            None => None,
        }
    }

    /// The row of the article with this identifier.
    pub open spec fn article(self, id: ArticleId) -> Option<Article> {
        match article_ids(self.articles).index_of_first(id) {
            Some(i) => Some(self.articles[i]),
            None => None,
        }
    }

    /// The row of the article with this canonical identifier.
    pub open spec fn article_by_ap_id(self, text: Seq<char>) -> Option<Article> {
        match article_ap_ids(self.articles).index_of_first(text) {
            Some(i) => Some(self.articles[i]),
            None => None,
        }
    }

    /// The first row of a person with this identifier.
    pub open spec fn person(self, id: PersonId) -> Option<Person> {
        match person_ids(self.persons).index_of_first(id) {
            Some(i) => Some(self.persons[i]),
            None => None,
        }
    }

    /// The first row of a person with this canonical identifier.
    pub open spec fn person_by_ap_id(self, text: Seq<char>) -> Option<Person> {
        match person_ap_ids(self.persons).index_of_first(text) {
            Some(i) => Some(self.persons[i]),
            None => None,
        }
    }

    /// The first row of an instance with this identifier.
    pub open spec fn instance(self, id: InstanceId) -> Option<Instance> {
        match instance_ids(self.instances).index_of_first(id) {
            Some(i) => Some(self.instances[i]),
            None => None,
        }
    }

    /// The first row of an instance with this canonical identifier.
    pub open spec fn instance_by_ap_id(self, text: Seq<char>) -> Option<Instance> {
        match instance_ap_ids(self.instances).index_of_first(text) {
            Some(i) => Some(self.instances[i]),
            None => None,
        }
    }

    /// The row of this instance itself.
    pub open spec fn local_instance(self) -> Option<Instance> {
        match instance_local_flags(self.instances).index_of_first(true) {
            Some(i) => Some(self.instances[i]),
            None => None,
        }
    }
}

/// The first index is the one before which nothing matches.
pub(crate) proof fn lemma_first_index_is<K>(keys: Seq<K>, k: K, i: int)
    requires
        0 <= i < keys.len(),
        keys[i] == k,
        forall|j: int| 0 <= j < i ==> keys[j] != k,
    ensures
        keys.index_of_first(k) == Some(i),
{
    keys.index_of_first_ensures(k);
    assert(keys.contains(k));
}

/// There is no first index where nothing matches.
pub(crate) proof fn lemma_first_index_none<K>(keys: Seq<K>, k: K)
    requires
        forall|j: int| 0 <= j < keys.len() ==> keys[j] != k,
    ensures
        keys.index_of_first(k) is None,
{
    keys.index_of_first_ensures(k);
}

/// A key that is first found in a sequence is first found at the same place
/// once an item is appended.
pub(crate) proof fn lemma_first_index_push_found<K>(keys: Seq<K>, k: K, x: K)
    requires
        keys.index_of_first(k) is Some,
    ensures
        keys.push(x).index_of_first(k) == keys.index_of_first(k),
{
    keys.index_of_first_ensures(k);
    let i = keys.index_of_first(k)->0;
    lemma_first_index_is(keys.push(x), k, i);
}

/// A key that a sequence does not hold is first found at the end once it is
/// appended, and any other such key is still not found.
pub(crate) proof fn lemma_first_index_push_missing<K>(keys: Seq<K>, k: K, x: K)
    requires
        keys.index_of_first(k) is None,
    ensures
        x == k ==> keys.push(x).index_of_first(k) == Some(keys.len() as int),
        x != k ==> keys.push(x).index_of_first(k) is None,
{
    keys.index_of_first_ensures(k);
    if x == k {
        assert forall|j: int| 0 <= j < keys.len() implies keys.push(x)[j] != k by {
            assert(keys.contains(keys[j]));
        }
        lemma_first_index_is(keys.push(x), k, keys.len() as int);
    } else {
        assert forall|j: int| 0 <= j < keys.push(x).len() implies keys.push(x)[j] != k by {
            if j < keys.len() {
                assert(keys.contains(keys[j]));
            }
        }
        lemma_first_index_none(keys.push(x), k);
    }
}

/// Where the first comment with this identifier stands.
pub fn find_comment(rows: &Vec<Comment>, id: CommentId) -> (r: Option<usize>)
    ensures
        match r {
            Some(i) => i < rows@.len() && rows@[i as int].id == id && comment_ids(
                rows@,
            ).index_of_first(id) == Some(i as int),
            None => comment_ids(rows@).index_of_first(id) is None && forall|j: int|
                0 <= j < rows@.len() ==> (#[trigger] rows@[j]).id != id,
        },
{
    let mut i: usize = 0;
    while i < rows.len()
        invariant
            i <= rows.len(),
            forall|j: int| 0 <= j < i ==> (#[trigger] rows@[j]).id != id,
        decreases rows.len() - i,
    {
        if rows[i].id == id {
            proof {
                lemma_first_index_is(comment_ids(rows@), id, i as int);
            }
            return Some(i);
        }
        i += 1;
    }
    proof {
        lemma_first_index_none(comment_ids(rows@), id);
    }
    None
}

/// Where the first comment with this canonical identifier stands.
pub fn find_comment_by_ap_id(rows: &Vec<Comment>, text: &String) -> (r: Option<usize>)
    ensures
        match r {
            Some(i) => i < rows@.len() && rows@[i as int].ap_id.text@ == text@ && comment_ap_ids(
                rows@,
            ).index_of_first(text@) == Some(i as int),
            None => comment_ap_ids(rows@).index_of_first(text@) is None && forall|j: int|
                0 <= j < rows@.len() ==> (#[trigger] rows@[j]).ap_id.text@ != text@,
        },
{
    let mut i: usize = 0;
    while i < rows.len()
        invariant
            i <= rows.len(),
            forall|j: int| 0 <= j < i ==> (#[trigger] rows@[j]).ap_id.text@ != text@,
        decreases rows.len() - i,
    {
        let same = rows[i].ap_id.text == *text;
        if same {
            proof {
                lemma_first_index_is(comment_ap_ids(rows@), text@, i as int);
            }
            return Some(i);
        }
        i += 1;
    }
    proof {
        lemma_first_index_none(comment_ap_ids(rows@), text@);
    }
    None
}

/// Where the first article with this identifier stands.
pub fn find_article(rows: &Vec<Article>, id: ArticleId) -> (r: Option<usize>)
    ensures
        match r {
            Some(i) => i < rows@.len() && rows@[i as int].id == id && article_ids(
                rows@,
            ).index_of_first(id) == Some(i as int),
            None => article_ids(rows@).index_of_first(id) is None && forall|j: int|
                0 <= j < rows@.len() ==> (#[trigger] rows@[j]).id != id,
        },
{
    let mut i: usize = 0;
    while i < rows.len()
        invariant
            i <= rows.len(),
            forall|j: int| 0 <= j < i ==> (#[trigger] rows@[j]).id != id,
        decreases rows.len() - i,
    {
        if rows[i].id == id {
            proof {
                lemma_first_index_is(article_ids(rows@), id, i as int);
            }
            return Some(i);
        }
        i += 1;
    }
    proof {
        lemma_first_index_none(article_ids(rows@), id);
    }
    None
}

/// Where the first article with this canonical identifier stands.
pub fn find_article_by_ap_id(rows: &Vec<Article>, text: &String) -> (r: Option<usize>)
    ensures
        match r {
            Some(i) => i < rows@.len() && rows@[i as int].ap_id.text@ == text@ && article_ap_ids(
                rows@,
            ).index_of_first(text@) == Some(i as int),
            None => article_ap_ids(rows@).index_of_first(text@) is None && forall|j: int|
                0 <= j < rows@.len() ==> (#[trigger] rows@[j]).ap_id.text@ != text@,
        },
{
    let mut i: usize = 0;
    while i < rows.len()
        invariant
            i <= rows.len(),
            forall|j: int| 0 <= j < i ==> (#[trigger] rows@[j]).ap_id.text@ != text@,
        decreases rows.len() - i,
    {
        if rows[i].ap_id.text == *text {
            proof {
                lemma_first_index_is(article_ap_ids(rows@), text@, i as int);
            }
            return Some(i);
        }
        i += 1;
    }
    proof {
        lemma_first_index_none(article_ap_ids(rows@), text@);
    }
    None
}

/// Where the first person with this identifier stands.
pub fn find_person(rows: &Vec<Person>, id: PersonId) -> (r: Option<usize>)
    ensures
        match r {
            Some(i) => i < rows@.len() && rows@[i as int].id == id && person_ids(
                rows@,
            ).index_of_first(id) == Some(i as int),
            None => person_ids(rows@).index_of_first(id) is None,
        },
{
    let mut i: usize = 0;
    while i < rows.len()
        invariant
            i <= rows.len(),
            forall|j: int| 0 <= j < i ==> (#[trigger] rows@[j]).id != id,
        decreases rows.len() - i,
    {
        if rows[i].id == id {
            proof {
                lemma_first_index_is(person_ids(rows@), id, i as int);
            }
            return Some(i);
        }
        i += 1;
    }
    proof {
        lemma_first_index_none(person_ids(rows@), id);
    }
    None
}

/// Where the first person with this canonical identifier stands.
pub fn find_person_by_ap_id(rows: &Vec<Person>, text: &String) -> (r: Option<usize>)
    ensures
        match r {
            Some(i) => i < rows@.len() && rows@[i as int].ap_id.text@ == text@ && person_ap_ids(
                rows@,
            ).index_of_first(text@) == Some(i as int),
            None => person_ap_ids(rows@).index_of_first(text@) is None,
        },
{
    let mut i: usize = 0;
    while i < rows.len()
        invariant
            i <= rows.len(),
            forall|j: int| 0 <= j < i ==> (#[trigger] rows@[j]).ap_id.text@ != text@,
        decreases rows.len() - i,
    {
        if rows[i].ap_id.text == *text {
            proof {
                lemma_first_index_is(person_ap_ids(rows@), text@, i as int);
            }
            return Some(i);
        }
        i += 1;
    }
    proof {
        lemma_first_index_none(person_ap_ids(rows@), text@);
    }
    None
}

/// Where the first instance with this identifier stands.
pub fn find_instance(rows: &Vec<Instance>, id: InstanceId) -> (r: Option<usize>)
    ensures
        match r {
            Some(i) => i < rows@.len() && rows@[i as int].id == id && instance_ids(
                rows@,
            ).index_of_first(id) == Some(i as int),
            None => instance_ids(rows@).index_of_first(id) is None,
        },
{
    let mut i: usize = 0;
    while i < rows.len()
        invariant
            i <= rows.len(),
            forall|j: int| 0 <= j < i ==> (#[trigger] rows@[j]).id != id,
        decreases rows.len() - i,
    {
        if rows[i].id == id {
            proof {
                lemma_first_index_is(instance_ids(rows@), id, i as int);
            }
            return Some(i);
        }
        i += 1;
    }
    proof {
        lemma_first_index_none(instance_ids(rows@), id);
    }
    None
}

/// Where the first instance with this canonical identifier stands.
pub fn find_instance_by_ap_id(rows: &Vec<Instance>, text: &String) -> (r: Option<usize>)
    ensures
        match r {
            Some(i) => i < rows@.len() && rows@[i as int].ap_id.text@ == text@
                && instance_ap_ids(rows@).index_of_first(text@) == Some(i as int),
            None => instance_ap_ids(rows@).index_of_first(text@) is None,
        },
{
    let mut i: usize = 0;
    while i < rows.len()
        invariant
            i <= rows.len(),
            forall|j: int| 0 <= j < i ==> (#[trigger] rows@[j]).ap_id.text@ != text@,
        decreases rows.len() - i,
    {
        if rows[i].ap_id.text == *text {
            proof {
                lemma_first_index_is(instance_ap_ids(rows@), text@, i as int);
            }
            return Some(i);
        }
        i += 1;
    }
    proof {
        lemma_first_index_none(instance_ap_ids(rows@), text@);
    }
    None
}

/// Where the row of this instance itself stands.
pub fn find_local_instance(rows: &Vec<Instance>) -> (r: Option<usize>)
    ensures
        match r {
            Some(i) => i < rows@.len() && rows@[i as int].local && instance_local_flags(
                rows@,
            ).index_of_first(true) == Some(i as int),
            None => instance_local_flags(rows@).index_of_first(true) is None,
        },
{
    let mut i: usize = 0;
    while i < rows.len()
        invariant
            i <= rows.len(),
            forall|j: int| 0 <= j < i ==> !(#[trigger] rows@[j]).local,
        decreases rows.len() - i,
    {
        if rows[i].local {
            proof {
                lemma_first_index_is(instance_local_flags(rows@), true, i as int);
            }
            return Some(i);
        }
        i += 1;
    }
    proof {
        lemma_first_index_none(instance_local_flags(rows@), true);
    }
    None
}

/// Whether comment rows can stand in a table whose next identifier is `next`.
fn comment_rows_well_formed(rows: &Vec<Comment>, next: i32) -> (b: bool)
    ensures
        b == comment_rows_wf(rows@, next),
{
    if next < 1 || rows.len() >= next as usize {
        return false;
    }
    let mut i: usize = 0;
    while i < rows.len()
        invariant
            i <= rows.len(),
            forall|a: int| 0 <= a < i ==> 0 < (#[trigger] rows@[a]).id.0 < next,
            forall|a: int, c: int|
                0 <= a < i && a < c < rows@.len() ==> (#[trigger] rows@[a]).id != (
                #[trigger] rows@[c]).id,
            forall|a: int, c: int|
                0 <= a < i && a < c < rows@.len() ==> (#[trigger] rows@[a]).ap_id.text@ != (
                #[trigger] rows@[c]).ap_id.text@,
        decreases rows.len() - i,
    {
        if rows[i].id.0 <= 0 || rows[i].id.0 >= next {
            return false;
        }
        let mut j: usize = i + 1;
        while j < rows.len()
            invariant
                i < j <= rows.len(),
                forall|c: int| i < c < j ==> rows@[i as int].id != (#[trigger] rows@[c]).id,
                forall|c: int|
                    i < c < j ==> rows@[i as int].ap_id.text@ != (#[trigger] rows@[c]).ap_id.text@,
            decreases rows.len() - j,
        {
            if rows[i].id == rows[j].id {
                return false;
            }
            if rows[i].ap_id.text == rows[j].ap_id.text {
                return false;
            }
            j += 1;
        }
        i += 1;
    }
    true
}

/// Whether article rows can stand in a table whose next identifier is `next`.
fn article_rows_well_formed(rows: &Vec<Article>, next: i32) -> (b: bool)
    ensures
        b == article_rows_wf(rows@, next),
{
    if next < 1 || rows.len() >= next as usize {
        return false;
    }
    let mut i: usize = 0;
    while i < rows.len()
        invariant
            i <= rows.len(),
            forall|a: int| 0 <= a < i ==> 0 < (#[trigger] rows@[a]).id.0 < next,
            forall|a: int, c: int|
                0 <= a < i && a < c < rows@.len() ==> (#[trigger] rows@[a]).id != (
                #[trigger] rows@[c]).id,
            forall|a: int, c: int|
                0 <= a < i && a < c < rows@.len() ==> (#[trigger] rows@[a]).ap_id.text@ != (
                #[trigger] rows@[c]).ap_id.text@,
        decreases rows.len() - i,
    {
        if rows[i].id.0 <= 0 || rows[i].id.0 >= next {
            return false;
        }
        let mut j: usize = i + 1;
        while j < rows.len()
            invariant
                i < j <= rows.len(),
                forall|c: int| i < c < j ==> rows@[i as int].id != (#[trigger] rows@[c]).id,
                forall|c: int|
                    i < c < j ==> rows@[i as int].ap_id.text@ != (#[trigger] rows@[c]).ap_id.text@,
            decreases rows.len() - j,
        {
            if rows[i].id == rows[j].id {
                return false;
            }
            if rows[i].ap_id.text == rows[j].ap_id.text {
                return false;
            }
            j += 1;
        }
        i += 1;
    }
    true
}

impl IbisContext {
    /// Whether the tables that the core writes are well formed. A store that
    /// was made by [`IbisContext::new`] and changed only by the functions of
    /// this library is; one whose rows were written by hand has to be checked
    /// before it is handed to a function that asks for a well-formed store.
    pub fn is_well_formed(&self) -> (b: bool)
        ensures
            b == self@.wf(),
    {
        comment_rows_well_formed(&self.comments, self.next_comment_id) && article_rows_well_formed(
            &self.articles,
            self.next_article_id,
        )
    }

    /// A store without rows.
    pub fn new(conf: IbisConfig) -> (context: IbisContext)
        ensures
            context@.wf(),
            context.conf == conf,
            context@.instances.len() == 0,
            context@.persons.len() == 0,
            context@.articles.len() == 0,
            context@.comments.len() == 0,
            context@.instance_followers.len() == 0,
            context@.sent_activities.len() == 0,
            context@.next_article_id == 1,
            context@.next_comment_id == 1,
    {
        IbisContext {
            conf,
            instances: Vec::new(),
            persons: Vec::new(),
            articles: Vec::new(),
            comments: Vec::new(),
            instance_followers: Vec::new(),
            sent_activities: Vec::new(),
            next_article_id: 1,
            next_comment_id: 1,
        }
    }
}

} // verus!
