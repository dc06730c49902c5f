//! What the page of an article's actions decides: which controls it shows,
//! and what a click asks of the server.

use crate::newtypes::ArticleId;
use crate::records::Article;
use vstd::prelude::*;
use vstd::string::StrSliceExecFns;

verus! {

/// The request to copy an article to this instance under a new title.
#[derive(Debug)]
pub struct ForkArticleParams {
    pub article_id: ArticleId,
    pub new_title: String,
}

/// The request to set the protection of an article.
#[derive(Clone, Copy, Debug, PartialEq, Eq, Structural)]
pub struct ProtectArticleParams {
    pub article_id: ArticleId,
    pub protected: bool,
}

/// The request to set the removal of an article.
#[derive(Clone, Copy, Debug, PartialEq, Eq, Structural)]
pub struct RemoveArticleParams {
    pub article_id: ArticleId,
    pub removed: bool,
}

/// Whether the controls for protection and removal are shown: to
/// administrators, on an article of this instance.
pub fn shows_admin_actions(is_admin: bool, article: &Article) -> (shown: bool)
    ensures
        shown == (is_admin && article.local),
{
    is_admin && article.local
}

/// Whether the button that forks is disabled: as long as no new title is entered.
pub fn fork_disabled(new_title: &str) -> (disabled: bool)
    ensures
        disabled == (new_title@.len() == 0),
{
    new_title.unicode_len() == 0
}

/// What a click on the protection toggle asks for: the opposite of what the article has.
pub fn toggle_protection(article: &Article) -> (params: ProtectArticleParams)
    ensures
        params.article_id == article.id,
        params.protected == !article.protected,
{
    ProtectArticleParams { article_id: article.id, protected: !article.protected }
}

/// What a click on the removal toggle asks for: the opposite of what the article has.
pub fn toggle_removal(article: &Article) -> (params: RemoveArticleParams)
    ensures
        params.article_id == article.id,
        params.removed == !article.removed,
{
    RemoveArticleParams { article_id: article.id, removed: !article.removed }
}

/// What a click on the fork button asks for.
pub fn fork_params(article: &Article, new_title: String) -> (params: ForkArticleParams)
    ensures
        params.article_id == article.id,
        params.new_title == new_title,
{
    ForkArticleParams { article_id: article.id, new_title }
}

} // verus!
