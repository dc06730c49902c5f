use ibis_core::article_actions::{
    fork_disabled, fork_params, shows_admin_actions, toggle_protection, toggle_removal,
};
use ibis_core::db_url::DbUrl;
use ibis_core::newtypes::{ArticleId, InstanceId};
use ibis_core::records::Article;

fn article(local: bool, protected: bool, removed: bool) -> Article {
    Article {
        id: ArticleId(4),
        title: "Rust".to_string(),
        text: String::new(),
        ap_id: DbUrl::parse("https://example.com/article/Rust").unwrap(),
        instance_id: InstanceId(1),
        local,
        protected,
        removed,
        published: 0,
        updated: 0,
    }
}

#[test]
fn only_administrators_see_the_controls_and_only_on_local_articles() {
    assert!(shows_admin_actions(true, &article(true, false, false)));
    assert!(!shows_admin_actions(false, &article(true, false, false)));
    assert!(!shows_admin_actions(true, &article(false, false, false)));
    assert!(!shows_admin_actions(false, &article(false, false, false)));
}

#[test]
fn the_fork_button_waits_for_a_title() {
    assert!(fork_disabled(""));
    assert!(!fork_disabled("Rust (fork)"));
    assert!(!fork_disabled(" "));
}

#[test]
fn a_toggle_asks_for_the_opposite() {
    let on = toggle_protection(&article(true, false, false));
    assert_eq!(on.article_id, ArticleId(4));
    assert!(on.protected);
    assert!(!toggle_protection(&article(true, true, false)).protected);
    let gone = toggle_removal(&article(true, false, false));
    assert_eq!(gone.article_id, ArticleId(4));
    assert!(gone.removed);
    assert!(!toggle_removal(&article(true, false, true)).removed);
}

#[test]
fn a_fork_names_the_article_and_the_new_title() {
    let params = fork_params(&article(false, false, false), "Rust (fork)".to_string());
    assert_eq!(params.article_id, ArticleId(4));
    assert_eq!(params.new_title, "Rust (fork)");
}
