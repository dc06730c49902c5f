use ibis_core::activities::UpdateArticle;
use ibis_core::apub_article::ApubArticle;
use ibis_core::article_store::DbArticleForm;
use ibis_core::articles_collection::{
    http_protocol_str, local_articles_url, ApubArticleCollection, ArticleCollection,
};
use ibis_core::context::{IbisConfig, IbisConfigFederation, IbisContext};
use ibis_core::db_url::DbUrl;
use ibis_core::error::BackendError;
use ibis_core::instance::Instance;
use ibis_core::kinds::{ArticleType, CollectionType, UpdateType};
use ibis_core::newtypes::InstanceId;
use ibis_core::records::Article;

fn url(text: &str) -> DbUrl {
    DbUrl::parse(text).unwrap()
}

fn instance(id: i32, domain: &str, local: bool) -> Instance {
    Instance {
        id: InstanceId(id),
        domain: domain.to_string(),
        ap_id: url(&format!("https://{domain}/")),
        topic: None,
        articles_url: None,
        inbox_url: format!("https://{domain}/inbox"),
        public_key: "key".to_string(),
        private_key: None,
        last_refreshed_at: 0,
        local,
        instances_url: url(&format!("https://{domain}/linked_instances")),
        name: None,
    }
}

fn context() -> IbisContext {
    let mut context = IbisContext::new(IbisConfig {
        federation: IbisConfigFederation { domain: "example.com".to_string() },
        https: true,
        max_comment_depth: 10,
    });
    context.instances.push(instance(1, "example.com", true));
    context.instances.push(instance(2, "remote.com", false));
    context
}

fn item(domain: &str, title: &str) -> UpdateArticle {
    UpdateArticle {
        actor: url(&format!("https://{domain}/")),
        to: vec![],
        object: ApubArticle {
            kind: ArticleType::Article,
            id: url(&format!("https://{domain}/article/{title}")),
            attributed_to: url(&format!("https://{domain}/")),
            to: vec![],
            name: title.to_string(),
            content: format!("About {title}"),
            protected: false,
        },
        kind: UpdateType::Update,
        id: url(&format!("https://{domain}/activity/{title}")),
    }
}

fn collection(items: Vec<UpdateArticle>) -> ApubArticleCollection {
    ApubArticleCollection {
        kind: CollectionType::Collection,
        id: url("https://remote.com/all_articles"),
        total_items: items.len() as i32,
        items,
    }
}

fn local_article(context: &mut IbisContext, title: &str, local: bool) -> Article {
    let host = if local { "example.com" } else { "remote.com" };
    let form = DbArticleForm {
        title: title.to_string(),
        text: String::new(),
        ap_id: url(&format!("https://{host}/article/{title}")),
        instance_id: InstanceId(if local { 1 } else { 2 }),
        local,
        protected: false,
        updated: 1_000,
    };
    Article::create_or_update(form, context).unwrap()
}

#[test]
fn the_scheme_follows_the_configuration() {
    assert_eq!(http_protocol_str(true), "https");
    assert_eq!(http_protocol_str(false), "http");
}

#[test]
fn the_address_of_the_collection_is_built_from_the_domain() {
    assert_eq!(
        local_articles_url("example.com", true).unwrap().text,
        "https://example.com/all_articles"
    );
    assert_eq!(
        local_articles_url("localhost:8131", false).unwrap().text,
        "http://localhost:8131/all_articles"
    );
    assert_eq!(local_articles_url("a b", true).err(), Some(BackendError::InvalidUrl));
}

#[test]
fn one_malformed_item_among_three_leaves_two_articles_and_one_failure() {
    let mut context = context();
    let mut malformed = item("remote.com", "Broken");
    malformed.id = url("https://evil.net/activity/Broken");
    let apub = collection(vec![item("remote.com", "One"), malformed, item("remote.com", "Three")]);
    let done = ArticleCollection::from_json_at(apub, &(), 2_000, &mut context).unwrap();
    let titles: Vec<&str> = context.articles.iter().map(|a| a.title.as_str()).collect();
    assert_eq!(titles, vec!["One", "Three"]);
    assert_eq!(done.0.len(), 1);
    assert_eq!(done.0[0].id.text, "https://remote.com/article/Broken");
    assert_eq!(done.0[0].error, BackendError::DomainMismatch);
    assert!(context.is_well_formed());
}

#[test]
fn a_failure_at_any_place_leaves_the_other_items_stored() {
    for bad in 0..4 {
        let mut context = context();
        let mut items: Vec<UpdateArticle> =
            ["A", "B", "C", "D"].iter().map(|t| item("remote.com", t)).collect();
        items[bad].object.attributed_to = url("https://unknown.org/");
        let failed_id = items[bad].object.id.text.clone();
        let done =
            ArticleCollection::from_json_at(collection(items), &(), 2_000, &mut context).unwrap();
        assert_eq!(context.articles.len(), 3);
        assert!(context.articles.iter().all(|a| a.ap_id.text != failed_id));
        assert_eq!(done.0.len(), 1);
        assert_eq!(done.0[0].id.text, failed_id);
        assert_eq!(done.0[0].error, BackendError::NotFound);
    }
}

#[test]
fn a_collection_taken_in_twice_only_refreshes_its_rows() {
    let mut context = context();
    let mut orphan = item("remote.com", "Orphan");
    orphan.object.attributed_to = url("https://unknown.org/");
    let mut revised = item("remote.com", "One");
    revised.object.content = "About One, revised".to_string();
    let items = || {
        let mut orphan = item("remote.com", "Orphan");
        orphan.object.attributed_to = url("https://unknown.org/");
        let mut revised = item("remote.com", "One");
        revised.object.content = "About One, revised".to_string();
        vec![item("remote.com", "One"), orphan, item("remote.com", "Two"), revised]
    };
    drop((orphan, revised));
    let first = ArticleCollection::from_json_at(collection(items()), &(), 2_000, &mut context)
        .unwrap();
    assert_eq!(first.0.len(), 1);
    assert_eq!(context.articles.len(), 2);
    assert_eq!(context.articles[0].text, "About One, revised");
    let mut expected: Vec<Article> = context.articles.clone();
    let next_id = context.next_article_id;
    let second = ArticleCollection::from_json_at(collection(items()), &(), 3_000, &mut context)
        .unwrap();
    assert_eq!(second.0.len(), 1);
    assert_eq!(context.next_article_id, next_id);
    for row in expected.iter_mut() {
        assert_eq!(row.updated, 2_000);
        row.updated = 3_000;
    }
    assert_eq!(format!("{:?}", context.articles), format!("{:?}", expected));
}

#[test]
fn items_that_this_instance_owns_are_skipped() {
    let mut context = context();
    local_article(&mut context, "Mine", true);
    let mut relisted = item("example.com", "Mine");
    relisted.object.content = "Overwritten".to_string();
    let apub = collection(vec![relisted, item("remote.com", "Theirs")]);
    let done = ArticleCollection::from_json_at(apub, &(), 2_000, &mut context).unwrap();
    assert!(done.0.is_empty());
    assert_eq!(context.articles.len(), 2);
    assert_eq!(context.articles[0].text, "");
    assert!(context.articles[0].local);
    assert_eq!(context.articles[1].title, "Theirs");
}

#[test]
fn every_failure_is_reported_in_the_order_of_the_collection() {
    let mut context = context();
    context.next_article_id = i32::MAX - 1;
    let mut forged = item("remote.com", "Forged");
    forged.id = url("https://evil.net/activity/1");
    let apub = collection(vec![
        item("remote.com", "One"),
        forged,
        item("remote.com", "Two"),
        item("remote.com", "One"),
    ]);
    let done = ArticleCollection::from_json_at(apub, &(), 2_000, &mut context).unwrap();
    let failures: Vec<(&str, BackendError)> =
        done.0.iter().map(|f| (f.id.text.as_str(), f.error)).collect();
    assert_eq!(
        failures,
        vec![
            ("https://remote.com/article/Forged", BackendError::DomainMismatch),
            ("https://remote.com/article/Two", BackendError::IdExhausted),
        ]
    );
    assert_eq!(context.articles.len(), 1);
}

#[test]
fn taking_in_a_collection_now_stores_its_items() {
    let mut context = context();
    let apub = collection(vec![item("remote.com", "One")]);
    let done = ArticleCollection::from_json(apub, &(), &mut context).unwrap();
    assert!(done.0.is_empty());
    assert_eq!(context.articles.len(), 1);
    assert!(context.articles[0].updated > 1_500_000_000_000_000);
}

#[test]
fn the_total_of_the_local_collection_is_the_number_of_its_items() {
    let mut context = context();
    local_article(&mut context, "A", true);
    local_article(&mut context, "B", false);
    local_article(&mut context, "C", true);
    local_article(&mut context, "D", true);
    context.articles[3].removed = true;
    let ids = vec![
        url("https://example.com/activity/1"),
        url("https://example.com/activity/2"),
        url("https://example.com/activity/3"),
    ];
    let written = ArticleCollection::read_local(&(), &context, ids).unwrap();
    assert_eq!(written.kind, CollectionType::Collection);
    assert_eq!(written.id.text, "https://example.com/all_articles");
    assert_eq!(written.total_items, 2);
    assert_eq!(written.items.len(), 2);
    assert_eq!(written.items[0].object.name, "A");
    assert_eq!(written.items[0].id.text, "https://example.com/activity/1");
    assert_eq!(written.items[0].actor.text, "https://example.com/");
    assert_eq!(written.items[1].object.name, "C");
    assert_eq!(written.items[1].id.text, "https://example.com/activity/2");
    assert_eq!(written.items[1].object.attributed_to.text, "https://example.com/");
}

#[test]
fn an_instance_without_articles_has_an_empty_collection() {
    let context = context();
    let written = ArticleCollection::read_local(&(), &context, vec![]).unwrap();
    assert_eq!(written.total_items, 0);
    assert!(written.items.is_empty());
}

#[test]
fn the_local_collection_needs_an_identifier_for_each_item() {
    let mut context = context();
    local_article(&mut context, "A", true);
    local_article(&mut context, "B", true);
    let r = ArticleCollection::read_local(&(), &context, vec![url("https://example.com/a/1")]);
    assert_eq!(r.err(), Some(BackendError::IdExhausted));
}

#[test]
fn the_local_collection_needs_the_owners_of_its_articles() {
    let mut context = context();
    local_article(&mut context, "A", true);
    context.articles[0].instance_id = InstanceId(9);
    let r = ArticleCollection::read_local(&(), &context, vec![url("https://example.com/a/1")]);
    assert_eq!(r.err(), Some(BackendError::NotFound));
    context.articles[0].instance_id = InstanceId(1);
    context.instances[0].local = false;
    let r = ArticleCollection::read_local(&(), &context, vec![url("https://example.com/a/1")]);
    assert_eq!(r.err(), Some(BackendError::NotFound));
}

#[test]
fn the_local_collection_needs_a_domain_that_makes_a_url() {
    let mut context = context();
    context.conf.federation.domain = "not a domain".to_string();
    let r = ArticleCollection::read_local(&(), &context, vec![]);
    assert_eq!(r.err(), Some(BackendError::InvalidUrl));
}

#[test]
fn a_collection_has_to_come_from_where_it_says() {
    let context = context();
    let apub = collection(vec![]);
    assert_eq!(ArticleCollection::verify(&apub, &url("https://remote.com/"), &context), Ok(()));
    assert_eq!(
        ArticleCollection::verify(&apub, &url("https://other.org/"), &context),
        Err(BackendError::DomainMismatch)
    );
}
