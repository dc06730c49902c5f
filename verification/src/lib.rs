//! The federation core of a wiki whose instances exchange articles and
//! comments: canonical identifiers, the record store with its upsert rule,
//! the comment tree, the handling of inbound activities, collection
//! synchronisation and the retention of the outbox log.

pub mod activities;
pub mod announce;
pub mod apub_article;
pub mod apub_comment;
pub mod article_actions;
pub mod article_store;
pub mod articles_collection;
pub mod comment_listing;
pub mod comment_store;
pub mod context;
pub mod db_url;
pub mod error;
pub mod instance;
pub mod kinds;
pub mod markdown;
pub mod newtypes;
pub mod notification;
pub mod records;
pub mod scheduled_tasks;
pub mod time;
pub mod validate;
