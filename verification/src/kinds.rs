//! The constants of the activity vocabulary.

use crate::db_url::{DbUrl, UrlParts};
use vstd::prelude::*;

verus! {

/// The type of a comment document.
#[derive(Clone, Copy, Debug, PartialEq, Eq, Structural)]
pub enum NoteType {
    Note,
}

/// The type of an article document.
#[derive(Clone, Copy, Debug, PartialEq, Eq, Structural)]
pub enum ArticleType {
    Article,
}

/// The type of an activity that announces another.
#[derive(Clone, Copy, Debug, PartialEq, Eq, Structural)]
pub enum AnnounceType {
    Announce,
}

/// The type of an activity that brings the latest form of an object.
#[derive(Clone, Copy, Debug, PartialEq, Eq, Structural)]
pub enum UpdateType {
    Update,
}

/// The type of an activity that brings a new object.
#[derive(Clone, Copy, Debug, PartialEq, Eq, Structural)]
pub enum CreateType {
    Create,
}

/// The type of a collection document.
#[derive(Clone, Copy, Debug, PartialEq, Eq, Structural)]
pub enum CollectionType {
    Collection,
}

impl Default for CollectionType {
    fn default() -> (kind: Self)
        ensures
            kind == CollectionType::Collection,
    {
        CollectionType::Collection
    }
}

/// The media type of a content field.
#[derive(Clone, Copy, Debug, PartialEq, Eq, Structural)]
pub enum MediaTypeMarkdownOrHtml {
    Markdown,
    Html,
}

/// The media type of a source field.
#[derive(Clone, Copy, Debug, PartialEq, Eq, Structural)]
pub enum MediaTypeMarkdown {
    Markdown,
}

/// The address that stands for everybody.
pub open spec fn public_parts() -> UrlParts {
    UrlParts {
        text: "https://www.w3.org/ns/activitystreams#Public"@,
        host: Some("www.w3.org"@),
        domain: Some("www.w3.org"@),
        port: None,
    }
}

/// Calls `activitypub_federation::kinds::public` and reads the serialisation,
/// host, domain and port of the URL it gives, which is the constant
/// `https://www.w3.org/ns/activitystreams#Public`.
#[verifier::external_body]
pub(crate) fn public() -> (u: DbUrl)
    ensures
        u@ == public_parts(),
{
    let url = activitypub_federation::kinds::public();
    DbUrl {
        text: url.as_str().to_string(),
        host: url.host_str().map(|h| h.to_string()),
        domain: url.domain().map(|d| d.to_string()),
        port: url.port(),
    }
}

} // verus!
