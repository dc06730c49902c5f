//! Canonical identifiers: a URL held as the plain values that the library reads.

use crate::error::{BackendError, BackendResult};
use vstd::prelude::*;

verus! {

/// A URL as the `url` crate reports it: its serialisation and what it says of
/// the host. The fields are open, so a value can be written by hand; whether
/// its host, domain and port are those of its serialisation,
/// [`DbUrl::is_consistent`] tells, and the verification of inbound documents
/// asks it of every identifier that it reads.
#[derive(Debug)]
pub struct DbUrl {
    /// The serialisation.
    pub text: String,
    /// The host, if the URL has one.
    pub host: Option<String>,
    /// The host again, if it is a domain name and no IP address.
    pub domain: Option<String>,
    /// The port, if one is written and is not the scheme's default.
    pub port: Option<u16>,
}

/// The mathematical value of a [`DbUrl`].
#[verifier::ext_equal]
pub struct UrlParts {
    pub text: Seq<char>,
    pub host: Option<Seq<char>>,
    pub domain: Option<Seq<char>>,
    pub port: Option<u16>,
}

/// The view of an optional string.
pub open spec fn opt_text(s: Option<String>) -> Option<Seq<char>> {
    match s {
        Some(t) => Some(t@),
        None => None,
    }
}

impl View for DbUrl {
    type V = UrlParts;

    open spec fn view(&self) -> UrlParts {
        UrlParts {
            text: self.text@,
            host: opt_text(self.host),
            domain: opt_text(self.domain),
            port: self.port,
        }
    }
}

/// What `url::Url::parse` makes of a text: `None` where it refuses it.
pub uninterp spec fn url_parts(input: Seq<char>) -> Option<UrlParts>;

impl UrlParts {
    /// Whether the parts are those of their own serialisation: the
    /// serialisation is a URL, and parsing it gives back this very value.
    pub open spec fn consistent(self) -> bool {
        url_parts(self.text) == Some(self)
    }
}

/// Whether two optional strings hold the same text.
fn same_opt_text(a: &Option<String>, b: &Option<String>) -> (same: bool)
    ensures
        same == (opt_text(*a) == opt_text(*b)),
{
    match (a, b) {
        (Some(x), Some(y)) => *x == *y,
        (None, None) => true,
        _ => false,
    }
}

/// A copy of an optional string.
pub fn clone_opt_string(s: &Option<String>) -> (r: Option<String>)
    ensures
        r == *s,
{
    match s {
        Some(t) => Some(t.clone()),
        None => None,
    }
}

impl Clone for DbUrl {
    fn clone(&self) -> (r: Self)
        ensures
            r == *self,
    {
        DbUrl {
            text: self.text.clone(),
            host: clone_opt_string(&self.host),
            domain: clone_opt_string(&self.domain),
            port: self.port,
        }
    }
}

/// Declares `url::ParseError`, the reason for which `url::Url::parse` refuses a text.
#[verifier::external_type_specification]
#[verifier::external_body]
pub struct ExParseError(url::ParseError);

/// Calls `url::Url::parse` and reads the serialisation, host, domain and port of
/// the URL it gives. The contract names the outcome: the same text always parses
/// to the same parts, or is always refused.
#[verifier::external_body]
fn parse_parts(input: &str) -> (r: Result<DbUrl, url::ParseError>)
    ensures
        match r {
            Ok(u) => url_parts(input@) == Some(u@),
            Err(_) => url_parts(input@) is None,
        },
{
    let url = url::Url::parse(input)?;
    Ok(DbUrl {
        text: url.as_str().to_string(),
        host: url.host_str().map(|h| h.to_string()),
        domain: url.domain().map(|d| d.to_string()),
        port: url.port(),
    })
}

/// A copy of an optional URL.
pub fn clone_opt_url(u: &Option<DbUrl>) -> (r: Option<DbUrl>)
    ensures
        r == *u,
{
    match u {
        Some(v) => Some(v.clone()),
        None => None,
    }
}

/// A copy of a list of URLs.
pub fn clone_urls(urls: &Vec<DbUrl>) -> (r: Vec<DbUrl>)
    ensures
        r@ == urls@,
{
    let mut out: Vec<DbUrl> = Vec::new();
    let mut i: usize = 0;
    while i < urls.len()
        invariant
            i <= urls.len(),
            out@ == urls@.take(i as int),
        decreases urls.len() - i,
    {
        out.push(urls[i].clone());
        i += 1;
    }
    out
}

impl DbUrl {
    /// Whether the host, the domain and the port of this value are those of
    /// its serialisation, and the serialisation is as the `url` crate writes
    /// it: parses the serialisation once more and compares.
    pub fn is_consistent(&self) -> (b: bool)
        ensures
            b == self@.consistent(),
    {
        match DbUrl::parse(self.text.as_str()) {
            Ok(again) => {
                let same = again.text == self.text && same_opt_text(&again.host, &self.host)
                    && same_opt_text(&again.domain, &self.domain) && again.port == self.port;
                assert(same == (again@ =~= self@));
                same
            },
            Err(_) => false,
        }
    }

    /// Parses a text as a URL. The text is refused exactly where the `url` crate
    /// refuses it.
    pub fn parse(input: &str) -> (r: BackendResult<DbUrl>)
        ensures
            match r {
                Ok(u) => url_parts(input@) == Some(u@),
                Err(e) => e == BackendError::InvalidUrl && url_parts(input@) is None,
            },
    {
        match parse_parts(input) {
            Ok(u) => Ok(u),
            Err(_) => Err(BackendError::InvalidUrl),
        }
    }
}

} // verus!
