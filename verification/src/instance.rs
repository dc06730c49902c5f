//! Instances, the site's settings, and the read models built on them.

use crate::db_url::{clone_opt_string, clone_opt_url, url_parts, DbUrl};
use crate::error::{BackendError, BackendResult};
use crate::newtypes::{InstanceId, PersonId};
use crate::records::{Article, Person};
use vstd::prelude::*;

verus! {

/// A federation peer, or this instance itself.
#[derive(Debug)]
pub struct Instance {
    pub id: InstanceId,
    pub domain: String,
    pub ap_id: DbUrl,
    pub topic: Option<String>,
    pub articles_url: Option<DbUrl>,
    pub inbox_url: String,
    pub public_key: String,
    /// Present only for this instance itself.
    pub private_key: Option<String>,
    pub last_refreshed_at: i64,
    pub local: bool,
    pub instances_url: DbUrl,
    pub name: Option<String>,
}

/// An instance with its articles, as a reader is shown it.
#[derive(Debug)]
pub struct InstanceView {
    pub instance: Instance,
    pub articles: Vec<Article>,
    /// Whether the reader follows the instance.
    pub following: bool,
}

/// An instance that somebody follows.
#[derive(Debug)]
pub struct InstanceFollow {
    pub instance: Instance,
    /// Whether the instance has yet to accept.
    pub pending: bool,
}

/// The settings of the site.
#[derive(Clone, Copy, Debug, PartialEq, Eq, Structural)]
pub struct Options {
    /// Whether users can create new accounts.
    pub registration_open: bool,
    /// Whether new users have to provide an email address to register.
    pub email_required: bool,
}

impl Default for Options {
    fn default() -> (options: Self)
        ensures
            options.registration_open,
            !options.email_required,
    {
        Options { registration_open: true, email_required: false }
    }
}

/// An account on this instance.
#[derive(Clone, Copy, Debug, PartialEq, Eq, Structural)]
pub struct LocalUser {
    pub person_id: PersonId,
    pub admin: bool,
}

/// A person with their account on this instance.
#[derive(Debug)]
pub struct LocalUserView {
    pub person: Person,
    pub local_user: LocalUser,
}

/// The site as a reader is shown it.
#[derive(Debug)]
pub struct SiteView {
    /// The reader, where one is logged in.
    pub my_profile: Option<LocalUserView>,
    pub config: Options,
    pub admin: Person,
    pub instance: Instance,
    pub oauth_providers: Vec<OAuthProviderPublic>,
}

/// A provider of logins as the configuration holds it.
#[derive(Debug)]
pub struct OAuthProvider {
    pub display_name: String,
    pub issuer: DbUrl,
    pub authorization_endpoint: DbUrl,
    pub token_endpoint: DbUrl,
    pub userinfo_endpoint: DbUrl,
    pub client_id: String,
    pub client_secret: String,
    pub scopes: String,
}

/// What readers are told of a provider of logins: nothing that is secret.
#[derive(Debug)]
pub struct OAuthProviderPublic {
    pub issuer: DbUrl,
    pub display_name: String,
    pub authorization_endpoint: DbUrl,
    pub client_id: String,
    pub scopes: String,
}

impl From<OAuthProvider> for OAuthProviderPublic {
    fn from(provider: OAuthProvider) -> (public: Self) {
        OAuthProviderPublic {
            issuer: provider.issuer,
            display_name: provider.display_name,
            authorization_endpoint: provider.authorization_endpoint,
            client_id: provider.client_id,
            scopes: provider.scopes,
        }
    }
}

impl vstd::std_specs::convert::FromSpecImpl<OAuthProvider> for OAuthProviderPublic {
    open spec fn obeys_from_spec() -> bool {
        true
    }

    open spec fn from_spec(provider: OAuthProvider) -> Self {
        OAuthProviderPublic {
            issuer: provider.issuer,
            display_name: provider.display_name,
            authorization_endpoint: provider.authorization_endpoint,
            client_id: provider.client_id,
            scopes: provider.scopes,
        }
    }
}

impl Clone for Instance {
    fn clone(&self) -> (r: Self)
        ensures
            r == *self,
    {
        Instance {
            id: self.id,
            domain: self.domain.clone(),
            ap_id: self.ap_id.clone(),
            topic: clone_opt_string(&self.topic),
            articles_url: clone_opt_url(&self.articles_url),
            inbox_url: self.inbox_url.clone(),
            public_key: self.public_key.clone(),
            private_key: clone_opt_string(&self.private_key),
            last_refreshed_at: self.last_refreshed_at,
            local: self.local,
            instances_url: self.instances_url.clone(),
            name: clone_opt_string(&self.name),
        }
    }
}

impl Instance {
    /// The inbox as a URL. The stored text has to be one: see [`Instance::try_inbox_url`]
    /// for a text of which that is not known.
    pub fn inbox_url(&self) -> (u: DbUrl)
        requires
            url_parts(self.inbox_url@) is Some,
        ensures
            Some(u@) == url_parts(self.inbox_url@),
    {
        DbUrl::parse(self.inbox_url.as_str()).unwrap()
    }

    /// The inbox as a URL, or `InvalidUrl` where the stored text is none.
    pub fn try_inbox_url(&self) -> (r: BackendResult<DbUrl>)
        ensures
            match r {
                Ok(u) => Some(u@) == url_parts(self.inbox_url@),
                Err(e) => e == BackendError::InvalidUrl && url_parts(self.inbox_url@) is None,
            },
    {
        match DbUrl::parse(self.inbox_url.as_str()) {
            Ok(_) => Ok(self.inbox_url()),
            Err(e) => Err(e),
        }
    }
}

} // verus!
