//! Client library for the Open Food Facts REST API.
//!
//! The library assembles the URLs and query-parameter lists of the API's
//! endpoints (taxonomies, facets, categories, nutrients, products, search)
//! and leaves HTTP dispatch and response handling to the transport around
//! it. Responses are meant to be returned to callers unchanged, so the
//! library performs no response parsing.

use vstd::prelude::*;

pub use crate::client::{Error, OffApi, Request};
pub use crate::locale::Locale;
pub use crate::output::Output;

pub mod client;
pub mod locale;
pub mod output;
pub mod search;
pub mod text;
pub mod types;

use crate::types::{Version, V0, V2};

verus! {

/// Authentication pair: username and password.
#[derive(Debug, PartialEq)]
pub struct Auth(pub String, pub String);

/// The client configuration builder: the default locale, optional
/// authentication credentials, and an optional user-agent string. A
/// `None` user agent stands for the transport's library-identifying
/// default. The HTTP transport around the library turns a finished
/// builder into a client.
#[derive(Debug)]
pub struct OffBuilder<V> {
    pub v: V,
    pub locale: Locale,
    pub auth: Option<Auth>,
    pub user_agent: Option<String>,
}

impl<V: Version + Copy> OffBuilder<V> {
    /// Sets the default locale.
    pub fn locale(self, value: Locale) -> (r: Self)
        ensures
            r.v == self.v,
            r.locale == value,
            r.auth == self.auth,
            r.user_agent == self.user_agent,
    {
        OffBuilder { locale: value, ..self }
    }

    /// Sets the authentication credentials.
    pub fn auth(self, username: &str, password: &str) -> (r: Self)
        ensures
            r.v == self.v,
            r.locale == self.locale,
            r.auth matches Some(a) && a.0@ == username@ && a.1@ == password@,
            r.user_agent == self.user_agent,
    {
        OffBuilder { auth: Some(Auth(username.to_owned(), password.to_owned())), ..self }
    }

    /// Sets the user agent string.
    pub fn user_agent(self, user_agent: &str) -> (r: Self)
        ensures
            r.v == self.v,
            r.locale == self.locale,
            r.auth == self.auth,
            r.user_agent matches Some(u) && u@ == user_agent@,
    {
        OffBuilder { user_agent: Some(user_agent.to_owned()), ..self }
    }

    /// A builder with the default options: the `"world"` locale, no
    /// credentials, and the default user agent.
    fn new(v: V) -> (r: Self)
        ensures
            r.locale.cc@ == "world"@,
            r.locale.lc is None,
            r.auth is None,
            r.user_agent is None,
    {
        OffBuilder { v, locale: Locale::default(), auth: None, user_agent: None }
    }
}

/// A builder for a client of the API V0.
pub fn v0() -> (r: OffBuilder<V0>)
    ensures
        r.locale.cc@ == "world"@,
        r.locale.lc is None,
        r.auth is None,
        r.user_agent is None,
{
    OffBuilder::new(V0)
}

/// A builder for a client of the API V2.
pub fn v2() -> (r: OffBuilder<V2>)
    ensures
        r.locale.cc@ == "world"@,
        r.locale.lc is None,
        r.auth is None,
        r.user_agent is None,
{
    OffBuilder::new(V2)
}

} // verus!
