//! Building a `Reddit` field by field.
use crate::reddit::scope::Scope;
use crate::reddit::Reddit;
use vstd::prelude::*;

verus! {

/// An implementation of the builder pattern for the `Reddit` struct.
pub struct RedditBuilder<'a> {
    pub redirect_uri: Option<&'a str>,
    pub user_agent: Option<&'a str>,
    pub client_id: Option<&'a str>,
    pub secret: Option<&'a str>,
    pub permanent: Option<bool>,
    pub scopes: Option<&'a [Scope]>,
}

impl<'a> RedditBuilder<'a> {
    /// Whether every field was set.
    pub open spec fn is_complete(&self) -> bool {
        &&& self.redirect_uri is Some
        &&& self.user_agent is Some
        &&& self.client_id is Some
        &&& self.secret is Some
        &&& self.permanent is Some
        &&& self.scopes is Some
    }

    /// The default `RedditBuilder`.
    /// All fields are `None`.
    pub fn default() -> (builder: Self)
        ensures
            builder.redirect_uri is None,
            builder.user_agent is None,
            builder.client_id is None,
            builder.secret is None,
            builder.permanent is None,
            builder.scopes is None,
    {
        RedditBuilder {
            redirect_uri: None,
            user_agent: None,
            client_id: None,
            secret: None,
            permanent: None,
            scopes: None,
        }
    }

    /// Convert the builder into `Reddit`.
    /// Returns `Some` if there were no issues,
    /// `None` if some field was not set.
    pub fn build(self) -> (reddit: Option<Reddit<'a>>)
        ensures
            reddit is Some <==> self.is_complete(),
            reddit matches Some(built) ==> {
                &&& Some(built.redirect_uri()) == self.redirect_uri
                &&& Some(built.user_agent()) == self.user_agent
                &&& Some(built.client_id()) == self.client_id
                &&& Some(built.secret()) == self.secret
                &&& Some(built.permanent()) == self.permanent
                &&& Some(built.scopes()) == self.scopes
            },
    {
        Some(
            Reddit::from_parts(
                self.redirect_uri?,
                self.user_agent?,
                self.client_id?,
                self.secret?,
                self.permanent?,
                self.scopes?,
            ),
        )
    }

    /// Set the redirect URI.
    pub fn with_redirect_uri(self, redirect_uri: &'a str) -> (builder: Self)
        ensures
            builder == (RedditBuilder { redirect_uri: Some(redirect_uri), ..self }),
    {
        let mut builder = self;
        builder.redirect_uri = Some(redirect_uri);
        builder
    }

    /// Set the user agent send with each request.
    pub fn with_user_agent(self, user_agent: &'a str) -> (builder: Self)
        ensures
            builder == (RedditBuilder { user_agent: Some(user_agent), ..self }),
    {
        let mut builder = self;
        builder.user_agent = Some(user_agent);
        builder
    }

    /// Set the client ID provided by Reddit.
    pub fn with_client_id(self, client_id: &'a str) -> (builder: Self)
        ensures
            builder == (RedditBuilder { client_id: Some(client_id), ..self }),
    {
        let mut builder = self;
        builder.client_id = Some(client_id);
        builder
    }

    /// Set the client secret provided by Reddit.
    pub fn with_secret(self, secret: &'a str) -> (builder: Self)
        ensures
            builder == (RedditBuilder { secret: Some(secret), ..self }),
    {
        let mut builder = self;
        builder.secret = Some(secret);
        builder
    }

    /// Set whether authorization should be temporary or permanent.
    pub fn with_permanent(self, permanent: bool) -> (builder: Self)
        ensures
            builder == (RedditBuilder { permanent: Some(permanent), ..self }),
    {
        let mut builder = self;
        builder.permanent = Some(permanent);
        builder
    }

    /// Set the requested scopes.
    pub fn with_scopes(self, scopes: &'a [Scope]) -> (builder: Self)
        ensures
            builder == (RedditBuilder { scopes: Some(scopes), ..self }),
    {
        let mut builder = self;
        builder.scopes = Some(scopes);
        builder
    }
}

} // verus!
