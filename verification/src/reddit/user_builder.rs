//! Building a `User` field by field.
use crate::reddit::{Reddit, User};
use vstd::prelude::*;

verus! {

/// An implementation of the builder pattern for the `User` struct.
pub struct UserBuilder<'a> {
    pub reddit_instance: Option<&'a Reddit<'a>>,
    pub refresh_token: Option<String>,
    pub access_token: Option<String>,
    /// When the access token expires, in seconds since the epoch.
    pub expires_at: Option<u64>,
}

impl<'a> UserBuilder<'a> {
    /// Whether every field was set.
    pub open spec fn is_complete(&self) -> bool {
        &&& self.reddit_instance is Some
        &&& self.refresh_token is Some
        &&& self.access_token is Some
        &&& self.expires_at is Some
    }

    /// The default `UserBuilder`.
    /// All fields are `None`.
    pub fn default() -> (builder: Self)
        ensures
            builder.reddit_instance is None,
            builder.refresh_token is None,
            builder.access_token is None,
            builder.expires_at is None,
    {
        UserBuilder { reddit_instance: None, refresh_token: None, access_token: None, expires_at: None }
    }

    /// Convert the builder into `User`.
    /// Returns `Some` if there were no issues,
    /// `None` if some field was not set.
    pub fn build(self) -> (user: Option<User<'a>>)
        ensures
            user is Some <==> self.is_complete(),
            user matches Some(built) ==> {
                &&& Some(built.reddit_instance()) == self.reddit_instance
                &&& Some(*built.refresh_token()) == self.refresh_token
                &&& Some(*built.stored_access_token()) == self.access_token
                &&& Some(built.expires_at()) == self.expires_at
            },
    {
        Some(
            User::from_parts(
                self.reddit_instance?,
                self.refresh_token?,
                self.access_token?,
                self.expires_at?,
            ),
        )
    }

    /// Set the parent instance of `Reddit`.
    pub fn with_reddit_instance(self, reddit_instance: &'a Reddit<'a>) -> (builder: Self)
        ensures
            builder == (UserBuilder { reddit_instance: Some(reddit_instance), ..self }),
    {
        let mut builder = self;
        builder.reddit_instance = Some(reddit_instance);
        builder
    }

    /// Set the user's refresh token.
    pub fn with_refresh_token(self, refresh_token: String) -> (builder: Self)
        ensures
            builder == (UserBuilder { refresh_token: Some(refresh_token), ..self }),
    {
        let mut builder = self;
        builder.refresh_token = Some(refresh_token);
        builder
    }

    /// Set the user's access token.
    pub fn with_access_token(self, access_token: String) -> (builder: Self)
        ensures
            builder == (UserBuilder { access_token: Some(access_token), ..self }),
    {
        let mut builder = self;
        builder.access_token = Some(access_token);
        builder
    }

    /// Set when the user's access token expires, in seconds since the epoch.
    pub fn with_expires_at(self, expires_at: u64) -> (builder: Self)
        ensures
            builder == (UserBuilder { expires_at: Some(expires_at), ..self }),
    {
        let mut builder = self;
        builder.expires_at = Some(expires_at);
        builder
    }
}

} // verus!
