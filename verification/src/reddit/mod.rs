//! What is said to Reddit, and what is made of its answers. The requests themselves are
//! made elsewhere: here they are written down, and their answers are read.
pub mod reddit_builder;
pub mod scope;
pub mod user_builder;

use crate::controller::option_text;
use crate::text::{join, joined_with, texts};
use crate::reddit::reddit_builder::RedditBuilder;
use crate::reddit::scope::{scope_names, Scope};
use crate::reddit::user_builder::UserBuilder;
use vstd::prelude::*;
use vstd::string::*;

verus! {

/// An application as it is registered with Reddit.
pub struct Reddit<'a> {
    redirect_uri: &'a str,
    user_agent: &'a str,
    client_id: &'a str,
    secret: &'a str,
    permanent: bool,
    scopes: &'a [Scope],
}

/// A user of Reddit who authorized the application.
pub struct User<'a> {
    reddit_instance: &'a Reddit<'a>,
    refresh_token: String,
    access_token: String,
    expires_at: u64,
}

/// Builder and getters
impl<'a> Reddit<'a> {
    pub closed spec fn spec_redirect_uri(&self) -> &str {
        self.redirect_uri
    }

    pub closed spec fn spec_user_agent(&self) -> &str {
        self.user_agent
    }

    pub closed spec fn spec_client_id(&self) -> &str {
        self.client_id
    }

    pub closed spec fn spec_secret(&self) -> &str {
        self.secret
    }

    pub closed spec fn spec_permanent(&self) -> bool {
        self.permanent
    }

    pub closed spec fn spec_scopes(&self) -> &[Scope] {
        self.scopes
    }

    pub fn builder() -> (builder: RedditBuilder<'static>)
        ensures
            builder.redirect_uri is None,
            builder.user_agent is None,
            builder.client_id is None,
            builder.secret is None,
            builder.permanent is None,
            builder.scopes is None,
    {
        RedditBuilder::default()
    }

    /// An application with the given fields.
    pub fn from_parts(
        redirect_uri: &'a str,
        user_agent: &'a str,
        client_id: &'a str,
        secret: &'a str,
        permanent: bool,
        scopes: &'a [Scope],
    ) -> (reddit: Reddit<'a>)
        ensures
            reddit.redirect_uri() == redirect_uri,
            reddit.user_agent() == user_agent,
            reddit.client_id() == client_id,
            reddit.secret() == secret,
            reddit.permanent() == permanent,
            reddit.scopes() == scopes,
    {
        Reddit { redirect_uri, user_agent, client_id, secret, permanent, scopes }
    }

    #[verifier::when_used_as_spec(spec_redirect_uri)]
    pub fn redirect_uri(&self) -> (redirect_uri: &str)
        ensures
            redirect_uri == self.spec_redirect_uri(),
    {
        self.redirect_uri
    }

    #[verifier::when_used_as_spec(spec_user_agent)]
    pub fn user_agent(&self) -> (user_agent: &str)
        ensures
            user_agent == self.spec_user_agent(),
    {
        self.user_agent
    }

    #[verifier::when_used_as_spec(spec_client_id)]
    pub fn client_id(&self) -> (client_id: &str)
        ensures
            client_id == self.spec_client_id(),
    {
        self.client_id
    }

    #[verifier::when_used_as_spec(spec_secret)]
    pub fn secret(&self) -> (secret: &str)
        ensures
            secret == self.spec_secret(),
    {
        self.secret
    }

    #[verifier::when_used_as_spec(spec_permanent)]
    pub fn permanent(&self) -> (permanent: bool)
        ensures
            permanent == self.spec_permanent(),
    {
        self.permanent
    }

    #[verifier::when_used_as_spec(spec_scopes)]
    pub fn scopes(&self) -> (scopes: &[Scope])
        ensures
            scopes == self.spec_scopes(),
    {
        self.scopes
    }
}

// Getters
impl<'a> User<'a> {
    pub closed spec fn spec_reddit_instance(&self) -> &Reddit<'a> {
        self.reddit_instance
    }

    pub closed spec fn spec_refresh_token(&self) -> &String {
        &self.refresh_token
    }

    pub closed spec fn spec_stored_access_token(&self) -> &String {
        &self.access_token
    }

    pub closed spec fn spec_expires_at(&self) -> u64 {
        self.expires_at
    }

    pub fn builder() -> (builder: UserBuilder<'static>)
        ensures
            builder.reddit_instance is None,
            builder.refresh_token is None,
            builder.access_token is None,
            builder.expires_at is None,
    {
        UserBuilder::default()
    }

    /// A user with the given fields.
    pub fn from_parts(
        reddit_instance: &'a Reddit<'a>,
        refresh_token: String,
        access_token: String,
        expires_at: u64,
    ) -> (user: User<'a>)
        ensures
            user.reddit_instance() == reddit_instance,
            *user.refresh_token() == refresh_token,
            *user.stored_access_token() == access_token,
            user.expires_at() == expires_at,
    {
        User { reddit_instance, refresh_token, access_token, expires_at }
    }

    /// The application that the user authorized.
    #[verifier::when_used_as_spec(spec_reddit_instance)]
    pub fn reddit_instance(&self) -> (reddit_instance: &Reddit<'a>)
        ensures
            reddit_instance == self.spec_reddit_instance(),
    {
        self.reddit_instance
    }

    #[verifier::when_used_as_spec(spec_refresh_token)]
    pub fn refresh_token(&self) -> (refresh_token: &String)
        ensures
            refresh_token == self.spec_refresh_token(),
    {
        &self.refresh_token
    }

    /// The access token that is stored, fresh or not.
    #[verifier::when_used_as_spec(spec_stored_access_token)]
    pub fn stored_access_token(&self) -> (access_token: &String)
        ensures
            access_token == self.spec_stored_access_token(),
    {
        &self.access_token
    }

    /// Get the access token of the user, as long as it has not expired at `now`, in
    /// seconds since the epoch. Where it has, a new one is to be fetched from Reddit
    /// with `refresh_request` and stored with `refreshed`.
    pub fn access_token(&self, now: u64) -> (access_token: Option<&String>)
        ensures
            access_token is Some <==> self.expires_at() >= now,
            access_token matches Some(token) ==> token == self.stored_access_token(),
    {
        if self.expires_at < now {
            None
        } else {
            Some(&self.access_token)
        }
    }

    /// When the access token expires, in seconds since the epoch.
    #[verifier::when_used_as_spec(spec_expires_at)]
    pub fn expires_at(&self) -> (expires_at: u64)
        ensures
            expires_at == self.spec_expires_at(),
    {
        self.expires_at
    }

    /// Stores a new access token, which Reddit gave at `now` for `expires_in` seconds.
    pub fn refreshed(&mut self, access_token: String, expires_in: u64, now: u64)
        requires
            now + expires_in <= u64::MAX,
        ensures
            *final(self).stored_access_token() == access_token,
            final(self).expires_at() == now + expires_in,
            final(self).refresh_token() == old(self).refresh_token(),
            final(self).reddit_instance() == old(self).reddit_instance(),
    {
        self.access_token = access_token;
        self.expires_at = now + expires_in;
    }
}

/// The characters of each pair of a list of pairs of strings.
pub open spec fn pairs_view(pairs: Seq<(String, String)>) -> Seq<(Seq<char>, Seq<char>)> {
    Seq::new(pairs.len(), |i: int| (pairs[i].0@, pairs[i].1@))
}

/// The text of the URL that `input` gives once `params` are added to its query, or
/// `None` where `input` is no absolute URL.
pub uninterp spec fn url_with_params(input: Seq<char>, params: Seq<(Seq<char>, Seq<char>)>) -> Option<
    Seq<char>,
>;

/// `Url::parse_with_params`, and the text of the URL it gives: `input` is read as an
/// absolute URL, and each pair of `params` is added to its query as a name and a value.
/// Where `input` cannot be read, there is no URL.
#[verifier::external_body]
pub(crate) fn parse_with_params(input: &str, params: &Vec<(String, String)>) -> (url: Option<String>)
    ensures
        option_text(url) == url_with_params(input@, pairs_view(params@)),
{
    match reqwest::Url::parse_with_params(input, params) {
        Ok(url) => Some(String::from(url)),
        Err(_) => None,
    }
}

/// The answer to a text that is no absolute URL.
#[derive(Debug, PartialEq, Eq, Structural, Clone, Copy)]
pub struct UrlError;

/// The address that was read, or the answer to a text that is none.
pub fn address(url: Option<String>) -> (answer: Result<String, UrlError>)
    ensures
        answer is Ok <==> url is Some,
        answer matches Ok(text) ==> url == Some(text),
{
    match url {
        Some(text) => Ok(text),
        None => Err(UrlError),
    }
}

/// The answer to a request that could not be made, or whose answer could not be read.
#[derive(Debug, PartialEq, Eq, Structural, Clone, Copy)]
pub struct RequestError;

/// How a request is made.
#[derive(Debug, PartialEq, Eq, Structural, Clone, Copy)]
pub enum Method {
    Get,
    Post,
}

/// Who makes a request.
#[derive(Debug, PartialEq, Eq)]
pub enum Credentials {
    /// The application, with its client id and its secret.
    Basic { username: String, password: String },
    /// A user, with an access token.
    Bearer(String),
}

/// A request to Reddit, for whoever makes it.
#[derive(Debug, PartialEq, Eq)]
pub struct Request {
    pub method: Method,
    pub url: String,
    /// The user agent to name, where the request names one of its own.
    pub user_agent: Option<String>,
    pub credentials: Credentials,
    /// The fields of the form that is sent along; none for a request without a form.
    pub form: Vec<(String, String)>,
}

/// What Reddit answers to a request for tokens.
#[derive(Debug, PartialEq, Eq)]
pub struct TokenResponse {
    pub access_token: String,
    pub expires_in: u64,
    pub refresh_token: Option<String>,
}

/// What Reddit tells of the user that asks.
#[derive(Debug, PartialEq, Eq)]
pub struct Me {
    pub name: String,
    pub is_mod: bool,
}

/// What Reddit tells of the preferences of the user that asks.
#[derive(Debug, PartialEq, Eq)]
pub struct Prefs {
    pub lang: String,
}

/// The address of a path of Reddit's API.
pub open spec fn endpoint_spec(path: Seq<char>) -> Seq<char> {
    "https://oauth.reddit.com"@ + path
}

/// The address of a path of Reddit's API.
pub fn endpoint(path: &str) -> (url: String)
    ensures
        url@ == endpoint_spec(path@),
{
    let mut url = "https://oauth.reddit.com".to_owned();
    url.append(path);
    url
}

/// One field of a form or of a query.
pub(crate) fn pair(name: &str, value: &str) -> (field: (String, String))
    ensures
        field.0@ == name@,
        field.1@ == value@,
{
    (name.to_owned(), value.to_owned())
}

/// The names of a list of scopes.
fn names_of(scopes: &[Scope]) -> (names: Vec<String>)
    ensures
        texts(names@) == scope_names(scopes@),
{
    let mut names: Vec<String> = Vec::new();
    let mut i: usize = 0;
    while i < scopes.len()
        invariant
            i <= scopes.len(),
            names@.len() == i,
            forall|k: int| 0 <= k < i ==> (#[trigger] names@[k])@ == crate::reddit::scope::scope_name(
                scopes@[k],
            ),
        decreases scopes.len() - i,
    {
        names.push(scopes[i].to_string());
        i += 1;
    }
    assert(texts(names@) =~= scope_names(scopes@));
    names
}

/// The word for how long an authorization lasts.
pub open spec fn duration_name(permanent: bool) -> Seq<char> {
    if permanent {
        "permanent"@
    } else {
        "temporary"@
    }
}

/// What is added to the address at which a user authorizes the application: the client
/// id, the callback as the state, the redirect URI, how long the authorization lasts,
/// and the scopes, with a space between each two.
pub open spec fn auth_params(reddit: Reddit, callback: Seq<char>) -> Seq<(Seq<char>, Seq<char>)> {
    seq![
        ("response_type"@, "code"@),
        ("client_id"@, reddit.client_id()@),
        ("state"@, callback),
        ("redirect_uri"@, reddit.redirect_uri()@),
        ("duration"@, duration_name(reddit.permanent())),
        ("scope"@, joined_with(scope_names(reddit.scopes()@), " "@)),
    ]
}

/// The fields of the form that asks for the tokens of a user who came back with `code`.
pub open spec fn authorization_form(reddit: Reddit, code: Seq<char>) -> Seq<(Seq<char>, Seq<char>)> {
    seq![
        ("grant_type"@, "authorization_code"@),
        ("code"@, code),
        ("redirect_uri"@, reddit.redirect_uri()@),
    ]
}

/// Whether `request` is made in the name of the application.
pub open spec fn is_by_application(request: Request, reddit: Reddit) -> bool {
    request.credentials matches Credentials::Basic { username, password } && username@
        == reddit.client_id()@ && password@ == reddit.secret()@
}

/// Whether `request` is made in the name of a user, with the given access token and the
/// user agent of the application.
pub open spec fn is_by_user(request: Request, reddit: Reddit, access_token: Seq<char>) -> bool {
    &&& request.credentials matches Credentials::Bearer(token) && token@ == access_token
    &&& request.user_agent matches Some(agent) && agent@ == reddit.user_agent()@
}

impl<'a> Reddit<'a> {
    /// What is added to the address at which a user authorizes the application.
    pub fn auth_params(&self, callback: &str) -> (params: Vec<(String, String)>)
        ensures
            pairs_view(params@) == auth_params(*self, callback@),
    {
        let names = names_of(self.scopes);
        let scope = join(&names, " ");
        let mut params: Vec<(String, String)> = Vec::new();
        params.push(pair("response_type", "code"));
        params.push(pair("client_id", self.client_id));
        params.push(pair("state", callback));
        params.push(pair("redirect_uri", self.redirect_uri));
        params.push(
            pair(
                "duration",
                if self.permanent {
                    "permanent"
                } else {
                    "temporary"
                },
            ),
        );
        params.push(pair("scope", scope.as_str()));
        assert(pairs_view(params@) =~= auth_params(*self, callback@));
        params
    }

    /// The address to send a user to, so that they authorize the application. Reddit
    /// sends them back with the callback as the state.
    pub fn get_auth_url(&self, callback: &str) -> (url: Result<String, UrlError>)
        ensures
            url is Ok <==> url_with_params(
                "https://ssl.reddit.com/api/v1/authorize"@,
                auth_params(*self, callback@),
            ) is Some,
            url matches Ok(text) ==> url_with_params(
                "https://ssl.reddit.com/api/v1/authorize"@,
                auth_params(*self, callback@),
            ) == Some(text@),
    {
        let params = self.auth_params(callback);
        address(parse_with_params("https://ssl.reddit.com/api/v1/authorize", &params))
    }

    /// The request that asks Reddit for the tokens of a user who came back with `code`.
    pub fn token_request(&self, code: &str) -> (request: Request)
        ensures
            request.method == Method::Post,
            request.url@ == "https://ssl.reddit.com/api/v1/access_token"@,
            request.user_agent is None,
            is_by_application(request, *self),
            pairs_view(request.form@) == authorization_form(*self, code@),
    {
        let mut form: Vec<(String, String)> = Vec::new();
        form.push(pair("grant_type", "authorization_code"));
        form.push(pair("code", code));
        form.push(pair("redirect_uri", self.redirect_uri));
        assert(pairs_view(form@) =~= authorization_form(*self, code@));
        Request {
            method: Method::Post,
            url: "https://ssl.reddit.com/api/v1/access_token".to_owned(),
            user_agent: None,
            credentials: Credentials::Basic {
                username: self.client_id.to_owned(),
                password: self.secret.to_owned(),
            },
            form,
        }
    }

    /// The user that Reddit's answer to a `token_request`, received at `now`, tells of.
    /// The answer to such a request names a refresh token.
    pub fn obtain_refresh_token(&'a self, data: TokenResponse, now: u64) -> (user: User<'a>)
        requires
            data.refresh_token is Some,
            now + data.expires_in <= u64::MAX,
        ensures
            user.reddit_instance() == self,
            Some(*user.refresh_token()) == data.refresh_token,
            *user.stored_access_token() == data.access_token,
            user.expires_at() == now + data.expires_in,
    {
        User {
            reddit_instance: self,
            refresh_token: data.refresh_token.unwrap(),
            access_token: data.access_token,
            expires_at: now + data.expires_in,
        }
    }
}

/// The fields of the form that asks for a new access token.
pub open spec fn refresh_form(refresh_token: Seq<char>) -> Seq<(Seq<char>, Seq<char>)> {
    seq![("grant_type"@, "refresh_token"@), ("refresh_token"@, refresh_token)]
}

/// The fields of the form that submits a self post with answers to it not sent to the
/// inbox.
pub open spec fn self_post_form(subreddit: Seq<char>, title: Seq<char>, text: Seq<char>) -> Seq<
    (Seq<char>, Seq<char>),
> {
    seq![
        ("kind"@, "self"@),
        ("api_type"@, "json"@),
        ("extensions"@, "json"@),
        ("sendreplies"@, "false"@),
        ("sr"@, subreddit),
        ("title"@, title),
        ("text"@, text),
    ]
}

/// The text of a post, which is empty where none is given.
pub open spec fn text_or_empty(text: Option<&str>) -> Seq<char> {
    match text {
        Some(text) => text@,
        None => Seq::empty(),
    }
}

impl<'a> User<'a> {
    /// A request in the name of the user, with the access token that is stored.
    fn request(&self, method: Method, path: &str, form: Vec<(String, String)>) -> (request: Request)
        ensures
            request.method == method,
            request.url@ == endpoint_spec(path@),
            is_by_user(request, *self.reddit_instance(), self.stored_access_token()@),
            request.form == form,
    {
        Request {
            method,
            url: endpoint(path),
            user_agent: Some(self.reddit_instance.user_agent.to_owned()),
            credentials: Credentials::Bearer(self.access_token.clone()),
            form,
        }
    }

    /// The request that asks Reddit for a new access token.
    pub fn refresh_request(&self) -> (request: Request)
        ensures
            request.method == Method::Post,
            request.url@ == "https://ssl.reddit.com/api/v1/access_token"@,
            request.user_agent is None,
            is_by_application(request, *self.reddit_instance()),
            pairs_view(request.form@) == refresh_form(self.refresh_token()@),
    {
        let mut form: Vec<(String, String)> = Vec::new();
        form.push(pair("grant_type", "refresh_token"));
        form.push(pair("refresh_token", self.refresh_token.as_str()));
        assert(pairs_view(form@) =~= refresh_form(self.refresh_token()@));
        Request {
            method: Method::Post,
            url: "https://ssl.reddit.com/api/v1/access_token".to_owned(),
            user_agent: None,
            credentials: Credentials::Basic {
                username: self.reddit_instance.client_id.to_owned(),
                password: self.reddit_instance.secret.to_owned(),
            },
            form,
        }
    }

    /// The request that asks Reddit who the user is. It is made with the access token
    /// that is stored, so that one is to be fresh.
    pub fn me(&self) -> (request: Request)
        ensures
            request.method == Method::Get,
            request.url@ == endpoint_spec("/api/v1/me"@),
            is_by_user(request, *self.reddit_instance(), self.stored_access_token()@),
            request.form@.len() == 0,
    {
        self.request(Method::Get, "/api/v1/me", Vec::new())
    }

    /// The request that asks Reddit for the user's preferences. It is made with the
    /// access token that is stored, so that one is to be fresh.
    pub fn prefs(&self) -> (request: Request)
        ensures
            request.method == Method::Get,
            request.url@ == endpoint_spec("/api/v1/me/prefs"@),
            is_by_user(request, *self.reddit_instance(), self.stored_access_token()@),
            request.form@.len() == 0,
    {
        self.request(Method::Get, "/api/v1/me/prefs", Vec::new())
    }

    /// The user's name, from Reddit's answer to `me`.
    pub fn username(&self, me: Result<Me, RequestError>) -> (name: Result<String, RequestError>)
        ensures
            me matches Ok(answer) ==> name matches Ok(text) && text@ == answer.name@,
            me matches Err(failure) ==> name matches Err(same) && same == failure,
    {
        match me {
            Ok(answer) => Ok(answer.name),
            Err(failure) => Err(failure),
        }
    }

    /// The user's language, from Reddit's answer to `prefs`.
    pub fn lang(&self, prefs: Result<Prefs, RequestError>) -> (lang: Result<String, RequestError>)
        ensures
            prefs matches Ok(answer) ==> lang matches Ok(text) && text@ == answer.lang@,
            prefs matches Err(failure) ==> lang matches Err(same) && same == failure,
    {
        match prefs {
            Ok(answer) => Ok(answer.lang),
            Err(failure) => Err(failure),
        }
    }

    /// The request that submits a self post to a subreddit. It is made with the access
    /// token that is stored, so that one is to be fresh.
    pub fn submit_self_post(&self, subreddit: &str, title: &str, text: Option<&str>) -> (request:
        Request)
        ensures
            request.method == Method::Post,
            request.url@ == endpoint_spec("/api/submit"@),
            is_by_user(request, *self.reddit_instance(), self.stored_access_token()@),
            pairs_view(request.form@) == self_post_form(subreddit@, title@, text_or_empty(text)),
    {
        let body: &str = match text {
            Some(text) => text,
            None => "",
        };
        proof {
            reveal_strlit("");
            assert(""@ =~= Seq::<char>::empty());
        }
        let mut form: Vec<(String, String)> = Vec::new();
        form.push(pair("kind", "self"));
        form.push(pair("api_type", "json"));
        form.push(pair("extensions", "json"));
        form.push(pair("sendreplies", "false"));
        form.push(pair("sr", subreddit));
        form.push(pair("title", title));
        form.push(pair("text", body));
        assert(pairs_view(form@) =~= self_post_form(subreddit@, title@, text_or_empty(text)));
        self.request(Method::Post, "/api/submit", form)
    }
}

} // verus!
