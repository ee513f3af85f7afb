//! Signing in through Reddit.
use crate::controller::user::InsertUser;
use crate::reddit::{
    address, pair, pairs_view, parse_with_params, url_with_params, Reddit, UrlError,
};
use crate::text::{decimal, format_i64, parse_i32, parse_i32_spec};
use vstd::prelude::*;
use vstd::string::*;

verus! {

/// What is added to the callback of a signed-in user: the user's id, name and language,
/// and the token to send along with every request.
pub open spec fn callback_params(
    user_id: i32,
    username: Seq<char>,
    lang: Seq<char>,
    token: Seq<char>,
) -> Seq<(Seq<char>, Seq<char>)> {
    seq![
        ("user_id"@, decimal(user_id as int)),
        ("username"@, username),
        ("lang"@, lang),
        ("token"@, token),
    ]
}

/// What is added to the callback of a signed-in user.
pub fn callback_parameters(user_id: i32, username: &str, lang: &str, token: &str) -> (params: Vec<
    (String, String),
>)
    ensures
        pairs_view(params@) == callback_params(user_id, username@, lang@, token@),
{
    let mut params: Vec<(String, String)> = Vec::new();
    params.push(pair("user_id", format_i64(user_id as i64).as_str()));
    params.push(pair("username", username));
    params.push(pair("lang", lang));
    params.push(pair("token", token));
    assert(pairs_view(params@) =~= callback_params(user_id, username@, lang@, token@));
    params
}

/// The address to send a signed-in user back to: the callback that was asked for, with
/// the user's id, name, language and token added to its query.
pub fn callback_url(callback: &str, user_id: i32, username: &str, lang: &str, token: &str) -> (url:
    Result<String, UrlError>)
    ensures
        url is Ok <==> url_with_params(
            callback@,
            callback_params(user_id, username@, lang@, token@),
        ) is Some,
        url matches Ok(text) ==> url_with_params(
            callback@,
            callback_params(user_id, username@, lang@, token@),
        ) == Some(text@),
{
    let params = callback_parameters(user_id, username, lang, token);
    address(parse_with_params(callback, &params))
}

/// The answer to a cookie that does not hold the id of a user.
#[derive(Debug, PartialEq, Eq, Structural, Clone, Copy)]
pub struct InvalidCookie;

/// The id of the user who signed in on this device before, from the cookie that was set
/// then. Without the cookie nobody did; a cookie that holds no id is an error.
pub fn remembered_user(cookie: Option<&str>) -> (user_id: Result<Option<i32>, InvalidCookie>)
    ensures
        user_id is Ok <==> (cookie matches Some(value) ==> parse_i32_spec(value@) is Some),
        user_id matches Ok(found) ==> found == (match cookie {
            Some(value) => parse_i32_spec(value@),
            None => None,
        }),
{
    match cookie {
        None => Ok(None),
        Some(value) => match parse_i32(value) {
            Some(id) => Ok(Some(id)),
            None => Err(InvalidCookie),
        },
    }
}

/// Where to send someone who asks to sign in: back to their callback at once if they
/// signed in before, `known` being their id, name, language and token; to Reddit if not.
pub fn oauth(reddit: &Reddit, known: Option<(i32, &str, &str, &str)>, callback: &str) -> (url:
    Result<String, UrlError>)
    ensures
        known matches Some(user) ==> (url is Ok <==> url_with_params(
            callback@,
            callback_params(user.0, user.1@, user.2@, user.3@),
        ) is Some),
        known matches Some(user) ==> (url matches Ok(text) ==> url_with_params(
            callback@,
            callback_params(user.0, user.1@, user.2@, user.3@),
        ) == Some(text@)),
        known is None ==> (url is Ok <==> url_with_params(
            "https://ssl.reddit.com/api/v1/authorize"@,
            crate::reddit::auth_params(*reddit, callback@),
        ) is Some),
        known is None ==> (url matches Ok(text) ==> url_with_params(
            "https://ssl.reddit.com/api/v1/authorize"@,
            crate::reddit::auth_params(*reddit, callback@),
        ) == Some(text@)),
{
    match known {
        Some((user_id, username, lang, token)) => callback_url(
            callback,
            user_id,
            username,
            lang,
            token,
        ),
        None => reddit.get_auth_url(callback),
    }
}

/// The fields that a user who signed in for the first time is stored with: what Reddit
/// told of them, their tokens, encrypted, and no rights.
pub fn new_user(
    username: String,
    lang: String,
    refresh_token: Vec<u8>,
    access_token: Vec<u8>,
    access_token_expires_at_utc: i64,
) -> (row: InsertUser)
    ensures
        row.reddit_username == username,
        row.lang == lang,
        row.refresh_token == refresh_token,
        row.access_token == access_token,
        row.access_token_expires_at_utc == access_token_expires_at_utc,
        !row.is_global_admin,
        !row.spacex__is_admin,
        !row.spacex__is_mod,
        !row.spacex__is_slack_member,
{
    InsertUser {
        reddit_username: username,
        lang,
        refresh_token,
        is_global_admin: false,
        spacex__is_admin: false,
        spacex__is_mod: false,
        spacex__is_slack_member: false,
        access_token,
        access_token_expires_at_utc,
    }
}

} // verus!
