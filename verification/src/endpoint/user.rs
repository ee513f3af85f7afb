//! Requests on users.
use crate::controller::user::User;
use crate::controller::StoreError;
use crate::endpoint::helpers::{json_result, mapped, RocketResult, Status};
use vstd::prelude::*;
use vstd::string::*;

verus! {

/// Every user, as the store lists them.
pub fn all(rows: Result<Vec<User>, StoreError>) -> (response: RocketResult<Vec<User>>)
    ensures
        rows matches Ok(list) ==> response matches Ok(body) && body == list,
        rows matches Err(err) ==> response matches Err(status) && status == mapped(err),
{
    json_result(rows)
}

/// One user, as the cache or the store gave it.
pub fn get(row: Result<User, StoreError>) -> (response: RocketResult<User>)
    ensures
        row matches Ok(found) ==> response matches Ok(body) && body == found,
        row matches Err(err) ==> response matches Err(status) && status == mapped(err),
{
    json_result(row)
}

/// A `User` that has an additional `token` field containing a JWT. The tokens that the
/// user got from Reddit are left out.
#[derive(Debug, PartialEq, Eq)]
pub struct TokenUser {
    pub token: String,
    pub id: i32,
    pub reddit_username: String,
    pub lang: String,
    pub is_global_admin: bool,
    pub spacex__is_admin: bool,
    pub spacex__is_mod: bool,
    pub spacex__is_slack_member: bool,
}

impl TokenUser {
    /// Create a `TokenUser` from a user and the token that was encoded for them.
    pub fn from(user: User, token: String) -> (with_token: TokenUser)
        ensures
            with_token.token == token,
            with_token.id == user.id,
            with_token.reddit_username == user.reddit_username,
            with_token.lang == user.lang,
            with_token.is_global_admin == user.is_global_admin,
            with_token.spacex__is_admin == user.spacex__is_admin,
            with_token.spacex__is_mod == user.spacex__is_mod,
            with_token.spacex__is_slack_member == user.spacex__is_slack_member,
    {
        TokenUser {
            token,
            id: user.id,
            reddit_username: user.reddit_username,
            lang: user.lang,
            is_global_admin: user.is_global_admin,
            spacex__is_admin: user.spacex__is_admin,
            spacex__is_mod: user.spacex__is_mod,
            spacex__is_slack_member: user.spacex__is_slack_member,
        }
    }
}

/// Why a request is turned away before it reaches an endpoint.
pub type Refusal = (Status, &'static str);

/// What the `Authorization` header of a request says: the token behind `bearer ` or
/// `Bearer `. A request without the header is unauthorized; a header that begins
/// otherwise is a bad request.
pub open spec fn bearer_token_spec(header: Option<&str>) -> Result<Seq<char>, Status> {
    match header {
        None => Err(Status::Unauthorized),
        Some(contents) => if contents@.len() >= 7 && (contents@.subrange(0, 7) == "bearer "@
            || contents@.subrange(0, 7) == "Bearer "@) {
            Ok(contents@.skip(7))
        } else {
            Err(Status::BadRequest)
        },
    }
}

/// Reads the token from the `Authorization` header of a request, or says why the
/// request is turned away.
pub fn bearer_token<'a>(header: Option<&'a str>) -> (token: Result<&'a str, Refusal>)
    ensures
        token matches Ok(text) ==> bearer_token_spec(header) matches Ok(behind) && behind == text@,
        token matches Err(refusal) ==> bearer_token_spec(header) matches Err(status) && status
            == refusal.0,
        token matches Err(refusal) ==> refusal.1@ == (if header is None {
            "Expected \"Authorization\" header to be present"@
        } else {
            "Expected \"Authorization\" header to begin with \"bearer \" or \"Bearer \""@
        }),
{
    let contents = match header {
        Some(contents) => contents,
        None => {
            return Err(
                (Status::Unauthorized, "Expected \"Authorization\" header to be present"),
            );
        },
    };
    proof {
        reveal_strlit("bearer ");
        reveal_strlit("Bearer ");
    }
    let len: usize = contents.unicode_len();
    if len >= 7 && (contents.get_char(0) == 'b' || contents.get_char(0) == 'B') && contents.get_char(
        1,
    ) == 'e' && contents.get_char(2) == 'a' && contents.get_char(3) == 'r' && contents.get_char(4)
        == 'e' && contents.get_char(5) == 'r' && contents.get_char(6) == ' ' {
        proof {
            let head = contents@.subrange(0, 7);
            if contents@[0] == 'b' {
                assert(head =~= "bearer "@);
            } else {
                assert(head =~= "Bearer "@);
            }
        }
        Ok(contents.substring_char(7, len))
    } else {
        proof {
            if contents@.len() >= 7 {
                let head = contents@.subrange(0, 7);
                assert(head[0] == contents@[0] && head[1] == contents@[1] && head[2] == contents@[2]
                    && head[3] == contents@[3] && head[4] == contents@[4] && head[5] == contents@[5]
                    && head[6] == contents@[6]);
            }
        }
        Err(
            (
                Status::BadRequest,
                "Expected \"Authorization\" header to begin with \"bearer \" or \"Bearer \"",
            ),
        )
    }
}

/// Lets the request of a user pass: `user_id` is what the token of the request decodes
/// to, if it does, and `found` the user with that id, as the cache or the store gave it.
/// A token that cannot be decoded and a user that is not there are bad requests.
pub fn from_request(user_id: Option<i32>, found: Option<User>) -> (user: Result<User, Refusal>)
    ensures
        user is Ok <==> user_id is Some && found is Some,
        user matches Ok(passed) ==> found == Some(passed),
        user matches Err(refusal) ==> refusal.0 == Status::BadRequest && refusal.1@ == (
        if user_id is None {
            "\"Authorization\" header cannot be decoded"@
        } else {
            "Unable to find user"@
        }),
{
    if user_id.is_none() {
        return Err((Status::BadRequest, "\"Authorization\" header cannot be decoded"));
    }
    match found {
        Some(authenticated_user) => Ok(authenticated_user),
        None => Err((Status::BadRequest, "Unable to find user")),
    }
}

} // verus!
