//! The body of the token that authorizes a request.
use vstd::prelude::*;

verus! {

/// This represents the body ("claim") of the JWT used for authorization.
/// The `user_id` matches with the ID of a `User` object in the database,
/// while `iat` is the UTC timestamp the token was issued at.
#[derive(Debug, PartialEq, Eq, Structural, Clone, Copy)]
pub struct Claim {
    user_id: i32,
    iat: i64,
}

/// `Utc::now` and `DateTime::timestamp`: the seconds since the epoch, by the clock of
/// this machine. Nothing is known of the number.
#[verifier::external_body]
fn timestamp() -> (seconds: i64) {
    chrono::Utc::now().timestamp()
}

impl Claim {
    pub closed spec fn spec_user_id(&self) -> i32 {
        self.user_id
    }

    pub closed spec fn spec_iat(&self) -> i64 {
        self.iat
    }

    /// Create a new `Claim` object with the provided `user_id`.
    /// The `iat` field is the time now.
    pub fn new(user_id: i32) -> (claim: Claim)
        ensures
            claim.user_id() == user_id,
    {
        Claim::issued(user_id, timestamp())
    }

    /// The claim for `user_id` that was issued at `iat`.
    pub fn issued(user_id: i32, iat: i64) -> (claim: Claim)
        ensures
            claim.user_id() == user_id,
            claim.iat() == iat,
    {
        Claim { user_id, iat }
    }

    /// The id of the user that the claim is for.
    #[verifier::when_used_as_spec(spec_user_id)]
    pub fn user_id(&self) -> (user_id: i32)
        ensures
            user_id == self.spec_user_id(),
    {
        self.user_id
    }

    /// When the claim was issued, in seconds since the epoch.
    #[verifier::when_used_as_spec(spec_iat)]
    pub fn iat(&self) -> (iat: i64)
        ensures
            iat == self.spec_iat(),
    {
        self.iat
    }
}

} // verus!
