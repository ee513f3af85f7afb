//! Proof that a user is a global admin.
use crate::controller::user::User;
use crate::endpoint::helpers::Status;
use vstd::prelude::*;

verus! {

/// A user who is a global admin. There is no other way to make one than `from_user`.
pub struct GlobalAdmin(User);

impl GlobalAdmin {
    /// The user that is the global admin.
    pub closed spec fn user(&self) -> User {
        self.0
    }

    /// Every `GlobalAdmin` holds a user who is a global admin.
    #[verifier::type_invariant]
    closed spec fn holds_admin(&self) -> bool {
        self.0.is_global_admin
    }

    /// Lets a user pass who is a global admin, and turns away any other as unauthorized.
    pub fn from_user(user: User) -> (admin: Result<GlobalAdmin, (Status, &'static str)>)
        ensures
            admin is Ok <==> user.is_global_admin,
            admin matches Ok(passed) ==> passed.user() == user,
            admin matches Err(refused) ==> refused.0 == Status::Unauthorized && refused.1@
                == "Must be authenticated as a global admin to access this endpoint."@,
    {
        if user.is_global_admin {
            Ok(GlobalAdmin(user))
        } else {
            Err(
                (
                    Status::Unauthorized,
                    "Must be authenticated as a global admin to access this endpoint.",
                ),
            )
        }
    }

    /// The user that is the global admin.
    pub fn into(self) -> (user: User)
        ensures
            user == self.user(),
            user.is_global_admin,
    {
        proof {
            use_type_invariant(&self);
        }
        self.0
    }
}

} // verus!
