//! The struct exercise: a user record and its builder.

use vstd::prelude::*;

verus! {

/// An account, as the structs lesson models one.
pub struct User {
    pub active: bool,
    pub username: String,
    pub email: String,
    pub sign_in_count: u64,
}

/// Build a fresh user from an email and a username: active, with the
/// given fields, and a sign-in count of one.
pub fn build_user(email: String, username: String) -> (user: User)
    ensures
        user.active == true,
        user.username == username,
        user.email == email,
        user.sign_in_count == 1,
{
    User { active: true, username, email, sign_in_count: 1 }
}

} // verus!
