//! Structs that borrow their text fields, and two ways to build them.

use vstd::prelude::*;

verus! {

pub struct User<'a> {
    pub username: &'a str,
    pub email: &'a str,
    pub sign_in_count: u64,
    pub active: bool,
}

pub struct Color(pub i32, pub i32, pub i32);

pub struct Point(pub i32, pub i32, pub i32);

/// Builds an active, first-time user; the username is fixed to "wd"
/// and the `username` argument is ignored.
pub fn build_user<'a>(email: &'a str, username: &'a str) -> (u: User<'a>)
    ensures
        u.email@ == email@,
        u.username@ == "wd"@,
        u.active == true,
        u.sign_in_count == 1,
{
    let _ = username;
    User { email: email, username: "wd", active: true, sign_in_count: 1 }
}

/// Builds an active, first-time user from both pieces of text.
pub fn build_user_simple<'a>(email: &'a str, username: &'a str) -> (u: User<'a>)
    ensures
        u.email@ == email@,
        u.username@ == username@,
        u.active == true,
        u.sign_in_count == 1,
{
    User { email, username, active: true, sign_in_count: 1 }
}

} // verus!
