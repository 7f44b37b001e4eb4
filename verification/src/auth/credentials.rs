use vstd::prelude::*;
use crate::auth::messages::CredentialCheck;
use crate::text::same_text;

verus! {

/// What the built-in account says of a user name and a password: `admin`
/// is the one user, and `password` is their password.
pub open spec fn builtin_check(username: Seq<char>, password: Seq<char>) -> CredentialCheck {
    if username != "admin"@ {
        CredentialCheck::NotFound
    } else if password != "password"@ {
        CredentialCheck::Mismatched
    } else {
        CredentialCheck::Matched
    }
}

/// Checks credentials against the built-in account, which stands in where
/// no credential store is connected.
pub fn builtin_account(username: &str, password: &str) -> (check: CredentialCheck)
    ensures
        check == builtin_check(username@, password@),
{
    if !same_text(username, "admin") {
        CredentialCheck::NotFound
    } else if !same_text(password, "password") {
        CredentialCheck::Mismatched
    } else {
        CredentialCheck::Matched
    }
}

} // verus!
