use vstd::prelude::*;

verus! {

/// The body of a login request.
#[derive(Debug)]
pub struct LoginRequest {
    pub username: String,
    pub password: String,
}

/// The body that answers a successful login.
#[derive(Debug)]
pub struct LoginResponse {
    /// The signed token.
    pub token: String,
    /// The scheme under which the token is presented: always `Bearer`.
    pub token_type: String,
    /// Unix time, in seconds, at which the token expires.
    pub token_expires: i64,
}

impl LoginResponse {
    /// The answer that presents `token`, which expires at `token_expires`,
    /// as a bearer token.
    pub fn bearer(token: String, token_expires: i64) -> (response: Self)
        ensures
            response.token == token,
            response.token_type@ == "Bearer"@,
            response.token_expires == token_expires,
    {
        LoginResponse { token, token_type: "Bearer".to_owned(), token_expires }
    }
}

/// The body that answers a successful logout.
#[derive(Debug)]
pub struct LogoutResponse {
    pub message: String,
}

/// What the credential store said of a user name and a password.
#[derive(Debug, Clone, Copy, PartialEq, Eq, Structural)]
pub enum CredentialCheck {
    /// The user exists and the password is theirs.
    Matched,
    /// The user exists and the password is not theirs.
    Mismatched,
    /// No such user.
    NotFound,
}

} // verus!
