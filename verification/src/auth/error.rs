use vstd::prelude::*;

verus! {

/// Why a login, a verification or a revocation was refused.
#[derive(Debug, Clone, Copy, PartialEq, Eq, Structural)]
pub enum Error {
    /// The user name and password did not match.
    InvalidCredentials,
    /// Signing a new token failed: a fault of the server.
    TokenCreation,
    /// The signature did not match, or decoding failed unexpectedly.
    TokenValidation,
    /// The token is sound but past its expiry time.
    TokenExpired,
    /// The token is not a signed payload at all.
    InvalidTokenFormat,
    /// The token was logged out before its time.
    TokenRevoked,
}

/// The HTTP status that answers each error.
pub open spec fn status_of(error: Error) -> int {
    match error {
        Error::InvalidCredentials | Error::TokenExpired => 401,
        Error::TokenCreation | Error::TokenValidation => 500,
        Error::InvalidTokenFormat => 400,
        Error::TokenRevoked => 403,
    }
}

/// The machine-readable code of each error.
pub open spec fn code_of(error: Error) -> Seq<char> {
    match error {
        Error::TokenExpired => "token_expired"@,
        Error::InvalidCredentials => "invalid_credentials"@,
        Error::TokenValidation => "token_invalid"@,
        Error::TokenCreation => "token_creation_failed"@,
        Error::InvalidTokenFormat => "invalid_format"@,
        Error::TokenRevoked => "token_revoked"@,
    }
}

/// The sentence that describes each error to a reader.
pub open spec fn message_of(error: Error) -> Seq<char> {
    match error {
        Error::InvalidCredentials => "Invalid credentials"@,
        Error::TokenCreation => "Token creation failed"@,
        Error::TokenValidation => "Token validation failed"@,
        Error::TokenExpired => "Token has expired"@,
        Error::InvalidTokenFormat => "Invalid token format"@,
        Error::TokenRevoked => "Token has been revoked"@,
    }
}

impl Error {
    /// The HTTP status that answers this error.
    pub fn status(&self) -> (status: u16)
        ensures
            status == status_of(*self),
    {
        match self {
            Error::InvalidCredentials | Error::TokenExpired => 401,
            Error::TokenCreation | Error::TokenValidation => 500,
            Error::InvalidTokenFormat => 400,
            Error::TokenRevoked => 403,
        }
    }

    /// The machine-readable code of this error.
    pub fn code(&self) -> (code: &'static str)
        ensures
            code@ == code_of(*self),
    {
        match self {
            Error::TokenExpired => "token_expired",
            Error::InvalidCredentials => "invalid_credentials",
            Error::TokenValidation => "token_invalid",
            Error::TokenCreation => "token_creation_failed",
            Error::InvalidTokenFormat => "invalid_format",
            Error::TokenRevoked => "token_revoked",
        }
    }

    /// The sentence that describes this error.
    pub fn message(&self) -> (text: String)
        ensures
            text@ == message_of(*self),
    {
        match self {
            Error::InvalidCredentials => "Invalid credentials".to_owned(),
            Error::TokenCreation => "Token creation failed".to_owned(),
            Error::TokenValidation => "Token validation failed".to_owned(),
            Error::TokenExpired => "Token has expired".to_owned(),
            Error::InvalidTokenFormat => "Invalid token format".to_owned(),
            Error::TokenRevoked => "Token has been revoked".to_owned(),
        }
    }
}

/// What a [`Response`] holds, as mathematics.
pub ghost struct ResponseView {
    pub status: int,
    pub error: Seq<char>,
    pub code: Option<Seq<char>>,
}

/// The answer to a refused request: an HTTP status, and a body with the
/// fields `error` and, for the errors that have one, `code`.
#[derive(Debug)]
pub struct Response {
    pub status: u16,
    pub error: String,
    pub code: Option<String>,
}

impl View for Response {
    type V = ResponseView;

    open spec fn view(&self) -> ResponseView {
        ResponseView {
            status: self.status as int,
            error: self.error@,
            code: match self.code {
                Some(code) => Some(code@),
                None => None,
            },
        }
    }
}

/// The answer that reports `error`.
pub open spec fn response_to(error: Error) -> ResponseView {
    ResponseView {
        status: status_of(error),
        error: message_of(error),
        code: Some(code_of(error)),
    }
}

/// The answer to a request without an authorization header.
pub open spec fn missing_authorization() -> ResponseView {
    ResponseView { status: 401, error: "Missing authorization header"@, code: None }
}

/// The answer to a request whose authorization header does not name the
/// bearer scheme.
pub open spec fn invalid_authorization_format() -> ResponseView {
    ResponseView { status: 401, error: "Invalid authorization header format"@, code: None }
}

impl From<Error> for Response {
    fn from(error: Error) -> (response: Response)
        ensures
            response@ == response_to(error),
    {
        Response {
            status: error.status(),
            error: error.message(),
            code: Some(error.code().to_owned()),
        }
    }
}

/// What `from` returns is stated on `from` itself, over the views: the
/// result holds texts, and texts are compared by their characters, so no
/// single value can be named here as the result.
impl vstd::std_specs::convert::FromSpecImpl<Error> for Response {
    open spec fn obeys_from_spec() -> bool {
        false
    }

    open spec fn from_spec(error: Error) -> Response {
        arbitrary()
    }
}

} // verus!
