use bss_backend::auth::{Error, Response};

const ALL: [Error; 6] = [
    Error::InvalidCredentials,
    Error::TokenCreation,
    Error::TokenValidation,
    Error::TokenExpired,
    Error::InvalidTokenFormat,
    Error::TokenRevoked,
];

#[test]
fn each_error_has_its_status() {
    assert_eq!(Error::InvalidCredentials.status(), 401);
    assert_eq!(Error::TokenExpired.status(), 401);
    assert_eq!(Error::TokenRevoked.status(), 403);
    assert_eq!(Error::InvalidTokenFormat.status(), 400);
    assert_eq!(Error::TokenValidation.status(), 500);
    assert_eq!(Error::TokenCreation.status(), 500);
}

#[test]
fn each_error_has_its_code() {
    assert_eq!(Error::InvalidCredentials.code(), "invalid_credentials");
    assert_eq!(Error::TokenExpired.code(), "token_expired");
    assert_eq!(Error::TokenRevoked.code(), "token_revoked");
    assert_eq!(Error::InvalidTokenFormat.code(), "invalid_format");
    assert_eq!(Error::TokenValidation.code(), "token_invalid");
    assert_eq!(Error::TokenCreation.code(), "token_creation_failed");
}

#[test]
fn each_error_has_its_message() {
    assert_eq!(Error::InvalidCredentials.message(), "Invalid credentials");
    assert_eq!(Error::TokenCreation.message(), "Token creation failed");
    assert_eq!(Error::TokenValidation.message(), "Token validation failed");
    assert_eq!(Error::TokenExpired.message(), "Token has expired");
    assert_eq!(Error::InvalidTokenFormat.message(), "Invalid token format");
    assert_eq!(Error::TokenRevoked.message(), "Token has been revoked");
}

#[test]
fn response_carries_status_message_and_code() {
    for error in ALL {
        let response = Response::from(error);
        assert_eq!(response.status, error.status());
        assert_eq!(response.error, error.message());
        assert_eq!(response.code.as_deref(), Some(error.code()));
    }
}

#[test]
fn revoked_token_is_answered_with_403_token_revoked() {
    let response = Response::from(Error::TokenRevoked);
    assert_eq!(response.status, 403);
    assert_eq!(response.error, "Token has been revoked");
    assert_eq!(response.code.as_deref(), Some("token_revoked"));
}

#[test]
fn response_through_into_is_the_same() {
    let response: Response = Error::InvalidCredentials.into();
    assert_eq!(response.status, 401);
    assert_eq!(response.error, "Invalid credentials");
    assert_eq!(response.code.as_deref(), Some("invalid_credentials"));
}

#[test]
fn codes_are_all_different() {
    for (i, first) in ALL.iter().enumerate() {
        for second in ALL.iter().skip(i + 1) {
            assert_ne!(first.code(), second.code());
        }
    }
}
