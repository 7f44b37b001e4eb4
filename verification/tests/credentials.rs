use bss_backend::auth::credentials::builtin_account;
use bss_backend::auth::{handle_login, CredentialCheck, LoginRequest, Session};
use bss_backend::state::AppState;
use std::sync::Arc;

#[test]
fn builtin_account_knows_admin() {
    assert_eq!(builtin_account("admin", "password"), CredentialCheck::Matched);
}

#[test]
fn builtin_account_refuses_a_wrong_password() {
    for password in ["", "wrong", "Password", "password ", "passwor", "passwords"] {
        assert_eq!(builtin_account("admin", password), CredentialCheck::Mismatched);
    }
}

#[test]
fn builtin_account_knows_nobody_else() {
    for username in ["", "nobody", "Admin", "admin ", "admi", "admins", "ädmin"] {
        assert_eq!(builtin_account(username, "password"), CredentialCheck::NotFound);
        assert_eq!(builtin_account(username, "x"), CredentialCheck::NotFound);
    }
}

#[test]
fn builtin_account_feeds_the_login() {
    let session = Session::new(AppState::new().with_jwt_secret(Arc::new("secret".to_string())));
    let login = |username: &str, password: &str| {
        let body = LoginRequest { username: username.to_string(), password: password.to_string() };
        handle_login(&session, body, builtin_account(username, password))
    };
    let accepted = login("admin", "password").unwrap();
    assert_eq!(accepted.token_type, "Bearer");
    assert_eq!(session.verify_token(&accepted.token).unwrap().sub(), "admin");
    let wrong = login("admin", "wrong").unwrap_err();
    let nobody = login("nobody", "password").unwrap_err();
    assert_eq!(wrong.status, 401);
    assert_eq!(wrong.status, nobody.status);
    assert_eq!(wrong.error, nobody.error);
    assert_eq!(wrong.code, nobody.code);
}
