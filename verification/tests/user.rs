use bss_backend::state;
use bss_backend::user::{Error, Timestamp, User};
use uuid::Uuid;

fn moment(secs: i64) -> Timestamp {
    Timestamp { secs, nanos: 0 }
}

#[test]
fn epoch_is_second_zero() {
    assert_eq!(Timestamp::epoch(), Timestamp { secs: 0, nanos: 0 });
}

#[test]
fn new_user_has_nothing_set() {
    let user = User::new();
    assert!(matches!(user.uuid(), Err(Error::ValidationError(text)) if text == "I have no UUID!"));
    assert!(matches!(user.email(), Err(Error::EmailRequired)));
    assert!(matches!(
        user.password_hash(),
        Err(Error::ValidationError(text)) if text == "User has no password set!"
    ));
    assert!(!user.email_verified());
    assert!(matches!(
        user.created_at(),
        Err(Error::ValidationError(text)) if text == "I have no created_at!"
    ));
    assert_eq!(user.last_login().unwrap(), Timestamp::epoch());
    assert_eq!(user.failed_login_attempts(), 0);
    assert_eq!(user.locked_until().unwrap(), Timestamp::epoch());
}

#[test]
fn default_user_is_a_new_user() {
    let user = User::default();
    assert!(user.uuid().is_err());
    assert!(user.email().is_err());
    assert_eq!(user.failed_login_attempts(), 0);
}

#[test]
fn builders_set_their_field() {
    let id = Uuid::from_u128(0x1234_5678_9abc_def0_1234_5678_9abc_def0);
    let user = User::new()
        .with_uuid(id)
        .with_email("a@example.com".to_string())
        .with_password_hash("hash".to_string())
        .with_email_verified(true)
        .with_created_at(Timestamp { secs: 1_700_000_000, nanos: 5 })
        .with_last_login(moment(1_700_000_100))
        .with_failed_login_attempts(3)
        .with_locked_until(moment(1_700_000_200));
    assert_eq!(user.uuid().unwrap(), id);
    assert_eq!(user.email().unwrap(), "a@example.com");
    assert_eq!(user.password_hash().unwrap(), "hash");
    assert!(user.email_verified());
    assert_eq!(user.created_at().unwrap(), Timestamp { secs: 1_700_000_000, nanos: 5 });
    assert_eq!(user.last_login().unwrap(), moment(1_700_000_100));
    assert_eq!(user.failed_login_attempts(), 3);
    assert_eq!(user.locked_until().unwrap(), moment(1_700_000_200));
}

#[test]
fn a_builder_leaves_the_other_fields_alone() {
    let id = Uuid::from_u128(7);
    let user = User::new().with_uuid(id).with_email("a@example.com".to_string());
    let user = user.with_failed_login_attempts(-2);
    assert_eq!(user.uuid().unwrap(), id);
    assert_eq!(user.email().unwrap(), "a@example.com");
    assert_eq!(user.failed_login_attempts(), -2);
    assert!(user.password_hash().is_err());
    assert!(!user.email_verified());
}

#[test]
fn empty_email_counts_as_none() {
    let user = User::new().with_email(String::new());
    assert!(matches!(user.email(), Err(Error::EmailRequired)));
}

#[test]
fn email_is_returned_as_it_was_given() {
    let user = User::new().with_email("not an address".to_string());
    assert_eq!(user.email().unwrap(), "not an address");
}

#[test]
fn empty_password_hash_counts_as_none() {
    let user = User::new().with_password_hash(String::new());
    assert!(matches!(
        user.password_hash(),
        Err(Error::ValidationError(text)) if text == "User has no password set!"
    ));
}

#[test]
fn clone_keeps_every_field() {
    let id = Uuid::from_u128(9);
    let user = User::new()
        .with_uuid(id)
        .with_email("a@example.com".to_string())
        .with_password_hash("hash".to_string())
        .with_email_verified(true)
        .with_created_at(moment(1))
        .with_last_login(moment(2))
        .with_failed_login_attempts(4)
        .with_locked_until(moment(3));
    let copy = user.clone();
    assert_eq!(copy.uuid().unwrap(), id);
    assert_eq!(copy.email().unwrap(), "a@example.com");
    assert_eq!(copy.password_hash().unwrap(), "hash");
    assert!(copy.email_verified());
    assert_eq!(copy.created_at().unwrap(), moment(1));
    assert_eq!(copy.last_login().unwrap(), moment(2));
    assert_eq!(copy.failed_login_attempts(), 4);
    assert_eq!(copy.locked_until().unwrap(), moment(3));
}

#[test]
fn user_errors_describe_themselves() {
    assert_eq!(
        Error::ValidationError("I have no UUID!".to_string()).message(),
        "Validation Failed For User Object: I have no UUID!"
    );
    assert_eq!(
        Error::EmailInvalid("email".to_string()).message(),
        "Email address is invalid: email"
    );
    assert_eq!(Error::EmailRequired.message(), "Email address is required");
    assert_eq!(Error::DatabaseError("gone".to_string()).message(), "Database error: gone");
    assert_eq!(Error::UserNotFound.message(), "User not found");
}

#[test]
fn database_error_of_the_state_stays_a_database_error() {
    let converted = Error::from(state::Error::DatabaseError("gone".to_string()));
    assert!(matches!(converted, Error::DatabaseError(text) if text == "gone"));
}

#[test]
fn other_errors_of_the_state_become_validation_errors() {
    let converted = Error::from(state::Error::MissingJwtSecret);
    assert!(matches!(converted, Error::ValidationError(text) if text == "Unknown state error"));
    let converted: Error = state::Error::DatabaseNotInitialized.into();
    assert!(matches!(converted, Error::ValidationError(text) if text == "Unknown state error"));
}
