//! The record of a user, as the credential store keeps it.

use uuid::Uuid;
use vstd::prelude::*;

verus! {

/// The identifier type of the `uuid` crate. It is carried through as it is:
/// nothing is known of what a value holds.
#[verifier::external_type_specification]
#[verifier::external_body]
pub struct ExUuid(Uuid);

/// A moment in UTC: whole seconds since the Unix epoch, and the nanoseconds
/// within the second.
#[derive(Debug, Clone, Copy, PartialEq, Eq, Structural)]
pub struct Timestamp {
    pub secs: i64,
    pub nanos: u32,
}

/// The Unix epoch, which also stands for "never".
pub open spec fn unix_epoch() -> Timestamp {
    Timestamp { secs: 0, nanos: 0 }
}

impl Timestamp {
    /// The Unix epoch.
    pub fn epoch() -> (moment: Timestamp)
        ensures
            moment == unix_epoch(),
    {
        Timestamp { secs: 0, nanos: 0 }
    }
}

/// Why a user record could not give what was asked of it.
#[derive(Debug)]
pub enum Error {
    /// The record lacks something; the text says what.
    ValidationError(String),
    /// The email address is not a valid one; the text says why.
    EmailInvalid(String),
    /// The record has no email address.
    EmailRequired,
    /// The database reported an error; the text is its description.
    DatabaseError(String),
    /// No such user.
    UserNotFound,
}

/// The sentence that describes each error to a reader.
pub open spec fn message_of(error: Error) -> Seq<char> {
    match error {
        Error::ValidationError(detail) => "Validation Failed For User Object: "@ + detail@,
        Error::EmailInvalid(detail) => "Email address is invalid: "@ + detail@,
        Error::EmailRequired => "Email address is required"@,
        Error::DatabaseError(detail) => "Database error: "@ + detail@,
        Error::UserNotFound => "User not found"@,
    }
}

impl Error {
    /// The sentence that describes this error.
    pub fn message(&self) -> (text: String)
        ensures
            text@ == message_of(*self),
    {
        match self {
            Error::ValidationError(detail) => "Validation Failed For User Object: "
                .to_owned()
                .concat(detail.as_str()),
            Error::EmailInvalid(detail) => "Email address is invalid: ".to_owned().concat(
                detail.as_str(),
            ),
            Error::EmailRequired => "Email address is required".to_owned(),
            Error::DatabaseError(detail) => "Database error: ".to_owned().concat(detail.as_str()),
            Error::UserNotFound => "User not found".to_owned(),
        }
    }
}

/// A database error of the state stays one; any other is reported as a
/// failed validation.
impl From<crate::state::Error> for Error {
    fn from(error: crate::state::Error) -> (converted: Error)
        ensures
            match error {
                crate::state::Error::DatabaseError(detail) => converted == Error::DatabaseError(
                    detail,
                ),
                _ => converted matches Error::ValidationError(text) && text@
                    == "Unknown state error"@,
            },
    {
        match error {
            crate::state::Error::DatabaseError(detail) => Error::DatabaseError(detail),
            _ => Error::ValidationError("Unknown state error".to_owned()),
        }
    }
}

/// What `from` returns is stated on `from` itself, over the views: the
/// result holds texts, and texts are compared by their characters, so no
/// single value can be named here as the result.
impl vstd::std_specs::convert::FromSpecImpl<crate::state::Error> for Error {
    open spec fn obeys_from_spec() -> bool {
        false
    }

    open spec fn from_spec(error: crate::state::Error) -> Error {
        arbitrary()
    }
}

/// What a [`User`] holds, as mathematics.
pub ghost struct UserView {
    pub id: Option<Uuid>,
    pub email: Option<Seq<char>>,
    pub password_hash: Option<Seq<char>>,
    pub email_verified: bool,
    pub created_at: Option<Timestamp>,
    pub last_login: Option<Timestamp>,
    pub failed_login_attempts: int,
    pub locked_until: Option<Timestamp>,
}

/// A record without any field set.
pub open spec fn blank() -> UserView {
    UserView {
        id: None,
        email: None,
        password_hash: None,
        email_verified: false,
        created_at: None,
        last_login: None,
        failed_login_attempts: 0,
        locked_until: None,
    }
}

/// An optional text, seen as mathematics.
pub open spec fn text_of(text: Option<String>) -> Option<Seq<char>> {
    match text {
        Some(text) => Some(text@),
        None => None,
    }
}

/// A user as the credential store keeps it. A field that was never set is
/// absent; the getters say what that means for each.
#[derive(Debug)]
pub struct User {
    id: Option<Uuid>,
    email: Option<String>,
    password_hash: Option<String>,
    email_verified: bool,
    created_at: Option<Timestamp>,
    last_login: Option<Timestamp>,
    failed_login_attempts: i32,
    locked_until: Option<Timestamp>,
}

impl View for User {
    type V = UserView;

    closed spec fn view(&self) -> UserView {
        UserView {
            id: self.id,
            email: text_of(self.email),
            password_hash: text_of(self.password_hash),
            email_verified: self.email_verified,
            created_at: self.created_at,
            last_login: self.last_login,
            failed_login_attempts: self.failed_login_attempts as int,
            locked_until: self.locked_until,
        }
    }
}

impl Default for User {
    fn default() -> (user: Self)
        ensures
            user@ == blank(),
    {
        Self {
            id: None,
            email: None,
            password_hash: None,
            email_verified: false,
            created_at: None,
            last_login: None,
            failed_login_attempts: 0,
            locked_until: None,
        }
    }
}

impl Clone for User {
    fn clone(&self) -> (copy: Self)
        ensures
            copy@ == self@,
    {
        Self {
            id: self.id,
            email: match &self.email {
                Some(email) => Some(email.clone()),
                None => None,
            },
            password_hash: match &self.password_hash {
                Some(password_hash) => Some(password_hash.clone()),
                None => None,
            },
            email_verified: self.email_verified,
            created_at: self.created_at,
            last_login: self.last_login,
            failed_login_attempts: self.failed_login_attempts,
            locked_until: self.locked_until,
        }
    }
}

impl User {
    /// A record without any field set.
    pub fn new() -> (user: Self)
        ensures
            user@ == blank(),
    {
        Self::default()
    }

    /// The same record with `id` as its identifier.
    pub fn with_uuid(self, id: Uuid) -> (user: Self)
        ensures
            user@ == (UserView { id: Some(id), ..self@ }),
    {
        let mut user = self;
        user.id = Some(id);
        user
    }

    /// The same record with `email` as its email address.
    pub fn with_email(self, email: String) -> (user: Self)
        ensures
            user@ == (UserView { email: Some(email@), ..self@ }),
    {
        let mut user = self;
        user.email = Some(email);
        user
    }

    /// The same record with `password_hash` as the hash of its password.
    pub fn with_password_hash(self, password_hash: String) -> (user: Self)
        ensures
            user@ == (UserView { password_hash: Some(password_hash@), ..self@ }),
    {
        let mut user = self;
        user.password_hash = Some(password_hash);
        user
    }

    /// The same record, with the email address verified or not.
    pub fn with_email_verified(self, email_verified: bool) -> (user: Self)
        ensures
            user@ == (UserView { email_verified, ..self@ }),
    {
        let mut user = self;
        user.email_verified = email_verified;
        user
    }

    /// The same record, created at `created_at`.
    pub fn with_created_at(self, created_at: Timestamp) -> (user: Self)
        ensures
            user@ == (UserView { created_at: Some(created_at), ..self@ }),
    {
        let mut user = self;
        user.created_at = Some(created_at);
        user
    }

    /// The same record, last logged in at `last_login`.
    pub fn with_last_login(self, last_login: Timestamp) -> (user: Self)
        ensures
            user@ == (UserView { last_login: Some(last_login), ..self@ }),
    {
        let mut user = self;
        user.last_login = Some(last_login);
        user
    }

    /// The same record with this many failed logins in a row.
    pub fn with_failed_login_attempts(self, failed_login_attempts: i32) -> (user: Self)
        ensures
            user@ == (UserView { failed_login_attempts: failed_login_attempts as int, ..self@ }),
    {
        let mut user = self;
        user.failed_login_attempts = failed_login_attempts;
        user
    }

    /// The same record, locked until `locked_until`.
    pub fn with_locked_until(self, locked_until: Timestamp) -> (user: Self)
        ensures
            user@ == (UserView { locked_until: Some(locked_until), ..self@ }),
    {
        let mut user = self;
        user.locked_until = Some(locked_until);
        user
    }

    /// The identifier, or a validation error where the record has none.
    pub fn uuid(&self) -> (id: Result<Uuid, Error>)
        ensures
            match self@.id {
                Some(found) => id == Ok::<Uuid, Error>(found),
                None => id matches Err(Error::ValidationError(text)) && text@
                    == "I have no UUID!"@,
            },
    {
        match &self.id {
            Some(id) => Ok(*id),
            None => Err(Error::ValidationError("I have no UUID!".to_owned())),
        }
    }

    /// The email address, or `EmailRequired` where the record has none or
    /// an empty one.
    pub fn email(&self) -> (email: Result<&str, Error>)
        ensures
            match self@.email {
                Some(found) if found.len() > 0 => email matches Ok(text) && text@ == found,
                _ => email matches Err(Error::EmailRequired),
            },
    {
        match &self.email {
            Some(email) => {
                if email.as_str().is_empty() {
                    Err(Error::EmailRequired)
                } else {
                    Ok(email.as_str())
                }
            },
            None => Err(Error::EmailRequired),
        }
    }

    /// The hash of the password, or a validation error where the record
    /// has none or an empty one.
    pub fn password_hash(&self) -> (password_hash: Result<&str, Error>)
        ensures
            match self@.password_hash {
                Some(found) if found.len() > 0 => password_hash matches Ok(text) && text@ == found,
                _ => password_hash matches Err(Error::ValidationError(text)) && text@
                    == "User has no password set!"@,
            },
    {
        match &self.password_hash {
            Some(password_hash) => {
                if password_hash.as_str().is_empty() {
                    Err(Error::ValidationError("User has no password set!".to_owned()))
                } else {
                    Ok(password_hash.as_str())
                }
            },
            None => Err(Error::ValidationError("User has no password set!".to_owned())),
        }
    }

    /// Whether the email address was verified.
    pub fn email_verified(&self) -> (verified: bool)
        ensures
            verified == self@.email_verified,
    {
        self.email_verified
    }

    /// The time of creation, or a validation error where the record has
    /// none.
    pub fn created_at(&self) -> (created_at: Result<Timestamp, Error>)
        ensures
            match self@.created_at {
                Some(found) => created_at == Ok::<Timestamp, Error>(found),
                None => created_at matches Err(Error::ValidationError(text)) && text@
                    == "I have no created_at!"@,
            },
    {
        match &self.created_at {
            Some(created_at) => Ok(*created_at),
            None => Err(Error::ValidationError("I have no created_at!".to_owned())),
        }
    }

    /// The time of the last login; the Unix epoch where there was none.
    pub fn last_login(&self) -> (last_login: Result<Timestamp, Error>)
        ensures
            last_login == Ok::<Timestamp, Error>(
                match self@.last_login {
                    Some(found) => found,
                    None => unix_epoch(),
                },
            ),
    {
        match &self.last_login {
            Some(last_login) => Ok(*last_login),
            None => Ok(Timestamp::epoch()),
        }
    }

    /// The number of failed logins in a row.
    pub fn failed_login_attempts(&self) -> (attempts: i32)
        ensures
            attempts == self@.failed_login_attempts,
    {
        self.failed_login_attempts
    }

    /// The time until which the account is locked; the Unix epoch where it
    /// is not.
    pub fn locked_until(&self) -> (locked_until: Result<Timestamp, Error>)
        ensures
            locked_until == Ok::<Timestamp, Error>(
                match self@.locked_until {
                    Some(found) => found,
                    None => unix_epoch(),
                },
            ),
    {
        match &self.locked_until {
            Some(locked_until) => Ok(*locked_until),
            None => Ok(Timestamp::epoch()),
        }
    }
}

} // verus!
