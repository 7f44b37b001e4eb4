//! What the service holds between requests: the signing secret and the
//! store of revoked tokens.

pub mod revocation;

pub use revocation::{swept, RevocationStore};

use std::sync::Arc;
use vstd::prelude::*;

verus! {

/// Why the state could not give what was asked of it.
#[derive(Debug)]
pub enum Error {
    /// No signing secret was configured.
    MissingJwtSecret,
    /// The database reported an error; the text is its description.
    DatabaseError(String),
    /// No database connection was set up.
    DatabaseNotInitialized,
}

/// The sentence that describes each error to a reader.
pub open spec fn message_of(error: Error) -> Seq<char> {
    match error {
        Error::MissingJwtSecret => "JWT secret is required"@,
        Error::DatabaseError(detail) => "Database error: "@ + detail@,
        Error::DatabaseNotInitialized => "Database connection not initialized"@,
    }
}

impl Error {
    /// The sentence that describes this error.
    pub fn message(&self) -> (text: String)
        ensures
            text@ == message_of(*self),
    {
        match self {
            Error::MissingJwtSecret => "JWT secret is required".to_owned(),
            Error::DatabaseError(detail) => "Database error: ".to_owned().concat(detail.as_str()),
            Error::DatabaseNotInitialized => "Database connection not initialized".to_owned(),
        }
    }
}

/// What an [`AppState`] holds, as mathematics.
pub ghost struct StateView {
    /// The signing secret, if one was configured.
    pub secret: Option<Seq<char>>,
    /// The revoked tokens, each with its expiry time.
    pub revoked: Map<Seq<char>, i64>,
}

/// The settings of the service, each by its name.
pub struct Config {
    /// The secret that signs and verifies the tokens. It is required.
    pub jwt_secret: Option<Arc<String>>,
}

/// The state of the service. The secret is sensitive: it is never printed.
pub struct AppState {
    jwt_secret: Option<Arc<String>>,
    token_blacklist: RevocationStore,
}

impl View for AppState {
    type V = StateView;

    closed spec fn view(&self) -> StateView {
        StateView {
            secret: match self.jwt_secret {
                Some(secret) => Some(secret@),
                None => None,
            },
            revoked: self.token_blacklist@,
        }
    }
}

impl AppState {
    /// A state without a secret and with nothing revoked.
    pub fn new() -> (state: Self)
        ensures
            state@ == (StateView { secret: None, revoked: Map::empty() }),
    {
        Self { jwt_secret: None, token_blacklist: RevocationStore::new() }
    }

    /// The state that `config` asks for, with nothing revoked. A
    /// configuration without a signing secret is refused at once, with
    /// `MissingJwtSecret`.
    pub fn from_config(config: Config) -> (state: Result<Self, Error>)
        ensures
            match config.jwt_secret {
                Some(secret) => state matches Ok(made) && made@ == (StateView {
                    secret: Some(secret@),
                    revoked: Map::empty(),
                }),
                None => state matches Err(Error::MissingJwtSecret),
            },
    {
        match config.jwt_secret {
            Some(secret) => Ok(Self::new().with_jwt_secret(secret)),
            None => Err(Error::MissingJwtSecret),
        }
    }

    /// The same state with `jwt_secret` as its signing secret.
    pub fn with_jwt_secret(self, jwt_secret: Arc<String>) -> (state: Self)
        ensures
            state@ == (StateView { secret: Some(jwt_secret@), ..self@ }),
    {
        let mut state = self;
        state.jwt_secret = Some(jwt_secret);
        state
    }

    /// The signing secret, or `MissingJwtSecret` where none was configured.
    pub fn jwt_secret(&self) -> (secret: Result<&Arc<String>, Error>)
        ensures
            match self@.secret {
                Some(text) => secret matches Ok(found) && found@ == text,
                None => secret matches Err(Error::MissingJwtSecret),
            },
    {
        match &self.jwt_secret {
            Some(secret) => Ok(secret),
            None => Err(Error::MissingJwtSecret),
        }
    }

    /// The store of revoked tokens.
    pub fn token_blacklist(&self) -> (store: &RevocationStore)
        ensures
            store@ == self@.revoked,
    {
        &self.token_blacklist
    }

    /// Records `token` as revoked until `expires_at`.
    pub fn revoke(&mut self, token: &str, expires_at: i64)
        ensures
            final(self)@ == (StateView {
                revoked: old(self)@.revoked.insert(token@, expires_at),
                ..old(self)@
            }),
    {
        self.token_blacklist.insert(token, expires_at);
    }

    /// Drops the revoked tokens that have expired by `now`.
    pub fn sweep(&mut self, now: i64)
        ensures
            final(self)@ == (StateView {
                revoked: swept(old(self)@.revoked, now as int),
                ..old(self)@
            }),
    {
        self.token_blacklist.sweep(now);
    }
}

} // verus!
