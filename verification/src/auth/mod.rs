//! Tokens, the claims they carry, and the session service that issues,
//! verifies and revokes them.

pub mod claims;
pub mod clock;
pub mod codec;
pub mod credentials;
pub mod error;
pub mod laws;
pub mod messages;
pub mod request;
pub mod session;

pub use claims::{Claims, ClaimsView};
pub use error::{Error, Response, ResponseView};
pub use messages::{CredentialCheck, LoginRequest, LoginResponse, LogoutResponse};
pub use request::{handle_login, handle_logout, middleware};
pub use session::Session;
