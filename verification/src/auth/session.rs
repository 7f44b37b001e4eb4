use vstd::prelude::*;
use crate::auth::claims::{Claims, ClaimsView};
use crate::auth::clock::{unix_now, LATEST_CLOCK_TIME};
use crate::auth::codec::{
    self, complete, separators, signed_token, token_payload, CodecError,
};
use crate::auth::error::Error;
use crate::auth::messages::{CredentialCheck, LoginRequest, LoginResponse};
use crate::state::revocation::swept;
use crate::state::{AppState, StateView};

verus! {

/// How long a token is valid from the moment it is issued, in seconds.
pub const TOKEN_TTL_SECONDS: i64 = 3600;

/// A result that carries claims, with the claims seen as mathematics.
pub open spec fn seen<E>(result: Result<Claims, E>) -> Result<ClaimsView, E> {
    match result {
        Ok(claims) => Ok(claims@),
        Err(error) => Err(error),
    }
}

/// The outcomes that decoding `token` under `secret` can have. Without a
/// secret the one outcome is `DecodingFailure`. With a secret:
/// - the token is found malformed exactly where it has fewer than two
///   separators;
/// - it is claims only where the payload of the token holds exactly these,
///   and for the token that signing some claims with this secret gives,
///   only those claims;
/// - it is never an encoding failure.
pub open spec fn decodable(
    secret: Option<Seq<char>>,
    token: Seq<char>,
    decoded: Result<ClaimsView, CodecError>,
) -> bool {
    match secret {
        None => decoded == Err::<ClaimsView, CodecError>(CodecError::DecodingFailure),
        Some(key) => {
            &&& (decoded == Err::<ClaimsView, CodecError>(CodecError::MalformedToken))
                <==> separators(token) < 2
            &&& match decoded {
                Ok(claims) => {
                    &&& complete(token_payload(token, key)) == Some(claims)
                    &&& forall|signed: ClaimsView|
                        token == #[trigger] signed_token(signed, key) ==> claims == signed
                },
                Err(error) => error != CodecError::EncodingFailure,
            }
        },
    }
}

/// An outcome that decoding `token` under `secret` can always have: it is
/// what stands for the decoding where the answer does not depend on it.
spec fn some_outcome(secret: Option<Seq<char>>, token: Seq<char>) -> Result<
    ClaimsView,
    CodecError,
> {
    if secret is Some && separators(token) < 2 {
        Err(CodecError::MalformedToken)
    } else {
        Err(CodecError::DecodingFailure)
    }
}

/// What verification answers for a token, given whether it is revoked, what
/// decoding it gave, and the time. The three checks come in this order:
/// revocation, then the decoding, then the expiry time.
pub open spec fn verdict(
    revoked: bool,
    decoded: Result<ClaimsView, CodecError>,
    now: int,
) -> Result<ClaimsView, Error> {
    if revoked {
        Err(Error::TokenRevoked)
    } else {
        match decoded {
            Ok(claims) => if claims.expires_at <= now {
                Err(Error::TokenExpired)
            } else {
                Ok(claims)
            },
            Err(CodecError::Expired) => Err(Error::TokenExpired),
            Err(CodecError::MalformedToken) => Err(Error::InvalidTokenFormat),
            Err(_) => Err(Error::TokenValidation),
        }
    }
}

/// `result` is an answer that verifying `token` at time `now` can give in
/// `state`: the verdict on one of the outcomes that decoding can have.
pub open spec fn verifies(
    state: StateView,
    token: Seq<char>,
    now: int,
    result: Result<ClaimsView, Error>,
) -> bool {
    exists|decoded: Result<ClaimsView, CodecError>| #[trigger]
        decodable(state.secret, token, decoded) && result == verdict(
            state.revoked.contains_key(token),
            decoded,
            now,
        )
}

/// `after` and `result` are what revoking `token` at time `now` can leave
/// of `before`: the token is judged as in verification, but for the
/// revocation check; where it passes, it is recorded with its own expiry
/// time; where it fails, nothing changes.
pub open spec fn revokes(
    before: StateView,
    token: Seq<char>,
    now: int,
    after: StateView,
    result: Result<(), Error>,
) -> bool {
    exists|decoded: Result<ClaimsView, CodecError>| #[trigger]
        decodable(before.secret, token, decoded) && match verdict(false, decoded, now) {
            Ok(claims) => result is Ok && after == (StateView {
                revoked: before.revoked.insert(token, claims.expires_at),
                ..before
            }),
            Err(error) => result == Err::<(), Error>(error) && after == before,
        }
}

/// What issuing a token for `user_id` at time `now` gives in `state`: with
/// a secret, and where the expiry time fits, the signed token of the claims
/// for `user_id` that are issued at `now` and expire one validity window
/// later, together with that expiry time; otherwise `TokenCreation`.
pub open spec fn issuance(state: StateView, user_id: Seq<char>, now: i64) -> Result<
    (Seq<char>, i64),
    Error,
> {
    match state.secret {
        Some(key) if now + TOKEN_TTL_SECONDS <= i64::MAX => {
            let expires_at = (now + TOKEN_TTL_SECONDS) as i64;
            Ok(
                (
                    signed_token(
                        ClaimsView { subject: user_id, expires_at, issued_at: now },
                        key,
                    ),
                    expires_at,
                ),
            )
        },
        _ => Err(Error::TokenCreation),
    }
}

/// The result of issuing, seen as mathematics.
pub open spec fn issued(result: Result<(String, i64), Error>) -> Result<(Seq<char>, i64), Error> {
    match result {
        Ok((token, expires_at)) => Ok((token@, expires_at)),
        Err(error) => Err(error),
    }
}

/// What a [`LoginResponse`] holds, as mathematics.
pub ghost struct LoginResponseView {
    pub token: Seq<char>,
    pub token_type: Seq<char>,
    pub token_expires: i64,
}

/// The answer to a login, seen as mathematics.
pub open spec fn answered(result: Result<LoginResponse, Error>) -> Result<
    LoginResponseView,
    Error,
> {
    match result {
        Ok(response) => Ok(
            LoginResponseView {
                token: response.token@,
                token_type: response.token_type@,
                token_expires: response.token_expires,
            },
        ),
        Err(error) => Err(error),
    }
}

/// The answer to a login of `username` at time `now` in `state`, where the
/// credential store said `check`. Anything but a match is
/// `InvalidCredentials`; a match gets what issuing a token for `username`
/// gives, presented as a bearer token.
pub open spec fn login_outcome(
    state: StateView,
    username: Seq<char>,
    check: CredentialCheck,
    now: i64,
) -> Result<LoginResponseView, Error> {
    if check == CredentialCheck::Matched {
        match issuance(state, username, now) {
            Ok((token, token_expires)) => Ok(
                LoginResponseView { token, token_type: "Bearer"@, token_expires },
            ),
            Err(error) => Err(error),
        }
    } else {
        Err(Error::InvalidCredentials)
    }
}

/// The session service: it issues tokens, verifies them and revokes them,
/// on the state it was made with.
pub struct Session {
    state: AppState,
}

impl View for Session {
    type V = StateView;

    closed spec fn view(&self) -> StateView {
        self.state@
    }
}

impl Session {
    /// A session service on `state`.
    pub fn new(state: AppState) -> (session: Self)
        ensures
            session@ == state@,
    {
        Self { state }
    }

    /// The state the service works on.
    pub fn state(&self) -> (state: &AppState)
        ensures
            state@ == self@,
    {
        &self.state
    }

    /// Decodes `token` with the secret of this service. Without a secret
    /// the answer is `DecodingFailure`. The codec checks the expiry time of
    /// the token against the system clock, with its leeway.
    pub fn open_token(&self, token: &str) -> (decoded: Result<Claims, CodecError>)
        ensures
            decodable(self@.secret, token@, seen(decoded)),
    {
        match self.state.jwt_secret() {
            Ok(secret) => codec::decode(token, secret.as_str()),
            Err(_) => Err(CodecError::DecodingFailure),
        }
    }

    /// The answer of verification, from whether the token is revoked, what
    /// decoding it gave, and the time.
    pub fn judge(revoked: bool, decoded: Result<Claims, CodecError>, now: i64) -> (result: Result<
        Claims,
        Error,
    >)
        ensures
            seen(result) == verdict(revoked, seen(decoded), now as int),
    {
        if revoked {
            return Err(Error::TokenRevoked);
        }
        match decoded {
            Ok(claims) => {
                if claims.exp() <= now {
                    Err(Error::TokenExpired)
                } else {
                    Ok(claims)
                }
            },
            Err(CodecError::Expired) => Err(Error::TokenExpired),
            Err(CodecError::MalformedToken) => Err(Error::InvalidTokenFormat),
            Err(_) => Err(Error::TokenValidation),
        }
    }

    /// Verifies `token`, comparing its expiry time with `now`.
    ///
    /// `now` decides the comparison that the service makes itself. The
    /// codec's own expiry check, which comes before it, reads the system
    /// clock whatever `now` is: a token that the codec finds expired is
    /// refused as expired at every `now`.
    pub fn verify_token_at(&self, token: &str, now: i64) -> (result: Result<Claims, Error>)
        ensures
            verifies(self@, token@, now as int, seen(result)),
    {
        if self.state.token_blacklist().contains(token) {
            // Revocation is decided without decoding: any outcome of the
            // decoding gives this answer.
            assert(decodable(self@.secret, token@, some_outcome(self@.secret, token@)));
            return Err(Error::TokenRevoked);
        }
        let decoded = self.open_token(token);
        Self::judge(false, decoded, now)
    }

    /// Verifies `token` as of now, by the system clock.
    pub fn verify_token(&self, token: &str) -> (result: Result<Claims, Error>)
        ensures
            exists|now: i64|
                now <= LATEST_CLOCK_TIME && #[trigger] verifies(
                    self@,
                    token@,
                    now as int,
                    seen(result),
                ),
    {
        self.verify_token_at(token, unix_now())
    }

    /// Issues a token for `user_id` as of the time `now`: it is valid for
    /// one validity window from `now`. Returns the token and its expiry
    /// time.
    pub fn create_token_at(&self, user_id: String, now: i64) -> (result: Result<
        (String, i64),
        Error,
    >)
        ensures
            issued(result) == issuance(self@, user_id@, now),
    {
        let expires_at = match now.checked_add(TOKEN_TTL_SECONDS) {
            Some(expires_at) => expires_at,
            None => { return Err(Error::TokenCreation); },
        };
        let secret = match self.state.jwt_secret() {
            Ok(secret) => secret,
            Err(_) => { return Err(Error::TokenCreation); },
        };
        let claims = Claims::new(user_id, expires_at, now);
        Self::issued_token(codec::issue(&claims, secret.as_str()), expires_at)
    }

    /// What issuing answers, from what the codec made of the claims and from
    /// their expiry time: the token with that time, or `TokenCreation` where
    /// the codec failed.
    pub fn issued_token(signed: Result<String, CodecError>, expires_at: i64) -> (result: Result<
        (String, i64),
        Error,
    >)
        ensures
            match signed {
                Ok(token) => result == Ok::<(String, i64), Error>((token, expires_at)),
                Err(_) => result == Err::<(String, i64), Error>(Error::TokenCreation),
            },
    {
        match signed {
            Ok(token) => Ok((token, expires_at)),
            Err(_) => Err(Error::TokenCreation),
        }
    }

    /// Issues a token for `user_id` as of now, by the system clock.
    pub fn create_token(&self, user_id: String) -> (result: Result<(String, i64), Error>)
        ensures
            exists|now: i64|
                now <= LATEST_CLOCK_TIME && issued(result) == #[trigger] issuance(
                    self@,
                    user_id@,
                    now,
                ),
            self@.secret is Some ==> result is Ok,
    {
        self.create_token_at(user_id, unix_now())
    }

    /// Answers a login as of the time `now`. `check` is what the credential
    /// store said of the credentials: only a match gets a token, and a wrong
    /// password is answered exactly as an unknown user is.
    pub fn login_at(&self, credentials: LoginRequest, check: CredentialCheck, now: i64) -> (result:
        Result<LoginResponse, Error>)
        ensures
            answered(result) == login_outcome(self@, credentials.username@, check, now),
    {
        match check {
            CredentialCheck::Matched => {
                match self.create_token_at(credentials.username, now) {
                    Ok((token, expires_at)) => Ok(LoginResponse::bearer(token, expires_at)),
                    Err(error) => Err(error),
                }
            },
            _ => Err(Error::InvalidCredentials),
        }
    }

    /// Answers a login as of now, by the system clock.
    pub fn login(&self, credentials: LoginRequest, check: CredentialCheck) -> (result: Result<
        LoginResponse,
        Error,
    >)
        ensures
            exists|now: i64|
                now <= LATEST_CLOCK_TIME && answered(result) == #[trigger] login_outcome(
                    self@,
                    credentials.username@,
                    check,
                    now,
                ),
            check == CredentialCheck::Matched && self@.secret is Some ==> result is Ok,
            check != CredentialCheck::Matched ==> result matches Err(Error::InvalidCredentials),
    {
        self.login_at(credentials, check, unix_now())
    }

    /// Revokes `token`, comparing its expiry time with `now`. The token
    /// must decode and must not have expired; whether it is revoked already
    /// does not matter.
    ///
    /// `now` decides the comparison that the service makes itself; the
    /// codec's own expiry check reads the system clock whatever `now` is.
    pub fn invalidate_token_at(&mut self, token: &str, now: i64) -> (result: Result<(), Error>)
        ensures
            revokes(old(self)@, token@, now as int, final(self)@, result),
    {
        let decoded = self.open_token(token);
        self.record_revocation(token, decoded, now)
    }

    /// Revokes `token` on what decoding it gave: the token is judged at the
    /// time `now` as in verification, but for the revocation check. Where
    /// it passes, it is recorded with its own expiry time; where it fails,
    /// the answer is that error and nothing changes.
    pub fn record_revocation(
        &mut self,
        token: &str,
        decoded: Result<Claims, CodecError>,
        now: i64,
    ) -> (result: Result<(), Error>)
        ensures
            match verdict(false, seen(decoded), now as int) {
                Ok(claims) => result is Ok && final(self)@ == (StateView {
                    revoked: old(self)@.revoked.insert(token@, claims.expires_at),
                    ..old(self)@
                }),
                Err(error) => result == Err::<(), Error>(error) && final(self)@ == old(self)@,
            },
    {
        match Self::judge(false, decoded, now) {
            Ok(claims) => {
                self.state.revoke(token, claims.exp());
                Ok(())
            },
            Err(error) => Err(error),
        }
    }

    /// Revokes `token` as of now, by the system clock.
    pub fn invalidate_token(&mut self, token: &str) -> (result: Result<(), Error>)
        ensures
            exists|now: i64|
                now <= LATEST_CLOCK_TIME && #[trigger] revokes(
                    old(self)@,
                    token@,
                    now as int,
                    final(self)@,
                    result,
                ),
    {
        self.invalidate_token_at(token, unix_now())
    }

    /// Drops the revoked tokens that have expired by the time `now`.
    pub fn cleanup_blacklist_at(&mut self, now: i64)
        ensures
            final(self)@ == (StateView {
                revoked: swept(old(self)@.revoked, now as int),
                ..old(self)@
            }),
    {
        self.state.sweep(now);
    }

    /// Drops the revoked tokens that have expired by now, by the system
    /// clock.
    pub fn cleanup_blacklist(&mut self)
        ensures
            exists|now: i64|
                now <= LATEST_CLOCK_TIME && final(self)@ == (StateView {
                    revoked: #[trigger] swept(old(self)@.revoked, now as int),
                    ..old(self)@
                }),
    {
        self.cleanup_blacklist_at(unix_now());
    }
}

} // verus!
