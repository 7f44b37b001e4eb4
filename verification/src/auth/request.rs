use vstd::prelude::*;
use crate::auth::claims::{Claims, ClaimsView};
use crate::auth::clock::{unix_now, LATEST_CLOCK_TIME};
use crate::auth::error::{
    invalid_authorization_format, missing_authorization, response_to, Error, Response,
    ResponseView,
};
use crate::auth::messages::{CredentialCheck, LoginRequest, LoginResponse, LogoutResponse};
use crate::auth::session::{
    login_outcome, revokes, seen, verifies, LoginResponseView, Session,
};
use crate::state::revocation::swept;
use crate::state::StateView;
use crate::text::starts_with;

verus! {

/// The word that names the scheme in an authorization header, with the
/// space that follows it.
pub open spec fn bearer_prefix() -> Seq<char> {
    "Bearer "@
}

/// The token that an authorization header presents, or the answer that
/// refuses the request: the header must be there and must start with the
/// scheme; what follows the scheme is the token.
pub open spec fn presented(authorization: Option<Seq<char>>) -> Result<Seq<char>, ResponseView> {
    match authorization {
        None => Err(missing_authorization()),
        Some(header) => if bearer_prefix().is_prefix_of(header) {
            Ok(header.skip(bearer_prefix().len() as int))
        } else {
            Err(invalid_authorization_format())
        },
    }
}

/// An optional header, seen as mathematics.
pub open spec fn header_text(authorization: Option<&str>) -> Option<Seq<char>> {
    match authorization {
        Some(header) => Some(header@),
        None => None,
    }
}

/// Takes the bearer token out of an authorization header. `None` stands
/// for a request without the header.
pub fn bearer_token<'a>(authorization: Option<&'a str>) -> (token: Result<&'a str, Response>)
    ensures
        match presented(header_text(authorization)) {
            Ok(text) => token matches Ok(found) && found@ == text,
            Err(refusal) => token matches Err(response) && response@ == refusal,
        },
{
    let header = match authorization {
        Some(header) => header,
        None => {
            return Err(
                Response {
                    status: 401,
                    error: "Missing authorization header".to_owned(),
                    code: None,
                },
            );
        },
    };
    if !starts_with(header, "Bearer ") {
        return Err(
            Response {
                status: 401,
                error: "Invalid authorization header format".to_owned(),
                code: None,
            },
        );
    }
    let skipped = "Bearer ".unicode_len();
    Ok(header.substring_char(skipped, header.unicode_len()))
}

/// What the guard answers, seen as mathematics.
pub open spec fn guarded(result: Result<(String, Claims), Response>) -> Result<
    (Seq<char>, ClaimsView),
    ResponseView,
> {
    match result {
        Ok((token, claims)) => Ok((token@, claims@)),
        Err(response) => Err(response@),
    }
}

/// `result` is an answer that the guard can give at time `now` in `state`
/// to a request with this authorization header: the refusal of the header,
/// or else what verifying the token gives, an error turned into its
/// response.
pub open spec fn admits(
    state: StateView,
    authorization: Option<Seq<char>>,
    now: int,
    result: Result<(Seq<char>, ClaimsView), ResponseView>,
) -> bool {
    match presented(authorization) {
        Err(refusal) => result == Err::<(Seq<char>, ClaimsView), ResponseView>(refusal),
        Ok(token) => exists|verified: Result<ClaimsView, Error>| #[trigger]
            verifies(state, token, now, verified) && result == match verified {
                Ok(claims) => Ok((token, claims)),
                Err(error) => Err(response_to(error)),
            },
    }
}

impl Session {
    /// Decides on a request from its authorization header: the token and
    /// the claims it carries, or the response that refuses the request.
    ///
    /// `now` is the time with which the service compares the expiry time of
    /// the token; the codec's own expiry check reads the system clock
    /// whatever `now` is.
    pub fn decode_token_at(&self, authorization: Option<&str>, now: i64) -> (result: Result<
        (String, Claims),
        Response,
    >)
        ensures
            admits(self@, header_text(authorization), now as int, guarded(result)),
    {
        let token = match bearer_token(authorization) {
            Ok(token) => token,
            Err(refusal) => { return Err(refusal); },
        };
        let verified = self.verify_token_at(token, now);
        match verified {
            Ok(claims) => Ok((token.to_owned(), claims)),
            Err(error) => Err(Response::from(error)),
        }
    }

    /// Decides on a request as of now, by the system clock.
    pub fn decode_token(&self, authorization: Option<&str>) -> (result: Result<
        (String, Claims),
        Response,
    >)
        ensures
            exists|now: i64|
                now <= LATEST_CLOCK_TIME && #[trigger] admits(
                    self@,
                    header_text(authorization),
                    now as int,
                    guarded(result),
                ),
    {
        self.decode_token_at(authorization, unix_now())
    }
}

/// The answer to a login request, seen as mathematics.
pub open spec fn login_answer(result: Result<LoginResponse, Response>) -> Result<
    LoginResponseView,
    ResponseView,
> {
    match result {
        Ok(response) => Ok(
            LoginResponseView {
                token: response.token@,
                token_type: response.token_type@,
                token_expires: response.token_expires,
            },
        ),
        Err(response) => Err(response@),
    }
}

/// The answer to a login request: what the session service answers, an
/// error turned into its response.
pub open spec fn login_reply(
    state: StateView,
    username: Seq<char>,
    check: CredentialCheck,
    now: i64,
) -> Result<LoginResponseView, ResponseView> {
    match login_outcome(state, username, check, now) {
        Ok(response) => Ok(response),
        Err(error) => Err(response_to(error)),
    }
}

/// Answers a login request as of the time `now`. `check` is what the
/// credential store said of the credentials.
pub fn handle_login_at(
    session: &Session,
    login_req: LoginRequest,
    check: CredentialCheck,
    now: i64,
) -> (result: Result<LoginResponse, Response>)
    ensures
        login_answer(result) == login_reply(session@, login_req.username@, check, now),
{
    let answer = session.login_at(login_req, check, now);
    match answer {
        Ok(response) => Ok(response),
        Err(error) => Err(Response::from(error)),
    }
}

/// Answers a login request as of now, by the system clock.
pub fn handle_login(session: &Session, login_req: LoginRequest, check: CredentialCheck) -> (result:
    Result<LoginResponse, Response>)
    ensures
        exists|now: i64|
            now <= LATEST_CLOCK_TIME && login_answer(result) == #[trigger] login_reply(
                session@,
                login_req.username@,
                check,
                now,
            ),
        check == CredentialCheck::Matched && session@.secret is Some ==> result is Ok,
        check != CredentialCheck::Matched ==> login_answer(result) == Err::<
            LoginResponseView,
            ResponseView,
        >(response_to(Error::InvalidCredentials)),
{
    handle_login_at(session, login_req, check, unix_now())
}

/// What a successful logout says.
pub open spec fn logged_out() -> Seq<char> {
    "Successfully logged out"@
}

/// The answer to a logout request, seen as mathematics.
pub open spec fn logout_answer(result: Result<LogoutResponse, Response>) -> Result<
    Seq<char>,
    ResponseView,
> {
    match result {
        Ok(response) => Ok(response.message@),
        Err(response) => Err(response@),
    }
}

/// `after` and `result` are what revoking `token` and then sweeping the
/// store, both at time `now`, can leave of `before`. Where the revocation
/// refuses, the answer is its error and nothing changes.
pub open spec fn revokes_and_sweeps(
    before: StateView,
    token: Seq<char>,
    now: int,
    after: StateView,
    result: Result<Seq<char>, ResponseView>,
) -> bool {
    exists|revoked: StateView, revocation: Result<(), Error>| #[trigger]
        revokes(before, token, now, revoked, revocation) && match revocation {
            Err(error) => result == Err::<Seq<char>, ResponseView>(response_to(error)) && after
                == before,
            Ok(_) => result == Ok::<Seq<char>, ResponseView>(logged_out()) && after == (StateView {
                revoked: swept(revoked.revoked, now),
                ..revoked
            }),
        }
}

/// `after` and `result` are what a logout request at time `now` can leave
/// of `before`. The request passes the guard, then its token is revoked,
/// then the store is swept. Where the guard refuses, the answer is that
/// refusal and nothing changes.
pub open spec fn logs_out(
    before: StateView,
    authorization: Option<Seq<char>>,
    now: int,
    after: StateView,
    result: Result<Seq<char>, ResponseView>,
) -> bool {
    exists|admitted: Result<(Seq<char>, ClaimsView), ResponseView>| #[trigger]
        admits(before, authorization, now, admitted) && match admitted {
            Err(refusal) => result == Err::<Seq<char>, ResponseView>(refusal) && after == before,
            Ok((token, _)) => revokes_and_sweeps(before, token, now, after, result),
        }
}

/// Answers a logout request from its authorization header.
///
/// `now` is the time with which the service compares the expiry time of the
/// token, and the time of the sweep; the codec's own expiry check reads the
/// system clock whatever `now` is.
pub fn handle_logout_at(session: &mut Session, authorization: Option<&str>, now: i64) -> (result:
    Result<LogoutResponse, Response>)
    ensures
        logs_out(
            old(session)@,
            header_text(authorization),
            now as int,
            final(session)@,
            logout_answer(result),
        ),
{
    let admitted = session.decode_token_at(authorization, now);
    let token = match admitted {
        Ok((token, _)) => token,
        Err(refusal) => { return Err(refusal); },
    };
    let revocation = session.invalidate_token_at(token.as_str(), now);
    let result = match revocation {
        Ok(_) => {
            session.cleanup_blacklist_at(now);
            Ok(LogoutResponse { message: "Successfully logged out".to_owned() })
        },
        Err(error) => Err(Response::from(error)),
    };
    assert(revokes_and_sweeps(
        old(session)@,
        token@,
        now as int,
        session@,
        logout_answer(result),
    ));
    result
}

/// Answers a logout request as of now, by the system clock.
pub fn handle_logout(session: &mut Session, authorization: Option<&str>) -> (result: Result<
    LogoutResponse,
    Response,
>)
    ensures
        exists|now: i64|
            now <= LATEST_CLOCK_TIME && #[trigger] logs_out(
                old(session)@,
                header_text(authorization),
                now as int,
                final(session)@,
                logout_answer(result),
            ),
{
    handle_logout_at(session, authorization, unix_now())
}

/// The decision on a protected request, seen as mathematics.
pub open spec fn decision(result: Result<Claims, Response>) -> Result<ClaimsView, ResponseView> {
    match result {
        Ok(claims) => Ok(claims@),
        Err(response) => Err(response@),
    }
}

/// `result` is a decision that a protected request can get: the claims of
/// the token that passes the guard, for the handler to see, or the response
/// that is sent in place of the handler's.
pub open spec fn lets_through(
    state: StateView,
    authorization: Option<Seq<char>>,
    now: int,
    result: Result<ClaimsView, ResponseView>,
) -> bool {
    exists|admitted: Result<(Seq<char>, ClaimsView), ResponseView>| #[trigger]
        admits(state, authorization, now, admitted) && result == match admitted {
            Ok((_, claims)) => Ok(claims),
            Err(refusal) => Err(refusal),
        }
}

/// Decides on a protected request before its handler runs.
///
/// `now` is the time with which the service compares the expiry time of the
/// token; the codec's own expiry check reads the system clock whatever `now`
/// is.
pub fn middleware_at(session: &Session, authorization: Option<&str>, now: i64) -> (result: Result<
    Claims,
    Response,
>)
    ensures
        lets_through(session@, header_text(authorization), now as int, decision(result)),
{
    let admitted = session.decode_token_at(authorization, now);
    match admitted {
        Ok((_, claims)) => Ok(claims),
        Err(refusal) => Err(refusal),
    }
}

/// Decides on a protected request as of now, by the system clock.
pub fn middleware(session: &Session, authorization: Option<&str>) -> (result: Result<
    Claims,
    Response,
>)
    ensures
        exists|now: i64|
            now <= LATEST_CLOCK_TIME && #[trigger] lets_through(
                session@,
                header_text(authorization),
                now as int,
                decision(result),
            ),
{
    middleware_at(session, authorization, unix_now())
}

} // verus!
