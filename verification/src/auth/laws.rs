//! What holds of the session service as a whole, proved from the contracts
//! of its parts.

use vstd::prelude::*;
use crate::auth::claims::ClaimsView;
use crate::auth::codec::{complete, separators, signed_token, token_payload, CodecError};
use crate::auth::error::{Error, ResponseView};
use crate::auth::messages::CredentialCheck;
use crate::auth::request::{logs_out, presented};
use crate::auth::session::{
    decodable, issuance, login_outcome, revokes, verdict, verifies, LoginResponseView,
    TOKEN_TTL_SECONDS,
};
use crate::state::revocation::swept;
use crate::state::StateView;

verus! {

/// Two decodings of one token under one secret that both succeed give the
/// same claims.
pub proof fn law_decoding_agrees(
    secret: Option<Seq<char>>,
    token: Seq<char>,
    first: ClaimsView,
    second: ClaimsView,
)
    requires
        decodable(secret, token, Ok(first)),
        decodable(secret, token, Ok(second)),
    ensures
        first == second,
{
}

/// Where decoding accepts the token that signing some claims gave, under the
/// secret it was signed with, it gives those claims back.
pub proof fn law_round_trip(key: Seq<char>, claims: ClaimsView, found: ClaimsView)
    requires
        decodable(Some(key), signed_token(claims, key), Ok(found)),
    ensures
        found == claims,
{
}

/// A token that the service issued is never accepted with other claims
/// than those it was issued with: the user it was issued to, the time of
/// issue and the expiry time that was returned with it. And it is accepted
/// only before that expiry time.
pub proof fn law_issued_token_carries_its_claims(
    state: StateView,
    user_id: Seq<char>,
    issued_at: i64,
    token: Seq<char>,
    expires_at: i64,
    now: int,
    found: ClaimsView,
)
    requires
        issuance(state, user_id, issued_at) == Ok::<(Seq<char>, i64), Error>((token, expires_at)),
        verifies(state, token, now, Ok(found)),
    ensures
        found == (ClaimsView { subject: user_id, expires_at, issued_at }),
        now < expires_at,
{
}

/// Where the decoding accepts a token that the service issued and that is
/// not revoked, verification gives its claims back at every time before its
/// expiry time, and `TokenExpired` at that time and at every time after it.
pub proof fn law_issued_token_lives_until_expiry(
    state: StateView,
    user_id: Seq<char>,
    issued_at: i64,
    token: Seq<char>,
    expires_at: i64,
    decoded: Result<ClaimsView, CodecError>,
    now: int,
)
    requires
        issuance(state, user_id, issued_at) == Ok::<(Seq<char>, i64), Error>((token, expires_at)),
        decodable(state.secret, token, decoded),
        decoded is Ok,
    ensures
        now < expires_at ==> verdict(false, decoded, now) == Ok::<ClaimsView, Error>(
            ClaimsView { subject: user_id, expires_at, issued_at },
        ),
        now >= expires_at ==> verdict(false, decoded, now) == Err::<ClaimsView, Error>(
            Error::TokenExpired,
        ),
{
}

/// With a secret set, a token that is not revoked is refused with
/// `InvalidTokenFormat` exactly where it has fewer than two separators,
/// at every time.
pub proof fn law_malformed_is_invalid_format(
    state: StateView,
    token: Seq<char>,
    now: int,
    result: Result<ClaimsView, Error>,
)
    requires
        state.secret is Some,
        !state.revoked.contains_key(token),
        verifies(state, token, now, result),
    ensures
        result == Err::<ClaimsView, Error>(Error::InvalidTokenFormat) <==> separators(token) < 2,
{
}

/// A token that the service issues carries claims for the user it was
/// issued to, and these expire after they were issued, one validity window
/// later.
pub proof fn law_issued_window(
    state: StateView,
    user_id: Seq<char>,
    now: i64,
    token: Seq<char>,
    expires_at: i64,
)
    requires
        issuance(state, user_id, now) == Ok::<(Seq<char>, i64), Error>((token, expires_at)),
    ensures
        state.secret matches Some(key) && token == signed_token(
            ClaimsView { subject: user_id, expires_at, issued_at: now },
            key,
        ),
        expires_at == now + TOKEN_TTL_SECONDS,
        expires_at > now,
{
}

/// A token is never accepted with other claims than those its payload
/// holds under the secret of the service.
pub proof fn law_accepted_claims_are_carried(
    state: StateView,
    token: Seq<char>,
    now: int,
    claims: ClaimsView,
)
    requires
        verifies(state, token, now, Ok(claims)),
    ensures
        state.secret matches Some(key) && complete(token_payload(token, key)) == Some(claims),
        !state.revoked.contains_key(token),
        now < claims.expires_at,
{
}

/// A service without a secret accepts no token: one that is not revoked is
/// refused with `TokenValidation`.
pub proof fn law_no_secret_no_acceptance(
    state: StateView,
    token: Seq<char>,
    now: int,
    result: Result<ClaimsView, Error>,
)
    requires
        state.secret is None,
        verifies(state, token, now, result),
    ensures
        result == Err::<ClaimsView, Error>(
            if state.revoked.contains_key(token) {
                Error::TokenRevoked
            } else {
                Error::TokenValidation
            },
        ),
{
}

/// A token that is not revoked and decodes to claims that expire at `t` is
/// accepted at every time before `t` and refused as expired at `t` and at
/// every time after it.
pub proof fn law_expiry_monotonic(claims: ClaimsView, now: int)
    ensures
        now < claims.expires_at ==> verdict(false, Ok(claims), now) == Ok::<ClaimsView, Error>(
            claims,
        ),
        now >= claims.expires_at ==> verdict(false, Ok(claims), now) == Err::<ClaimsView, Error>(
            Error::TokenExpired,
        ),
{
}

/// Time does not bring a token back: a token that is refused at one time,
/// revoked or not, is refused at every later time, given the same outcome
/// of the decoding.
pub proof fn law_refusal_is_final(
    revoked: bool,
    decoded: Result<ClaimsView, CodecError>,
    now: int,
    later: int,
)
    requires
        now <= later,
        verdict(revoked, decoded, now) is Err,
    ensures
        verdict(revoked, decoded, later) is Err,
{
}

/// From its expiry time on, a token whose payload holds `claims` is never
/// accepted, whatever the decoding says. Where the token is not revoked and
/// the decoding accepts it or finds it expired itself, the answer is
/// `TokenExpired`.
pub proof fn law_expired_is_refused(
    state: StateView,
    token: Seq<char>,
    claims: ClaimsView,
    now: int,
    result: Result<ClaimsView, Error>,
)
    requires
        state.secret matches Some(key) && complete(token_payload(token, key)) == Some(claims),
        claims.expires_at <= now,
        verifies(state, token, now, result),
    ensures
        result is Err,
        verdict(false, Ok(claims), now) == Err::<ClaimsView, Error>(Error::TokenExpired),
        verdict(false, Err(CodecError::Expired), now) == Err::<ClaimsView, Error>(
            Error::TokenExpired,
        ),
{
}

/// A revoked token is refused as revoked at every time and whatever the
/// decoding says, also while it has not expired.
pub proof fn law_revocation_precedence(
    state: StateView,
    token: Seq<char>,
    now: int,
    result: Result<ClaimsView, Error>,
)
    requires
        state.revoked.contains_key(token),
        verifies(state, token, now, result),
    ensures
        result == Err::<ClaimsView, Error>(Error::TokenRevoked),
{
}

/// Once a revocation of a token has succeeded, every verification of that
/// token in the state it left is refused with `TokenRevoked`.
pub proof fn law_revoked_after_revocation(
    before: StateView,
    token: Seq<char>,
    revoked_at: int,
    after: StateView,
    now: int,
    result: Result<ClaimsView, Error>,
)
    requires
        revokes(before, token, revoked_at, after, Ok(())),
        verifies(after, token, now, result),
    ensures
        result == Err::<ClaimsView, Error>(Error::TokenRevoked),
{
}

/// After a logout that succeeded, the token of the request is in the store
/// and every verification of it in that state is refused with
/// `TokenRevoked`: the sweep that ends the logout does not take it out
/// again.
pub proof fn law_logout_revokes(
    before: StateView,
    header: Seq<char>,
    logout_at: int,
    after: StateView,
    message: Seq<char>,
    now: int,
    result: Result<ClaimsView, Error>,
)
    requires
        logs_out(before, Some(header), logout_at, after, Ok(message)),
        presented(Some(header)) matches Ok(token) && verifies(after, token, now, result),
    ensures
        presented(Some(header)) matches Ok(token) && after.revoked.contains_key(token),
        result == Err::<ClaimsView, Error>(Error::TokenRevoked),
{
}

/// Revoking a token a second time changes nothing and is never refused on
/// the ground that the token is revoked already. So the answers of later
/// verifications are the same after one revocation and after two.
pub proof fn law_revocation_idempotent(
    before: StateView,
    token: Seq<char>,
    first_at: int,
    once: StateView,
    second_at: int,
    twice: StateView,
    second: Result<(), Error>,
)
    requires
        revokes(before, token, first_at, once, Ok(())),
        revokes(once, token, second_at, twice, second),
    ensures
        twice == once,
        second != Err::<(), Error>(Error::TokenRevoked),
        forall|now: int, result: Result<ClaimsView, Error>|
            verifies(twice, token, now, result) <==> verifies(once, token, now, result),
{
    assert(twice.revoked =~= once.revoked);
}

/// Where the decoding accepts a revoked token again and the token has not
/// expired, revoking it once more is judged a success and records what the
/// store holds already.
pub proof fn law_repeated_revocation_succeeds(
    state: StateView,
    token: Seq<char>,
    claims: ClaimsView,
    now: int,
)
    requires
        coherent(state),
        state.revoked.contains_key(token),
        decodable(state.secret, token, Ok(claims)),
        now < claims.expires_at,
    ensures
        verdict(false, Ok(claims), now) == Ok::<ClaimsView, Error>(claims),
        state.revoked.insert(token, claims.expires_at) == state.revoked,
        revokes(state, token, now, state, Ok(())),
{
    assert(state.revoked.insert(token, claims.expires_at) =~= state.revoked);
}

/// A revocation or a logout that is refused leaves the state as it was.
pub proof fn law_refusal_changes_nothing(
    before: StateView,
    token: Seq<char>,
    authorization: Option<Seq<char>>,
    now: int,
    after: StateView,
    error: Error,
    refusal: ResponseView,
)
    ensures
        revokes(before, token, now, after, Err(error)) ==> after == before,
        logs_out(before, authorization, now, after, Err(refusal)) ==> after == before,
{
}

/// A sweep keeps exactly the entries that expire after the time of the
/// sweep, each with its expiry time: no entry outlives its token.
pub proof fn law_sweep_keeps_the_living(entries: Map<Seq<char>, i64>, now: int, token: Seq<char>)
    ensures
        swept(entries, now).contains_key(token) <==> entries.contains_key(token) && entries[token]
            > now,
        swept(entries, now).contains_key(token) ==> swept(entries, now)[token] == entries[token],
{
}

/// Every entry of the store belongs to a token that decodes under the
/// secret of the service, and holds the expiry time of that token.
pub open spec fn coherent(state: StateView) -> bool {
    forall|token: Seq<char>| #[trigger]
        state.revoked.contains_key(token) ==> {
            &&& state.secret matches Some(key)
            &&& complete(token_payload(token, key)) matches Some(claims)
            &&& claims.expires_at == state.revoked[token]
        }
}

/// A state in which nothing is revoked is coherent.
pub proof fn law_fresh_state_is_coherent(secret: Option<Seq<char>>)
    ensures
        coherent(StateView { secret, revoked: Map::empty() }),
{
}

/// A revocation leaves a coherent state coherent, whether it succeeds or
/// not.
pub proof fn law_revocation_keeps_coherence(
    before: StateView,
    token: Seq<char>,
    now: int,
    after: StateView,
    result: Result<(), Error>,
)
    requires
        coherent(before),
        revokes(before, token, now, after, result),
    ensures
        coherent(after),
{
}

/// A sweep leaves a coherent state coherent.
pub proof fn law_sweep_keeps_coherence(state: StateView, now: int)
    requires
        coherent(state),
    ensures
        coherent(StateView { revoked: swept(state.revoked, now), ..state }),
{
}

/// A logout leaves a coherent state coherent, whether it succeeds or not.
pub proof fn law_logout_keeps_coherence(
    before: StateView,
    authorization: Option<Seq<char>>,
    now: int,
    after: StateView,
    result: Result<Seq<char>, ResponseView>,
)
    requires
        coherent(before),
        logs_out(before, authorization, now, after, result),
    ensures
        coherent(after),
{
}

/// A sweep does not let a token in again. In a coherent state, an entry
/// that the sweep at time `now` removes belongs to a token that has expired
/// by then: before the sweep that token is refused as revoked, and at every
/// time from `now` on it is still refused, as expired where the decoding
/// accepts it or finds it expired itself.
pub proof fn law_sweep_safety(
    state: StateView,
    token: Seq<char>,
    now: int,
    later: int,
    decoded: Result<ClaimsView, CodecError>,
    result: Result<ClaimsView, Error>,
)
    requires
        coherent(state),
        state.revoked.contains_key(token),
        state.revoked[token] <= now <= later,
        decodable(state.secret, token, decoded),
        verifies(StateView { revoked: swept(state.revoked, now), ..state }, token, later, result),
    ensures
        !swept(state.revoked, now).contains_key(token),
        verdict(true, decoded, later) == Err::<ClaimsView, Error>(Error::TokenRevoked),
        verdict(false, decoded, later) is Err,
        decoded is Ok || decoded == Err::<ClaimsView, CodecError>(CodecError::Expired) ==> verdict(
            false,
            decoded,
            later,
        ) == Err::<ClaimsView, Error>(Error::TokenExpired),
        result is Err,
        result != Err::<ClaimsView, Error>(Error::TokenRevoked),
{
}

/// A login is answered with `InvalidCredentials` both where the password is
/// wrong and where the user is unknown: the two answers are the same,
/// whoever asks and whenever.
pub proof fn law_login_gives_no_signal(
    state: StateView,
    known: Seq<char>,
    unknown: Seq<char>,
    first_at: i64,
    second_at: i64,
)
    ensures
        login_outcome(state, known, CredentialCheck::Mismatched, first_at) == login_outcome(
            state,
            unknown,
            CredentialCheck::NotFound,
            second_at,
        ),
        login_outcome(state, known, CredentialCheck::Mismatched, first_at) == Err::<
            LoginResponseView,
            Error,
        >(Error::InvalidCredentials),
{
}

/// With a secret set and an expiry time that fits, issuing succeeds, and a
/// login with matching credentials is answered with the issued token,
/// presented as a bearer token that expires one validity window after the
/// login.
pub proof fn law_issuing_succeeds(state: StateView, key: Seq<char>, user_id: Seq<char>, now: i64)
    requires
        state.secret == Some(key),
        now + TOKEN_TTL_SECONDS <= i64::MAX,
    ensures
        ({
            let expires_at = (now + TOKEN_TTL_SECONDS) as i64;
            let token = signed_token(
                ClaimsView { subject: user_id, expires_at, issued_at: now },
                key,
            );
            &&& issuance(state, user_id, now) == Ok::<(Seq<char>, i64), Error>(
                (token, expires_at),
            )
            &&& login_outcome(state, user_id, CredentialCheck::Matched, now) == Ok::<
                LoginResponseView,
                Error,
            >(LoginResponseView { token, token_type: "Bearer"@, token_expires: expires_at })
        }),
{
}

/// Without a secret, or where the expiry time does not fit, issuing is
/// refused with `TokenCreation`, and so is a login with matching
/// credentials.
pub proof fn law_issuing_needs_a_secret_and_room(state: StateView, user_id: Seq<char>, now: i64)
    requires
        state.secret is None || now + TOKEN_TTL_SECONDS > i64::MAX,
    ensures
        issuance(state, user_id, now) == Err::<(Seq<char>, i64), Error>(Error::TokenCreation),
        login_outcome(state, user_id, CredentialCheck::Matched, now) == Err::<
            LoginResponseView,
            Error,
        >(Error::TokenCreation),
{
}

} // verus!
