use vstd::prelude::*;

verus! {

/// What a [`Claims`] value states, as mathematics.
pub ghost struct ClaimsView {
    /// The identity the token was issued to.
    pub subject: Seq<char>,
    /// Unix time, in seconds, from which the token is no longer valid.
    pub expires_at: i64,
    /// Unix time, in seconds, at which the token was issued.
    pub issued_at: i64,
}

/// The payload of a token: an identity and the window in which it is valid.
///
/// A plain value: nothing is checked when one is built. Whether a token is
/// still alive is decided where it is verified.
#[derive(Debug)]
pub struct Claims {
    sub: String,
    exp: i64,
    iat: i64,
}

impl View for Claims {
    type V = ClaimsView;

    closed spec fn view(&self) -> ClaimsView {
        ClaimsView { subject: self.sub@, expires_at: self.exp, issued_at: self.iat }
    }
}

impl Claims {
    /// Claims for `sub`, valid from `iat` until `exp`.
    pub fn new(sub: String, exp: i64, iat: i64) -> (claims: Self)
        ensures
            claims@ == (ClaimsView { subject: sub@, expires_at: exp, issued_at: iat }),
    {
        Self { sub, exp, iat }
    }

    /// The subject: the identity the token stands for.
    pub fn sub(&self) -> (subject: &str)
        ensures
            subject@ == self@.subject,
    {
        self.sub.as_str()
    }

    /// The expiry time, in seconds since the epoch.
    pub fn exp(&self) -> (expires_at: i64)
        ensures
            expires_at == self@.expires_at,
    {
        self.exp
    }

    /// The time of issue, in seconds since the epoch.
    pub fn iat(&self) -> (issued_at: i64)
        ensures
            issued_at == self@.issued_at,
    {
        self.iat
    }
}

impl Clone for Claims {
    fn clone(&self) -> (copy: Self)
        ensures
            copy@ == self@,
    {
        Self { sub: self.sub.clone(), exp: self.exp, iat: self.iat }
    }
}

} // verus!
