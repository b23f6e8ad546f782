//! Authorization codes: short-lived secrets that a client trades for tokens.

use vstd::prelude::*;
use vstd::string::*;

use crate::clock::{current_time, nanos_per_second, seconds_of, time_bound, timestamp_bound, seconds_left};
use crate::oauth::session::{Session, SessionView};

verus! {

/// A bound on the lifetimes given to codes and tokens, in seconds, that
/// keeps expirations within the dates that the clock can represent.
pub open spec fn lifetime_bound() -> int {
    10_000_000_000_000
}

/// The expiration, in nanoseconds since the epoch, of what is issued at
/// time `now` to live `expires_in` seconds.
pub open spec fn expiry(now: int, expires_in: int) -> int {
    now + expires_in * nanos_per_second()
}

/// A bound, in nanoseconds, on the expirations that codes and tokens are
/// given: a lifetime within `lifetime_bound` from a time the clock can show.
pub open spec fn expiration_bound() -> int {
    (lifetime_bound() + timestamp_bound()) * nanos_per_second()
}

/// An expiration that a lifetime within `lifetime_bound` from a time the
/// clock can show gives.
pub open spec fn expiration_in_range(expiration: i128) -> bool {
    -expiration_bound() <= expiration <= expiration_bound()
}

/// An authorization code: its secret text, the session it grants, and when
/// it expires (nanoseconds since the Unix epoch).
#[derive(Debug)]
pub struct AuthorizationCode {
    code: String,
    session: Session,
    expiration: i128,
}

/// The abstract value of an [`AuthorizationCode`].
pub struct AuthorizationCodeView {
    pub code: Seq<char>,
    pub session: SessionView,
    pub expiration: i128,
}

impl View for AuthorizationCode {
    type V = AuthorizationCodeView;

    closed spec fn view(&self) -> AuthorizationCodeView {
        AuthorizationCodeView { code: self.code@, session: self.session@, expiration: self.expiration }
    }
}

impl AuthorizationCode {
    /// A code that expires `expires_in` seconds from now (to the nanosecond):
    /// from the time the clock shows, which can be any it can show.
    pub fn new(code: String, session: Session, expires_in: i64) -> (r: AuthorizationCode)
        requires
            -lifetime_bound() <= expires_in <= lifetime_bound(),
        ensures
            r@.code == code@,
            r@.session == session@,
            exists|now: int| 0 <= now < time_bound() && #[trigger] expiry(now, expires_in as int) == r@.expiration,
    {
        let now = current_time();
        let r = AuthorizationCode::new_at(code, session, expires_in, now);
        assert(expiry(now as int, expires_in as int) == r@.expiration);
        r
    }

    /// A code issued at time `now` that expires `expires_in` seconds later.
    pub fn new_at(code: String, session: Session, expires_in: i64, now: i128) -> (r: AuthorizationCode)
        requires
            0 <= now < time_bound(),
            -lifetime_bound() <= expires_in <= lifetime_bound(),
        ensures
            r@.code == code@,
            r@.session == session@,
            r@.expiration == expiry(now as int, expires_in as int),
    {
        AuthorizationCode::with_expiration(code, session, now + expires_in as i128 * 1_000_000_000)
    }

    /// A code that expires at the given time.
    pub fn with_expiration(code: String, session: Session, expiration: i128) -> (r: AuthorizationCode)
        ensures
            r@.code == code@,
            r@.session == session@,
            r@.expiration == expiration,
    {
        AuthorizationCode { code, session, expiration }
    }

    /// The session that the code grants.
    pub fn session(&self) -> (r: &Session)
        ensures
            r@ == self@.session,
    {
        &self.session
    }

    /// The secret text of the code.
    pub fn to_string(&self) -> (r: String)
        ensures
            r@ == self@.code,
    {
        self.code.clone()
    }

    /// When the code expires.
    pub fn expiration(&self) -> (r: i128)
        ensures
            r == self@.expiration,
    {
        self.expiration
    }

    /// Whether the code has expired at time `now`: its expiration is before it.
    pub fn is_expired_at(&self, now: i128) -> (r: bool)
        ensures
            r == (self@.expiration < now),
    {
        self.expiration < now
    }

    /// Whole seconds left until the code expires at time `now`, rounded
    /// toward zero.
    pub fn expires_in_at(&self, now: i128) -> (r: i64)
        requires
            0 <= now < time_bound(),
            expiration_in_range(self@.expiration),
        ensures
            r == seconds_left(self@.expiration as int, now as int),
    {
        seconds_of(self.expiration - now)
    }

    /// Whether the code has expired now.
    pub fn is_expired(&self) -> (r: bool)
        ensures
            r ==> self@.expiration < time_bound(),
            !r ==> self@.expiration >= 0,
    {
        self.is_expired_at(current_time())
    }
}

impl Clone for AuthorizationCode {
    fn clone(&self) -> (r: AuthorizationCode)
        ensures
            r@ == self@,
    {
        AuthorizationCode { code: self.code.clone(), session: self.session.clone(), expiration: self.expiration }
    }
}

/// What is issued at time `issued_at` to live `lifetime` seconds (no
/// fewer than none) has not expired at any time from its issue until its
/// lifetime has passed, and has expired at every later time; it has whole
/// seconds left, rounded toward zero, from its lifetime at issue down to
/// none as the lifetime passes.
pub proof fn lemma_issued_lifetime(issued_at: int, lifetime: int, t: int)
    requires
        0 <= lifetime,
        issued_at <= t,
    ensures
        !(expiry(issued_at, lifetime) < issued_at),
        (expiry(issued_at, lifetime) < t) <==> t > issued_at + lifetime * nanos_per_second(),
        seconds_left(expiry(issued_at, lifetime), issued_at) == lifetime,
        seconds_left(expiry(issued_at, lifetime), t) <= lifetime,
{
    assert((lifetime * 1_000_000_000) / 1_000_000_000 == lifetime) by (nonlinear_arith);
    let span = expiry(issued_at, lifetime) - t;
    if span >= 0 {
        assert(span / 1_000_000_000 <= lifetime) by (nonlinear_arith)
            requires
                0 <= span <= lifetime * 1_000_000_000,
        ;
    }
}

} // verus!
