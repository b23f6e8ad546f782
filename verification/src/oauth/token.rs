//! Access and refresh tokens.

use vstd::prelude::*;
use vstd::string::*;

use crate::clock::{current_time, nanos_per_second, seconds_left, seconds_of, time_bound};
use crate::oauth::code::{expiration_in_range, expiry, lifetime_bound};
use crate::oauth::scope::Scope;
use crate::oauth::session::{Session, SessionView};

verus! {

/// Something that expires at a given time (in nanoseconds since the epoch).
pub trait Expirable {
    /// When it expires.
    spec fn expires_at(&self) -> i128;

    /// When it expires.
    fn expiration(&self) -> (r: i128)
        ensures
            r == self.expires_at(),
    ;

    /// Whole seconds left until it expires, from now, rounded toward zero:
    /// those left from some time that the clock can show.
    fn expires_in(&self) -> (r: i64)
        requires
            expiration_in_range(self.expires_at()),
        ensures
            exists|now: int| 0 <= now < time_bound() && r == #[trigger] seconds_left(self.expires_at() as int, now),
    ;

    /// Whether it has expired now: true only of an expiration before some
    /// time that can be now, false only of one at or after the epoch.
    fn is_expired(&self) -> (r: bool)
        ensures
            r ==> self.expires_at() < time_bound(),
            !r ==> self.expires_at() >= 0,
    ;
}

/// A token: a secret text that grants a session until it expires.
pub trait Token: Expirable {
    /// The secret text of the token.
    fn token(&self) -> String;
}

/// An access token: it grants a session to whoever holds it, for a short time.
#[derive(Debug)]
pub struct AccessToken {
    token_rep: Option<String>,
    session: Session,
    expiration: i128,
}

/// The abstract value of a [`AccessToken`].
pub struct AccessTokenView {
    pub token: Option<Seq<char>>,
    pub session: SessionView,
    pub expiration: i128,
}

impl View for AccessToken {
    type V = AccessTokenView;

    closed spec fn view(&self) -> AccessTokenView {
        AccessTokenView { token: self.token_rep.deep_view(), session: self.session@, expiration: self.expiration }
    }
}

impl AccessToken {
    /// A token that expires `expires_in` seconds from now (to the
    /// nanosecond): from the time the clock shows, which can be any it can
    /// show.
    pub fn new(token: String, session: Session, expires_in: i64) -> (r: AccessToken)
        requires
            -lifetime_bound() <= expires_in <= lifetime_bound(),
        ensures
            r@.token == Some(token@),
            r@.session == session@,
            exists|now: int| 0 <= now < time_bound() && #[trigger] expiry(now, expires_in as int) == r@.expiration,
    {
        let now = current_time();
        let r = AccessToken::new_at(token, session, expires_in, now);
        assert(expiry(now as int, expires_in as int) == r@.expiration);
        r
    }

    /// A token issued at time `now` that expires `expires_in` seconds later.
    pub fn new_at(token: String, session: Session, expires_in: i64, now: i128) -> (r: AccessToken)
        requires
            0 <= now < time_bound(),
            -lifetime_bound() <= expires_in <= lifetime_bound(),
        ensures
            r@.token == Some(token@),
            r@.session == session@,
            r@.expiration == expiry(now as int, expires_in as int),
    {
        AccessToken::with_expiration(Some(token), session, now + expires_in as i128 * 1_000_000_000)
    }

    /// A token that expires at the given time; without its secret text when
    /// `token` is `None` (as it is read back from storage).
    pub fn with_expiration(token: Option<String>, session: Session, expiration: i128) -> (r: AccessToken)
        ensures
            r@.token == token.deep_view(),
            r@.session == session@,
            r@.expiration == expiration,
    {
        AccessToken { token_rep: token, session, expiration }
    }

    /// The scope that the token grants.
    pub fn scope(&self) -> (r: &Scope)
        ensures
            r@ == self@.session.scope,
    {
        self.session.scope()
    }

    /// The session that the token grants.
    pub fn session(&self) -> (r: &Session)
        ensures
            r@ == self@.session,
    {
        &self.session
    }

    /// The secret text of the token; empty when it is not known.
    pub fn to_string(&self) -> (r: String)
        ensures
            r@ == match self@.token {
                Some(t) => t,
                None => Seq::<char>::empty(),
            },
    {
        match &self.token_rep {
            Some(t) => t.clone(),
            None => String::new(),
        }
    }

    /// When the token expires.
    pub fn expiration(&self) -> (r: i128)
        ensures
            r == self@.expiration,
    {
        self.expiration
    }

    /// Whether the token has expired at time `now`: its expiration is before it.
    pub fn is_expired_at(&self, now: i128) -> (r: bool)
        ensures
            r == (self@.expiration < now),
    {
        self.expiration < now
    }

    /// Whole seconds left until the token expires at time `now`, rounded
    /// toward zero.
    pub fn expires_in_at(&self, now: i128) -> (r: i64)
        requires
            0 <= now < time_bound(),
            expiration_in_range(self@.expiration),
        ensures
            r == seconds_left(self@.expiration as int, now as int),
    {
        seconds_of(self.expiration - now)
    }

    /// Whether the token has expired now.
    pub fn is_expired(&self) -> (r: bool)
        ensures
            r ==> self@.expiration < time_bound(),
            !r ==> self@.expiration >= 0,
    {
        self.is_expired_at(current_time())
    }

    /// Whole seconds left until the token expires, from now, rounded toward
    /// zero: those left from some time that the clock can show.
    pub fn expires_in(&self) -> (r: i64)
        requires
            expiration_in_range(self@.expiration),
        ensures
            exists|now: int| 0 <= now < time_bound() && r == #[trigger] seconds_left(self@.expiration as int, now),
    {
        let now = current_time();
        let r = self.expires_in_at(now);
        assert(0 <= now < time_bound() && r == seconds_left(self@.expiration as int, now as int));
        r
    }
}

impl Expirable for AccessToken {
    open spec fn expires_at(&self) -> i128 {
        self@.expiration
    }

    fn expiration(&self) -> (r: i128) {
        AccessToken::expiration(self)
    }

    fn expires_in(&self) -> (r: i64) {
        AccessToken::expires_in(self)
    }

    fn is_expired(&self) -> (r: bool) {
        AccessToken::is_expired(self)
    }
}

impl Token for AccessToken {
    fn token(&self) -> (r: String)
        ensures
            r@ == match self@.token {
                Some(t) => t,
                None => Seq::<char>::empty(),
            },
    {
        self.to_string()
    }
}

impl Clone for AccessToken {
    fn clone(&self) -> (r: AccessToken)
        ensures
            r@ == self@,
    {
        AccessToken {
            token_rep: match &self.token_rep {
                Some(t) => Some(t.clone()),
                None => None,
            },
            session: self.session.clone(),
            expiration: self.expiration,
        }
    }
}

/// A refresh token: it is traded for a new set of tokens.
#[derive(Debug)]
pub struct RefreshToken {
    token_rep: Option<String>,
    session: Session,
    expiration: i128,
}

/// The abstract value of a [`RefreshToken`].
pub struct RefreshTokenView {
    pub token: Option<Seq<char>>,
    pub session: SessionView,
    pub expiration: i128,
}

impl View for RefreshToken {
    type V = RefreshTokenView;

    closed spec fn view(&self) -> RefreshTokenView {
        RefreshTokenView { token: self.token_rep.deep_view(), session: self.session@, expiration: self.expiration }
    }
}

impl RefreshToken {
    /// A token that expires `expires_in` seconds from now (to the
    /// nanosecond): from the time the clock shows, which can be any it can
    /// show.
    pub fn new(token: String, session: Session, expires_in: i64) -> (r: RefreshToken)
        requires
            -lifetime_bound() <= expires_in <= lifetime_bound(),
        ensures
            r@.token == Some(token@),
            r@.session == session@,
            exists|now: int| 0 <= now < time_bound() && #[trigger] expiry(now, expires_in as int) == r@.expiration,
    {
        let now = current_time();
        let r = RefreshToken::new_at(token, session, expires_in, now);
        assert(expiry(now as int, expires_in as int) == r@.expiration);
        r
    }

    /// A token issued at time `now` that expires `expires_in` seconds later.
    pub fn new_at(token: String, session: Session, expires_in: i64, now: i128) -> (r: RefreshToken)
        requires
            0 <= now < time_bound(),
            -lifetime_bound() <= expires_in <= lifetime_bound(),
        ensures
            r@.token == Some(token@),
            r@.session == session@,
            r@.expiration == expiry(now as int, expires_in as int),
    {
        RefreshToken::with_expiration(Some(token), session, now + expires_in as i128 * 1_000_000_000)
    }

    /// A token that expires at the given time; without its secret text when
    /// `token` is `None` (as it is read back from storage).
    pub fn with_expiration(token: Option<String>, session: Session, expiration: i128) -> (r: RefreshToken)
        ensures
            r@.token == token.deep_view(),
            r@.session == session@,
            r@.expiration == expiration,
    {
        RefreshToken { token_rep: token, session, expiration }
    }

    /// The scope that the token grants.
    pub fn scope(&self) -> (r: &Scope)
        ensures
            r@ == self@.session.scope,
    {
        self.session.scope()
    }

    /// The session that the token grants.
    pub fn session(&self) -> (r: &Session)
        ensures
            r@ == self@.session,
    {
        &self.session
    }

    /// The secret text of the token; empty when it is not known.
    pub fn to_string(&self) -> (r: String)
        ensures
            r@ == match self@.token {
                Some(t) => t,
                None => Seq::<char>::empty(),
            },
    {
        match &self.token_rep {
            Some(t) => t.clone(),
            None => String::new(),
        }
    }

    /// When the token expires.
    pub fn expiration(&self) -> (r: i128)
        ensures
            r == self@.expiration,
    {
        self.expiration
    }

    /// Whether the token has expired at time `now`: its expiration is before it.
    pub fn is_expired_at(&self, now: i128) -> (r: bool)
        ensures
            r == (self@.expiration < now),
    {
        self.expiration < now
    }

    /// Whole seconds left until the token expires at time `now`, rounded
    /// toward zero.
    pub fn expires_in_at(&self, now: i128) -> (r: i64)
        requires
            0 <= now < time_bound(),
            expiration_in_range(self@.expiration),
        ensures
            r == seconds_left(self@.expiration as int, now as int),
    {
        seconds_of(self.expiration - now)
    }

    /// Whether the token has expired now.
    pub fn is_expired(&self) -> (r: bool)
        ensures
            r ==> self@.expiration < time_bound(),
            !r ==> self@.expiration >= 0,
    {
        self.is_expired_at(current_time())
    }

    /// Whole seconds left until the token expires, from now, rounded toward
    /// zero: those left from some time that the clock can show.
    pub fn expires_in(&self) -> (r: i64)
        requires
            expiration_in_range(self@.expiration),
        ensures
            exists|now: int| 0 <= now < time_bound() && r == #[trigger] seconds_left(self@.expiration as int, now),
    {
        let now = current_time();
        let r = self.expires_in_at(now);
        assert(0 <= now < time_bound() && r == seconds_left(self@.expiration as int, now as int));
        r
    }
}

impl Expirable for RefreshToken {
    open spec fn expires_at(&self) -> i128 {
        self@.expiration
    }

    fn expiration(&self) -> (r: i128) {
        RefreshToken::expiration(self)
    }

    fn expires_in(&self) -> (r: i64) {
        RefreshToken::expires_in(self)
    }

    fn is_expired(&self) -> (r: bool) {
        RefreshToken::is_expired(self)
    }
}

impl Token for RefreshToken {
    fn token(&self) -> (r: String)
        ensures
            r@ == match self@.token {
                Some(t) => t,
                None => Seq::<char>::empty(),
            },
    {
        self.to_string()
    }
}

impl Clone for RefreshToken {
    fn clone(&self) -> (r: RefreshToken)
        ensures
            r@ == self@,
    {
        RefreshToken {
            token_rep: match &self.token_rep {
                Some(t) => Some(t.clone()),
                None => None,
            },
            session: self.session.clone(),
            expiration: self.expiration,
        }
    }
}

} // verus!
