//! The cached credential of the rule engine: a bearer token with the moment
//! at which it expires.

use vstd::prelude::*;
use vstd::string::*;
use crate::hypernative::{login_outcome, spec_login_outcome, ApiError, HttpReply};

verus! {

/// Every reading of the clock lies less than this many milliseconds from
/// the Unix epoch, before it or after it: it is the length of 2^31 days.
pub const CLOCK_LIMIT_MILLIS: i64 = 185_542_587_187_200_000;

/// Reads the system clock with `std::time::SystemTime::now`, turns the
/// moment into chrono's `DateTime<Utc>` by its `From<SystemTime>`, and gives
/// it as milliseconds since the Unix epoch, as `DateTime::timestamp_millis`
/// counts them. A clock that stands before the epoch is taken as well as one
/// after it, and gives a negative reading. Every `DateTime` lies between
/// the years -262143 and 262142, which is less than 2^31 days from the
/// epoch on either side, and so does every reading; chrono's conversion
/// gives no `DateTime` for a clock set outside those years. Nothing else is
/// promised: two readings may differ in any way.
#[verifier::external_body]
pub(crate) fn now_millis() -> (now: i64)
    ensures
        -CLOCK_LIMIT_MILLIS <= now < CLOCK_LIMIT_MILLIS,
{
    chrono::DateTime::<chrono::Utc>::from(std::time::SystemTime::now()).timestamp_millis()
}

/// What a credential holds, as mathematical values. Moments are milliseconds
/// since the Unix epoch.
pub struct CredentialView {
    pub token: Seq<char>,
    pub lifespan_in_seconds: int,
    pub expires_at: int,
}

impl CredentialView {
    /// The credential no longer holds at the moment `now`.
    pub open spec fn expired_at(self, now: int) -> bool {
        now > self.expires_at
    }

    /// The credential after a login at the moment `now` gave `token`: it
    /// holds for its lifespan from that moment on.
    pub open spec fn refreshed_at(self, token: Seq<char>, now: int) -> CredentialView {
        CredentialView {
            token: token,
            lifespan_in_seconds: self.lifespan_in_seconds,
            expires_at: now + self.lifespan_in_seconds * 1000,
        }
    }

    /// The credential made at the moment `now`: no token yet, and expired
    /// since one second.
    pub open spec fn created_at(lifespan_in_seconds: int, now: int) -> CredentialView {
        CredentialView {
            token: Seq::<char>::empty(),
            lifespan_in_seconds: lifespan_in_seconds,
            expires_at: now - 1000,
        }
    }

    /// The value of the `Authorization` header for this credential.
    pub open spec fn authorization(self) -> Seq<char> {
        "Bearer "@ + self.token
    }
}

/// The credential after the reply to a login arrived at the moment `now`,
/// and what the login came to: a reply that gives a token renews the
/// credential; any other reply is an error and changes nothing.
pub open spec fn spec_take_login(credential: CredentialView, reply: HttpReply, now: int) -> (
    Result<(), ApiError>,
    CredentialView,
) {
    match spec_login_outcome(reply) {
        Ok(token) => (Ok(()), credential.refreshed_at(token@, now)),
        Err(error) => (Err(error), credential),
    }
}

/// Whether a reading of the clock can be `now`.
pub open spec fn clock_reading(now: int) -> bool {
    -CLOCK_LIMIT_MILLIS <= now < CLOCK_LIMIT_MILLIS
}

/// The bearer credential of the rule engine. It is made expired, so that the
/// first use logs in, and each login renews it for its lifespan.
#[derive(Debug)]
pub struct AccessToken {
    token: String,
    lifespan_in_seconds: i64,
    expires_at: i128,
}

impl View for AccessToken {
    type V = CredentialView;

    closed spec fn view(&self) -> CredentialView {
        CredentialView {
            token: self.token@,
            lifespan_in_seconds: self.lifespan_in_seconds as int,
            expires_at: self.expires_at as int,
        }
    }
}

impl AccessToken {
    /// A credential made at the moment `now`.
    pub fn new_at(lifespan_in_seconds: i64, now: i64) -> (r: Self)
        ensures
            r@ == CredentialView::created_at(lifespan_in_seconds as int, now as int),
    {
        AccessToken { token: String::new(), lifespan_in_seconds, expires_at: now as i128 - 1000 }
    }

    /// A credential made now. Whatever the clock reads, it holds no token and
    /// is expired from the moment of its making on.
    pub fn new(lifespan_in_seconds: i64) -> (r: Self)
        ensures
            exists|now: int|
                clock_reading(now) && r@ == #[trigger] CredentialView::created_at(
                    lifespan_in_seconds as int,
                    now,
                ),
    {
        let now = now_millis();
        let r = Self::new_at(lifespan_in_seconds, now);
        assert(clock_reading(now as int) && r@ == CredentialView::created_at(
            lifespan_in_seconds as int,
            now as int,
        ));
        r
    }

    /// Whether the credential no longer holds at the moment `now`.
    pub fn is_expired_at(&self, now: i64) -> (r: bool)
        ensures
            r == self@.expired_at(now as int),
    {
        now as i128 > self.expires_at
    }

    /// Whether the credential no longer holds now.
    pub fn is_expired(&self) -> (r: bool)
        ensures
            exists|now: int| clock_reading(now) && r == #[trigger] self@.expired_at(now),
    {
        let now = now_millis();
        let r = self.is_expired_at(now);
        assert(clock_reading(now as int) && r == self@.expired_at(now as int));
        r
    }

    /// Takes the token of a login made at the moment `now`.
    pub fn refresh_at(&mut self, new_token: String, now: i64)
        ensures
            final(self)@ == old(self)@.refreshed_at(new_token@, now as int),
    {
        self.token = new_token;
        assert(-9_223_372_036_854_775_808_000 <= self.lifespan_in_seconds as int * 1000
            <= 9_223_372_036_854_775_807_000) by (nonlinear_arith)
            requires
                -9_223_372_036_854_775_808 <= self.lifespan_in_seconds as int
                    <= 9_223_372_036_854_775_807,
        ;
        self.expires_at = now as i128 + self.lifespan_in_seconds as i128 * 1000;
    }

    /// Takes the token of a login made now.
    pub fn refresh(&mut self, new_token: String)
        ensures
            exists|now: int|
                clock_reading(now) && final(self)@ == #[trigger] old(self)@.refreshed_at(
                    new_token@,
                    now,
                ),
    {
        let now = now_millis();
        self.refresh_at(new_token, now);
        assert(clock_reading(now as int) && self@ == old(self)@.refreshed_at(
            new_token@,
            now as int,
        ));
    }

    /// Takes the reply to a login that arrived at the moment `now`. A
    /// reply that gives a token renews the credential; any other reply is
    /// an authentication error and leaves the credential as it was.
    pub fn take_login_at(&mut self, reply: HttpReply, now: i64) -> (r: Result<(), ApiError>)
        ensures
            (r, final(self)@) == spec_take_login(old(self)@, reply, now as int),
    {
        match login_outcome(reply) {
            Ok(token) => {
                self.refresh_at(token, now);
                Ok(())
            },
            Err(error) => Err(error),
        }
    }

    /// Takes the reply to a login that arrived now. Whatever the clock
    /// reads, the reply is taken as `take_login_at` takes it at that
    /// reading.
    pub fn take_login(&mut self, reply: HttpReply) -> (r: Result<(), ApiError>)
        ensures
            exists|now: int|
                clock_reading(now) && (r, final(self)@) == #[trigger] spec_take_login(
                    old(self)@,
                    reply,
                    now,
                ),
    {
        let now = now_millis();
        let r = self.take_login_at(reply, now);
        assert(clock_reading(now as int) && (r, self@) == spec_take_login(
            old(self)@,
            reply,
            now as int,
        ));
        r
    }

    /// The token as it stands, empty before the first login.
    pub fn token(&self) -> (r: &str)
        ensures
            r@ == self@.token,
    {
        self.token.as_str()
    }

    pub fn lifespan_in_seconds(&self) -> (r: i64)
        ensures
            r == self@.lifespan_in_seconds,
    {
        self.lifespan_in_seconds
    }

    /// The moment from which on the credential no longer holds, in
    /// milliseconds since the Unix epoch.
    pub fn expires_at(&self) -> (r: i128)
        ensures
            r == self@.expires_at,
    {
        self.expires_at
    }

    /// The value of the `Authorization` header for this credential.
    pub fn authorization(&self) -> (r: String)
        ensures
            r@ == self@.authorization(),
    {
        let mut header = "Bearer ".to_owned();
        header.append(self.token.as_str());
        header
    }
}

/// A credential is expired when it is made, and stays so until a login.
pub proof fn lemma_created_expired(lifespan_in_seconds: int, now: int, later: int)
    requires
        now <= later,
    ensures
        CredentialView::created_at(lifespan_in_seconds, now).expired_at(later),
{
}

/// After a login the credential holds for the whole of its lifespan: at no
/// moment of that window is it expired, so no second login is asked for
/// within it.
pub proof fn lemma_refreshed_holds_for_lifespan(
    credential: CredentialView,
    token: Seq<char>,
    now: int,
    later: int,
)
    requires
        credential.lifespan_in_seconds >= 0,
        now <= later <= now + credential.lifespan_in_seconds * 1000,
    ensures
        !credential.refreshed_at(token, now).expired_at(later),
        credential.refreshed_at(token, now).token == token,
{
}

/// Once its lifespan is over, a credential is expired again.
pub proof fn lemma_refreshed_expires_after_lifespan(
    credential: CredentialView,
    token: Seq<char>,
    now: int,
    later: int,
)
    requires
        later > now + credential.lifespan_in_seconds * 1000,
    ensures
        credential.refreshed_at(token, now).expired_at(later),
{
}

} // verus!
