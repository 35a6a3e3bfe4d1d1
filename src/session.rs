use vstd::prelude::*;
use crate::models::{NewSession, Person, Session, StoreError};

verus! {

/// How long a session stays valid after it is opened: thirty days, in seconds.
pub const SESSION_LIFETIME: i64 = 2592000;

/// The number of characters of a session token.
pub const TOKEN_LENGTH: usize = 32;

/// Relies on `textnonce::TextNonce::sized_urlsafe`: for a length of at least
/// 16 that four divides it gives a token of that many base64 characters
/// (time and randomness), or an error where the clock reads before 1970.
#[verifier::external_body]
fn nonce(length: usize) -> (r: Option<String>)
    requires
        length >= 16,
        length % 4 == 0,
    ensures
        r matches Some(t) ==> t@.len() == length,
{
    match textnonce::TextNonce::sized_urlsafe(length) {
        Ok(t) => Some(t.into_string()),
        Err(_) => None,
    }
}

#[verifier::external_type_specification]
#[verifier::external_body]
pub struct ExSystemTime(std::time::SystemTime);

/// Relies on `SystemTime::now`: the system clock's reading, of which nothing
/// is known.
pub assume_specification[ std::time::SystemTime::now ]() -> std::time::SystemTime;

/// Relies on `SystemTime::duration_since`, an error where `t` lies before the
/// Unix epoch, and `Duration::as_secs`, its whole seconds. Nothing is known of
/// the value.
#[verifier::external_body]
fn seconds_since_epoch(t: &std::time::SystemTime) -> (r: Option<u64>) {
    match t.duration_since(std::time::UNIX_EPOCH) {
        Ok(d) => Some(d.as_secs()),
        Err(_) => None,
    }
}

/// The time now in seconds since the Unix epoch; `None` where the clock
/// reads before the epoch or beyond the range of a timestamp.
fn current_time() -> (r: Option<i64>) {
    let t = std::time::SystemTime::now();
    match seconds_since_epoch(&t) {
        Some(secs) => {
            if secs <= i64::MAX as u64 {
                Some(secs as i64)
            } else {
                None
            }
        },
        None => None,
    }
}

/// The moment at which a session opened at `now` expires (the largest
/// timestamp where the sum would not fit).
pub open spec fn expiry_of(now: i64) -> i64 {
    if now > i64::MAX - SESSION_LIFETIME {
        i64::MAX
    } else {
        (now + SESSION_LIFETIME) as i64
    }
}

/// The session row to insert for `person_id`, with the bearer token `token`,
/// opened at `now`.
pub fn session_for(token: String, person_id: i32, now: i64) -> (r: NewSession)
    ensures
        r.id == token,
        r.person_id == person_id,
        r.expires_at == expiry_of(now),
{
    let expires_at = if now > i64::MAX - SESSION_LIFETIME {
        i64::MAX
    } else {
        now + SESSION_LIFETIME
    };
    NewSession { id: token, person_id, expires_at }
}

/// A fresh session row for `person_id`, with a new random token that expires
/// one lifetime from now; `None` where the clock or the token could not be
/// had.
pub fn new_session(person_id: i32) -> (r: Option<NewSession>)
    ensures
        r matches Some(s) ==> s.person_id == person_id && s.id@.len() == TOKEN_LENGTH,
        r matches Some(s) ==> exists|now: i64| s.expires_at == #[trigger] expiry_of(now),
{
    let now = match current_time() {
        Some(now) => now,
        None => return None,
    };
    match nonce(TOKEN_LENGTH) {
        Some(token) => Some(session_for(token, person_id, now)),
        None => None,
    }
}

/// Whether a session is still valid at `now`.
pub open spec fn is_live(s: Session, now: i64) -> bool {
    now < s.expires_at
}

/// Whether a session is still valid at `now`.
pub fn session_live(s: &Session, now: i64) -> (r: bool)
    ensures
        r == is_live(*s, now),
{
    now < s.expires_at
}

/// Why a request was refused before its handler ran.
#[derive(Clone, Copy, Debug, PartialEq, Eq, Structural)]
pub enum Rejection {
    BadRequest,
    Unauthorized,
    Unavailable,
    Internal,
}

pub open spec fn rejection_code(r: Rejection) -> u16 {
    match r {
        Rejection::BadRequest => 400,
        Rejection::Unauthorized => 401,
        Rejection::Unavailable => 503,
        Rejection::Internal => 500,
    }
}

impl Rejection {
    /// The HTTP status code of the refusal.
    pub fn code(&self) -> (r: u16)
        ensures
            r == rejection_code(*self),
    {
        match self {
            Rejection::BadRequest => 400,
            Rejection::Unauthorized => 401,
            Rejection::Unavailable => 503,
            Rejection::Internal => 500,
        }
    }
}

/// What the `Authorization` header of a request held.
#[derive(Clone, Debug, PartialEq, Eq)]
pub enum Credential {
    /// There was no such header.
    Missing,
    /// The header was not readable text.
    Unreadable,
    /// The header's text, taken as the session token.
    Token(String),
}

/// The session token of a request, or why there is none.
pub fn bearer_token(c: Credential) -> (r: Result<String, Rejection>)
    ensures
        c is Missing ==> r == Err::<String, Rejection>(Rejection::Unauthorized),
        c is Unreadable ==> r == Err::<String, Rejection>(Rejection::BadRequest),
        c matches Credential::Token(t) ==> r == Ok::<String, Rejection>(t),
{
    match c {
        Credential::Missing => Err(Rejection::Unauthorized),
        Credential::Unreadable => Err(Rejection::BadRequest),
        Credential::Token(t) => Ok(t),
    }
}

/// The person that a session lookup grants access to at `now`: what the
/// lookup of the token found (a session with its person, or nothing) decides.
pub open spec fn resolution(found: Result<Option<(Session, Person)>, StoreError>, now: i64) -> Result<Person, Rejection> {
    match found {
        Ok(Some((s, p))) => {
            if is_live(s, now) && s.person_id == p.id {
                Ok(p)
            } else {
                Err(Rejection::Unauthorized)
            }
        },
        Ok(None) => Err(Rejection::Unauthorized),
        Err(StoreError::Pool) => Err(Rejection::Unavailable),
        Err(_) => Err(Rejection::Internal),
    }
}

/// Resolves the caller of a request from the lookup of its bearer token.
/// An expired session counts as no session; a lookup that could not reach
/// the database is a service outage, any other failed lookup an internal
/// error.
pub fn resolve_person(found: Result<Option<(Session, Person)>, StoreError>, now: i64) -> (r: Result<Person, Rejection>)
    ensures
        r == resolution(found, now),
        found matches Ok(Some((s, p))) && !is_live(s, now) ==> r == Err::<Person, Rejection>(Rejection::Unauthorized),
        r is Ok <==> (found matches Ok(Some((s, p))) && is_live(s, now) && s.person_id == p.id),
{
    match found {
        Ok(Some((s, p))) => {
            if session_live(&s, now) && s.person_id == p.id {
                Ok(p)
            } else {
                Err(Rejection::Unauthorized)
            }
        },
        Ok(None) => Err(Rejection::Unauthorized),
        Err(StoreError::Pool) => Err(Rejection::Unavailable),
        Err(_) => Err(Rejection::Internal),
    }
}

/// A session that has expired grants exactly what no session grants: the
/// request is unauthorized, whoever the session belonged to.
pub proof fn lemma_expired_session_is_absent(s: Session, p: Person, now: i64)
    requires
        !is_live(s, now),
    ensures
        resolution(Ok(Some((s, p))), now) == resolution(Ok(None), now),
        resolution(Ok(Some((s, p))), now) == Err::<Person, Rejection>(Rejection::Unauthorized),
{
}

/// Resolves the caller of a request at the present time.
pub fn resolve_person_now(found: Result<Option<(Session, Person)>, StoreError>) -> (r: Result<Person, Rejection>)
    ensures
        r == Err::<Person, Rejection>(Rejection::Internal) || exists|now: i64| r == #[trigger] resolution(found, now),
{
    match current_time() {
        Some(now) => resolve_person(found, now),
        None => Err(Rejection::Internal),
    }
}

} // verus!
