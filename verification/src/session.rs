//! The session manager: the authenticated session token for the
//! provider, the login handshake's interpretation, and the bounded
//! transparent re-login.
//!
//! The manager owns the session token and mirrors it into the TTL
//! cache under a fixed key, so a still-valid session survives process
//! restarts. The network transport stays outside: status codes,
//! `Set-Cookie` lines and page bodies come in as plain values.

use vstd::prelude::*;
use vstd::string::StrSliceExecFns;
use vstd::string::StringExecFns;
use crate::cache::entries_get;
use crate::cache::CacheEntry;
use crate::cache::SimpleCache;
use crate::errors::ErrorKind;
use crate::errors::PortError;
use crate::html::select_texts;
use crate::html::select_texts_of;
use crate::text::concat_texts;
use crate::text::join_texts;
use crate::text::trim_chars;
use crate::text::trim_string;

verus! {

/// A provider session: the opaque token and its absolute expiry epoch.
#[derive(Clone, Debug)]
pub struct Session {
    pub token: String,
    pub expires: i64,
}

/// What a `Set-Cookie` line carries: cookie name, value, and expiry
/// epoch if the line sets one.
struct CookieFields {
    name: String,
    value: String,
    expires: Option<i64>,
}

/// The parse of a `Set-Cookie` line: name, value and expiry epoch, or
/// nothing for an unparseable line. Named here because the cookie
/// grammar is too large to state; the parse depends on the line alone.
pub uninterp spec fn cookie_fields_of(header: Seq<char>) -> Option<
    (Seq<char>, Seq<char>, Option<i64>),
>;

/// Relies on `cookie::Cookie::parse` and its accessors `name`, `value`
/// and `expires_datetime`, plus time's `unix_timestamp`, to read one
/// `Set-Cookie` line into plain values.
#[verifier::external_body]
fn parse_set_cookie(header: &str) -> (r: Option<CookieFields>)
    ensures
        match r {
            Some(c) => cookie_fields_of(header@) == Some((c.name@, c.value@, c.expires)),
            None => cookie_fields_of(header@) is None,
        },
{
    let c = match cookie::Cookie::parse(header) {
        Ok(c) => c,
        Err(_) => return None,
    };
    let expires = match c.expires_datetime() {
        Some(t) => Some(t.unix_timestamp()),
        None => None,
    };
    Some(CookieFields { name: c.name().to_string(), value: c.value().to_string(), expires })
}

/// The session cookie among the `Set-Cookie` lines: value and expiry
/// of the first one named `ws_session_auth_hash`.
pub open spec fn session_cookie_in(headers: Seq<Seq<char>>) -> Option<(Seq<char>, Option<i64>)>
    decreases headers.len(),
{
    if headers.len() == 0 {
        None
    } else {
        let c = cookie_fields_of(headers[0]);
        if c is Some && c.unwrap().0 == "ws_session_auth_hash"@ {
            Some((c.unwrap().1, c.unwrap().2))
        } else {
            session_cookie_in(headers.drop_first())
        }
    }
}

/// Find the session cookie among the `Set-Cookie` lines.
fn find_session_cookie(headers: &Vec<String>) -> (r: Option<(String, Option<i64>)>)
    ensures
        match r {
            Some(c) => session_cookie_in(headers.deep_view()) == Some((c.0@, c.1)),
            None => session_cookie_in(headers.deep_view()) is None,
        },
{
    let ghost hs = headers.deep_view();
    let target: String = "ws_session_auth_hash".to_owned();
    let mut i: usize = 0;
    proof {
        assert(hs.skip(0) =~= hs);
    }
    while i < headers.len()
        invariant
            0 <= i <= headers@.len(),
            hs == headers.deep_view(),
            hs.len() == headers@.len(),
            target@ == "ws_session_auth_hash"@,
            session_cookie_in(hs) == session_cookie_in(hs.skip(i as int)),
        decreases headers@.len() - i,
    {
        proof {
            assert(hs.skip(i as int)[0] == hs[i as int]);
            assert(hs[i as int] == headers@[i as int]@);
            assert(hs.skip(i as int).drop_first() =~= hs.skip(i + 1));
        }
        match parse_set_cookie(headers[i].as_str()) {
            Some(c) => {
                if c.name.eq(&target) {
                    return Some((c.value, c.expires));
                }
            },
            None => {},
        }
        i += 1;
    }
    proof {
        assert(hs.skip(hs.len() as int) =~= Seq::<Seq<char>>::empty());
    }
    None
}

/// The human-readable error fragment embedded in the login page
/// markup, or `Unknown error` where none is rendered.
pub open spec fn spec_login_error_text(body: Seq<char>) -> Seq<char> {
    match select_texts_of(body, "#loginform .login-box .error"@) {
        None => "Unknown error"@,
        Some(ts) => {
            let m = trim_chars(concat_texts(ts));
            if m.len() == 0 {
                "Unknown error"@
            } else {
                m
            }
        },
    }
}

/// Scrape the login page for its error fragment.
pub fn login_error_text(body: &str) -> (r: String)
    ensures
        r@ == spec_login_error_text(body@),
{
    match select_texts(body, "#loginform .login-box .error") {
        None => String::from_str("Unknown error"),
        Some(texts) => {
            let joined = join_texts(&texts);
            let trimmed = trim_string(joined.as_str());
            if trimmed.as_str().is_empty() {
                String::from_str("Unknown error")
            } else {
                trimmed
            }
        },
    }
}

/// What the engine concludes from the credential endpoint's reply:
/// a redirect carrying the session cookie with an expiry is a login;
/// a plain page is a rejection whose markup holds the reason; any
/// other status is a protocol violation.
pub open spec fn login_outcome_ok(
    r: Result<Session, PortError>,
    status: u16,
    headers: Seq<Seq<char>>,
    body: Seq<char>,
) -> bool {
    let cookie = session_cookie_in(headers);
    match r {
        Ok(s) => status == 302 && cookie is Some && cookie.unwrap().1 == Some(s.expires)
            && s.token@ == cookie.unwrap().0,
        Err(e) => {
            if status == 200 {
                e.kind == ErrorKind::Auth && e.message@ == "Login failed: "@
                    + spec_login_error_text(body)
            } else if status == 302 {
                e.kind == ErrorKind::Auth && (cookie is None || cookie.unwrap().1 is None)
            } else {
                e.kind == ErrorKind::Protocol
            }
        },
    }
}

/// Interpret the credential endpoint's reply.
pub fn interpret_login_response(status: u16, set_cookie_headers: &Vec<String>, body: &str) -> (r:
    Result<Session, PortError>)
    ensures
        login_outcome_ok(r, status, set_cookie_headers.deep_view(), body@),
{
    if status == 200 {
        let msg = login_error_text(body);
        let full = String::from_str("Login failed: ").concat(msg.as_str());
        Err(PortError::with_message(ErrorKind::Auth, full))
    } else if status == 302 {
        match find_session_cookie(set_cookie_headers) {
            None => Err(PortError::new(ErrorKind::Auth, "No session cookie found")),
            Some(c) => {
                match c.1 {
                    None => Err(
                        PortError::new(
                            ErrorKind::Auth,
                            "Session cookie does not have an expiration date",
                        ),
                    ),
                    Some(exp) => Ok(Session { token: c.0, expires: exp }),
                }
            },
        }
    } else {
        Err(PortError::new(ErrorKind::Protocol, "Unexpected login status code"))
    }
}

/// The `Cookie` header line that presents a session token.
pub fn session_cookie_header(token: &str) -> (r: String)
    ensures
        r@ == "ws_session_auth_hash="@ + token@,
{
    String::from_str("ws_session_auth_hash=").concat(token)
}

/// One bounded transparent re-login: remembers whether the single
/// permitted retry of a flow has been spent.
#[derive(Clone, Copy, Debug, PartialEq, Eq, Structural)]
pub struct RetryState {
    pub retried: bool,
}

/// The retry transition: fire exactly when triggered and unspent, and
/// stay spent forever after.
pub open spec fn retry_step(s: RetryState, trigger: bool) -> (RetryState, bool) {
    let fire = trigger && !s.retried;
    (RetryState { retried: s.retried || fire }, fire)
}

impl RetryState {
    /// A fresh flow: the single retry is unspent.
    pub fn new() -> (r: RetryState)
        ensures
            r == (RetryState { retried: false }),
    {
        RetryState { retried: false }
    }

    /// Spend the single retry if `trigger` holds and it is unspent.
    pub fn should_retry(&mut self, trigger: bool) -> (r: bool)
        ensures
            (*final(self), r) == retry_step(*old(self), trigger),
    {
        if trigger && !self.retried {
            self.retried = true;
            true
        } else {
            false
        }
    }
}

/// Law: a flow re-logins at most once. Whatever two responses trigger,
/// the retry fires at most once across them; and from a fresh state a
/// triggering response fires it exactly once.
pub proof fn lemma_at_most_one_retry(s: RetryState, t1: bool, t2: bool)
    ensures
        !(retry_step(s, t1).1 && retry_step(retry_step(s, t1).0, t2).1),
        !s.retried && t1 ==> retry_step(s, t1).1,
{
}

/// A step of an exchange that may be resent once after a forced
/// re-login: either send again, or settle on a result.
#[derive(Clone, Copy, Debug)]
pub enum Attempt<T> {
    /// The single re-login was spent: re-send the request.
    Retry,
    /// The exchange is over, with this result.
    Settled(T),
}

/// What to do with a response during an authenticated request.
#[derive(Clone, Copy, Debug, PartialEq, Eq, Structural)]
pub enum RequestDecision {
    /// The expected status arrived: hand the response out.
    Accept,
    /// The re-authentication status arrived and the single retry is
    /// unspent: force one re-login and send the request again.
    RetryAfterLogin,
    /// Any other status: a protocol violation.
    Fail,
}

/// Decide what an authenticated request does with a response status:
/// on the re-authentication status force exactly one re-login and
/// retry once; accept the expected status; fail anything else.
pub fn decide_response(
    flow: &mut RetryState,
    status: u16,
    success_status: u16,
    re_login_status: Option<u16>,
) -> (d: RequestDecision)
    ensures
        ({
            let trigger = re_login_status == Some(status);
            let fire = trigger && !old(flow).retried;
            &&& *final(flow) == retry_step(*old(flow), trigger).0
            &&& d == (if fire {
                RequestDecision::RetryAfterLogin
            } else if status == success_status {
                RequestDecision::Accept
            } else {
                RequestDecision::Fail
            })
        }),
{
    let trigger = match re_login_status {
        Some(c) => c == status,
        None => false,
    };
    if flow.should_retry(trigger) {
        RequestDecision::RetryAfterLogin
    } else if status == success_status {
        RequestDecision::Accept
    } else {
        RequestDecision::Fail
    }
}

/// The fixed cache key under which the session token is mirrored.
pub open spec fn session_cache_key() -> Seq<char> {
    "windscribe_session_cookie"@
}

/// The session manager: owns the session token, backed by the TTL
/// cache for reuse across restarts.
pub struct SessionManager {
    cache: SimpleCache,
}

impl SessionManager {
    /// The backing cache's keys are pairwise distinct.
    pub closed spec fn wf(&self) -> bool {
        self.cache.wf()
    }

    /// The cached session: token and expiry under the fixed key.
    pub closed spec fn spec_cached(&self) -> Option<(Seq<char>, Option<i64>)> {
        self.cache.spec_get(session_cache_key())
    }

    /// A manager over the given cache.
    pub fn new(cache: SimpleCache) -> (r: SessionManager)
        requires
            cache.wf(),
        ensures
            r.wf(),
            r.spec_cached() == cache.spec_get(session_cache_key()),
    {
        SessionManager { cache }
    }

    /// The entries of the backing cache, for the embedder to persist.
    pub fn cache_entries(&self) -> (r: &Vec<CacheEntry>)
        ensures
            entries_get(r@, session_cache_key()) == self.spec_cached(),
    {
        self.cache.entries()
    }

    /// The cached session token, unless a fresh login is forced or the
    /// cached one is missing or past its expiry (evicted on read).
    pub fn cached_session(&mut self, force_login: bool, now: i64) -> (r: Option<String>)
        requires
            old(self).wf(),
        ensures
            final(self).wf(),
            ({
                let cached = old(self).spec_cached();
                let live = cached is Some && !(cached.unwrap().1 is Some
                    && cached.unwrap().1.unwrap() <= now);
                &&& r is Some <==> (live && !force_login)
                &&& r is Some ==> r.unwrap()@ == cached.unwrap().0
                &&& final(self).spec_cached() == (if live {
                    cached
                } else {
                    None::<(Seq<char>, Option<i64>)>
                })
            }),
    {
        let cached = self.cache.get("windscribe_session_cookie", now);
        if force_login {
            None
        } else {
            cached
        }
    }

    /// Record a fresh session: cache it under the fixed key with its
    /// expiry as time-to-live.
    pub fn store_session(&mut self, session: &Session)
        requires
            old(self).wf(),
        ensures
            final(self).wf(),
            final(self).spec_cached() == Some((session.token@, Some(session.expires))),
    {
        self.cache.set(
            "windscribe_session_cookie",
            session.token.as_str(),
            Some(session.expires),
        );
    }

    /// Digest the credential endpoint's reply: a successful login is
    /// cached before it is returned; a failure leaves the cache alone.
    pub fn absorb_login_response(
        &mut self,
        status: u16,
        set_cookie_headers: &Vec<String>,
        body: &str,
    ) -> (r: Result<Session, PortError>)
        requires
            old(self).wf(),
        ensures
            final(self).wf(),
            login_outcome_ok(r, status, set_cookie_headers.deep_view(), body@),
            r is Ok ==> final(self).spec_cached() == Some(
                (r.unwrap().token@, Some(r.unwrap().expires)),
            ),
            r is Err ==> *final(self) == *old(self),
    {
        match interpret_login_response(status, set_cookie_headers, body) {
            Ok(s) => {
                self.store_session(&s);
                Ok(s)
            },
            Err(e) => Err(e),
        }
    }
}

} // verus!
