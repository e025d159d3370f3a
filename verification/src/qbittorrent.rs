//! The qBittorrent adapter's decision logic: REST with a form-based
//! login and a cookie-held session.
//!
//! The wire itself is the embedder's; this module owns the URL
//! anchoring, the relogin-on-forbidden rule, the login body reading,
//! and the preferences payload.

use vstd::prelude::*;
use vstd::string::StringExecFns;
use crate::errors::ErrorKind;
use crate::errors::PortError;
use crate::session::retry_step;
use crate::session::RetryState;
use crate::text::ascii_seq;
use crate::text::base_url;
use crate::text::decimal_of;
use crate::text::spec_base_url;
use crate::text::u64_to_string;

verus! {

/// The login form.
#[derive(Clone, Debug)]
pub struct QBittorrentLoginRequest {
    pub username: String,
    pub password: String,
}

/// The set-preferences form: a JSON document in a form field.
#[derive(Clone, Debug)]
pub struct QBittorrentSetPreferencesRequest {
    pub json: String,
}

/// The one preference the engine cares for: the listen port (zero
/// meaning a random port).
#[derive(Clone, Copy, Debug, PartialEq, Eq, Structural)]
pub struct QBittorrentPreferences {
    pub listen_port: u64,
}

/// The qBittorrent client's own state: the normalized endpoint and
/// the credentials.
#[derive(Clone, Debug)]
pub struct QBittorrentClient {
    url: String,
    username: String,
    password: String,
}

impl QBittorrentClient {
    /// The normalized endpoint URL.
    pub closed spec fn spec_url(&self) -> Seq<char> {
        self.url@
    }

    /// The account name.
    pub closed spec fn spec_username(&self) -> Seq<char> {
        self.username@
    }

    /// The account password.
    pub closed spec fn spec_password(&self) -> Seq<char> {
        self.password@
    }

    /// A client for the endpoint: the URL is anchored at `/api/v2`.
    pub fn new(base: &str, username: &str, password: &str) -> (r: QBittorrentClient)
        ensures
            r.spec_url() == spec_base_url(base@, "api/v2"@),
            r.spec_username() == username@,
            r.spec_password() == password@,
    {
        QBittorrentClient {
            url: base_url(base, "api/v2"),
            username: username.to_owned(),
            password: password.to_owned(),
        }
    }

    /// The endpoint URL.
    pub fn url(&self) -> (r: &String)
        ensures
            r@ == self.spec_url(),
    {
        &self.url
    }

    /// The login form for this account.
    pub fn build_login_request(&self) -> (r: QBittorrentLoginRequest)
        ensures
            r.username@ == self.spec_username(),
            r.password@ == self.spec_password(),
    {
        QBittorrentLoginRequest {
            username: self.username.clone(),
            password: self.password.clone(),
        }
    }
}

/// Whether a response status demands the one transparent re-login:
/// qBittorrent answers `403` when not logged in.
pub fn relogin_on_forbidden(flow: &mut RetryState, status: u16) -> (r: bool)
    ensures
        (*final(flow), r) == retry_step(*old(flow), status == 403),
{
    flow.should_retry(status == 403)
}

/// What the login body says: `Ok.` is a session, `Fails.` rejected
/// credentials, anything else a protocol violation.
pub fn interpret_login_body(body: &str) -> (r: Result<(), PortError>)
    ensures
        match r {
            Ok(()) => body@ == "Ok."@,
            Err(e) => body@ != "Ok."@ && (if body@ == "Fails."@ {
                e.kind == ErrorKind::Auth
            } else {
                e.kind == ErrorKind::Protocol
            }),
        },
{
    let ok: String = "Ok.".to_owned();
    let fails: String = "Fails.".to_owned();
    let body_string = body.to_owned();
    if body_string.eq(&ok) {
        Ok(())
    } else if body_string.eq(&fails) {
        Err(PortError::new(ErrorKind::Auth, "Invalid username or password"))
    } else {
        Err(PortError::new(ErrorKind::Protocol, "Invalid response from server"))
    }
}

/// The port the preferences report: a listen port of zero means the
/// daemon randomizes it, so there is nothing to compare against.
pub fn port_from_preferences(prefs: &QBittorrentPreferences) -> (r: Option<u64>)
    ensures
        r == (if prefs.listen_port == 0 {
            None::<u64>
        } else {
            Some(prefs.listen_port)
        }),
{
    if prefs.listen_port == 0 {
        None
    } else {
        Some(prefs.listen_port)
    }
}

/// The preferences JSON that sets the listen port.
pub open spec fn spec_preferences_json(listen_port: u64) -> Seq<char> {
    "{\"listen_port\":"@ + ascii_seq(decimal_of(listen_port as nat)) + "}"@
}

/// The set-preferences form that pins the listen port.
pub fn build_set_preferences_request(listen_port: u64) -> (r: QBittorrentSetPreferencesRequest)
    ensures
        r.json@ == spec_preferences_json(listen_port),
{
    let json = String::from_str("{\"listen_port\":").concat(
        u64_to_string(listen_port).as_str(),
    ).concat("}");
    QBittorrentSetPreferencesRequest { json }
}

} // verus!
