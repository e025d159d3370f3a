//! The Transmission adapter's decision logic: JSON-RPC with a session
//! identifier header obtained through a conflict-and-retry handshake.
//!
//! The wire itself is the embedder's; this module owns the URL
//! anchoring, the session-identifier state, the handshake rule, and
//! the reading of the session arguments.

use vstd::prelude::*;
use crate::errors::ErrorKind;
use crate::errors::PortError;
use crate::session::retry_step;
use crate::session::Attempt;
use crate::session::RetryState;
use crate::text::base_url;
use crate::text::spec_base_url;

verus! {

/// Credentials for the RPC endpoint, both or neither.
#[derive(Clone, Debug)]
pub struct TransmissionCredentials {
    pub username: String,
    pub password: String,
}

/// The session arguments the engine reads and writes: the peer port
/// and whether it is randomized on start.
#[derive(Clone, Copy, Debug, PartialEq, Eq, Structural)]
pub struct TransmissionSessionArgumentsPort {
    pub peer_port: u64,
    pub peer_port_random_on_start: bool,
}

/// The session argument carrying the daemon's version.
#[derive(Clone, Debug)]
pub struct TransmissionSessionArgumentsVersion {
    pub version: String,
}

/// The Transmission client's own state: the normalized endpoint, the
/// optional credentials, and the session identifier once one arrived.
#[derive(Clone, Debug)]
pub struct TransmissionClient {
    url: String,
    credentials: Option<TransmissionCredentials>,
    session_id: Option<String>,
}

impl TransmissionClient {
    /// The normalized endpoint URL.
    pub closed spec fn spec_url(&self) -> Seq<char> {
        self.url@
    }

    /// The credentials, where configured.
    pub closed spec fn spec_credentials(&self) -> Option<TransmissionCredentials> {
        self.credentials
    }

    /// The session identifier, once one arrived.
    pub closed spec fn spec_session_id(&self) -> Option<Seq<char>> {
        match self.session_id {
            Some(s) => Some(s@),
            None => None,
        }
    }

    /// A client for the endpoint: the URL is anchored at
    /// `/transmission/rpc`; no session identifier is held yet.
    pub fn new(base: &str, credentials: Option<TransmissionCredentials>) -> (r: TransmissionClient)
        ensures
            r.spec_url() == spec_base_url(base@, "transmission/rpc"@),
            r.spec_credentials() == credentials,
            r.spec_session_id() is None,
    {
        TransmissionClient { url: base_url(base, "transmission/rpc"), credentials, session_id: None }
    }

    /// The endpoint URL.
    pub fn url(&self) -> (r: &String)
        ensures
            r@ == self.spec_url(),
    {
        &self.url
    }

    /// The credentials, where configured.
    pub fn credentials(&self) -> (r: &Option<TransmissionCredentials>)
        ensures
            *r == self.spec_credentials(),
    {
        &self.credentials
    }

    /// The held session identifier.
    pub fn session_id(&self) -> (r: Option<&String>)
        ensures
            match r {
                Some(s) => self.spec_session_id() == Some(s@),
                None => self.spec_session_id() is None,
            },
    {
        self.session_id.as_ref()
    }

    /// Whether a request must fetch a session first: nothing is held
    /// yet and the request is not itself the session fetch.
    pub fn needs_handshake(&self, is_session_get: bool) -> (r: bool)
        ensures
            r == (self.spec_session_id() is None && !is_session_get),
    {
        self.session_id.is_none() && !is_session_get
    }

    /// A reply carried a session identifier header: hold it, last
    /// writer winning.
    pub fn note_session_header(&mut self, header: Option<&str>)
        ensures
            final(self).spec_url() == old(self).spec_url(),
            final(self).spec_credentials() == old(self).spec_credentials(),
            match header {
                Some(h) => final(self).spec_session_id() == Some(h@),
                None => final(self).spec_session_id() == old(self).spec_session_id(),
            },
    {
        match header {
            Some(h) => {
                self.session_id = Some(h.to_owned());
            },
            None => {},
        }
    }
}

/// A conflict reply (the handshake): with no session identifier held
/// even after the reply, the daemon broke the handshake; with one
/// held, the request is sent once more, and a second conflict is a
/// protocol violation.
pub fn on_conflict(flow: &mut RetryState, has_session: bool) -> (r: Result<Attempt<()>, PortError>)
    ensures
        *final(flow) == retry_step(*old(flow), has_session).0,
        ({
            let fire = has_session && !old(flow).retried;
            match r {
                Ok(Attempt::Retry) => fire,
                Ok(Attempt::Settled(())) => false,
                Err(e) => !fire && e.kind == ErrorKind::Protocol,
            }
        }),
{
    if flow.should_retry(has_session) {
        Ok(Attempt::Retry)
    } else {
        Err(PortError::new(ErrorKind::Protocol, "Transmission session ID is missing"))
    }
}

/// What a reply's result field means: `success` settles it; anything
/// else is a protocol violation.
pub fn interpret_result_field(result: &str) -> (r: Result<(), PortError>)
    ensures
        match r {
            Ok(()) => result@ == "success"@,
            Err(e) => result@ != "success"@ && e.kind == ErrorKind::Protocol,
        },
{
    let success: String = "success".to_owned();
    let given = result.to_owned();
    if given.eq(&success) {
        Ok(())
    } else {
        Err(PortError::new(ErrorKind::Protocol, "Transmission request error"))
    }
}

/// The port the daemon listens on: none where it randomizes on start.
pub fn port_from_session_args(args: &TransmissionSessionArgumentsPort) -> (r: Option<u64>)
    ensures
        r == (if args.peer_port_random_on_start {
            None::<u64>
        } else {
            Some(args.peer_port)
        }),
{
    if args.peer_port_random_on_start {
        None
    } else {
        Some(args.peer_port)
    }
}

/// The session arguments that pin the peer port.
pub fn build_session_args(peer_port_random_on_start: bool, peer_port: u64) -> (r:
    TransmissionSessionArgumentsPort)
    ensures
        r == (TransmissionSessionArgumentsPort { peer_port, peer_port_random_on_start }),
{
    TransmissionSessionArgumentsPort { peer_port, peer_port_random_on_start }
}

} // verus!
