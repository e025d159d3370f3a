//! The downstream client registry: a uniform capability over
//! otherwise-unrelated downstream systems, each independently
//! reachable and independently fallible.

use vstd::prelude::*;
use crate::command::ExecClient;
use crate::config::ClientConfigType;
use crate::deluge::DelugeClient;
use crate::errors::ErrorKind;
use crate::errors::PortError;
use crate::qbittorrent::QBittorrentClient;
use crate::transmission::TransmissionClient;
use crate::transmission::TransmissionCredentials;

verus! {

/// Whether an update to `port` must write at all, given the port the
/// downstream reports: only a readable, already-equal port spares the
/// write.
pub open spec fn update_writes(current: Option<u64>, port: u64) -> bool {
    current != Some(port)
}

/// The capability every downstream adapter provides. An adapter
/// models the port its downstream listens on as `spec_port`: a
/// successful read reports it, a successful write establishes it.
pub trait PortClient: Sized {
    /// The port the downstream listens on, as the adapter models it;
    /// `None` where it is randomized or unreadable.
    spec fn spec_port(&self) -> Option<u64>;

    /// Read the port the downstream currently listens on.
    fn get_port(&self) -> (r: Result<Option<u64>, PortError>)
        ensures
            r is Ok ==> r.unwrap() == self.spec_port(),
    ;

    /// Make the downstream listen on `port`.
    fn set_port(&mut self, port: u64) -> (r: Result<(), PortError>)
        ensures
            r is Ok ==> final(self).spec_port() == Some(port),
    ;

    /// Idempotent update: read the current port; where it already
    /// equals `port`, write nothing and report `false`; otherwise
    /// write it and report `true`.
    fn update_port(&mut self, port: u64) -> (r: Result<bool, PortError>)
        ensures
            r is Ok ==> final(self).spec_port() == Some(port) && r.unwrap() == update_writes(
                old(self).spec_port(),
                port,
            ),
            r == Ok::<bool, PortError>(false) ==> *final(self) == *old(self),
    {
        let current = match self.get_port() {
            Ok(c) => c,
            Err(e) => {
                return Err(e);
            },
        };
        match current {
            Some(p) if p == port => Ok(false),
            _ => {
                match self.set_port(port) {
                    Ok(()) => Ok(true),
                    Err(e) => Err(e),
                }
            },
        }
    }
}

/// Law: `update_port` called twice with the same port issues at most
/// one underlying write. A successful first call leaves the downstream
/// reporting `port` (its contract), so a successful second call with
/// the same port reports that it wrote nothing.
pub proof fn lemma_update_port_writes_at_most_once(mid: Option<u64>, second_wrote: bool, port: u64)
    requires
        mid == Some(port),
        second_wrote == update_writes(mid, port),
    ensures
        !second_wrote,
{
}

/// One registered downstream client: the adapter, its name, its
/// optional fixed recheck interval (seconds), and the last port this
/// engine has pushed or intends to push.
pub struct TimedPortClient<C: PortClient> {
    client: C,
    name: String,
    check_interval: Option<u64>,
    desired_port: Option<u64>,
}

impl<C: PortClient> TimedPortClient<C> {
    /// The client's name.
    pub closed spec fn spec_name(&self) -> Seq<char> {
        self.name@
    }

    /// The fixed recheck interval, where one is configured.
    pub closed spec fn spec_check_interval(&self) -> Option<u64> {
        self.check_interval
    }

    /// The desired port: the last one pushed or intended.
    pub closed spec fn spec_desired(&self) -> Option<u64> {
        self.desired_port
    }

    /// The port the adapter's downstream listens on, as modelled.
    pub closed spec fn spec_client_port(&self) -> Option<u64> {
        self.client.spec_port()
    }

    /// Register an adapter under a name, with no port desired yet.
    pub fn new(client: C, name: &str, check_interval: Option<u64>) -> (r: TimedPortClient<C>)
        ensures
            r.spec_name() == name@,
            r.spec_check_interval() == check_interval,
            r.spec_desired() is None,
            r.spec_client_port() == client.spec_port(),
    {
        TimedPortClient { client, name: name.to_owned(), check_interval, desired_port: None }
    }

    /// The client's name.
    pub fn name(&self) -> (r: &String)
        ensures
            r@ == self.spec_name(),
    {
        &self.name
    }

    /// The fixed recheck interval, where one is configured.
    pub fn check_interval(&self) -> (r: Option<u64>)
        ensures
            r == self.spec_check_interval(),
    {
        self.check_interval
    }

    /// The desired port: the last one pushed or intended.
    pub fn port(&self) -> (r: Option<u64>)
        ensures
            r == self.spec_desired(),
    {
        self.desired_port
    }

    /// Remember a newly chosen port where one is given, then push the
    /// desired port — where any is known — to the downstream,
    /// idempotently. Reports whether a write happened.
    pub fn update(&mut self, new_port: Option<u64>) -> (r: Result<bool, PortError>)
        ensures
            final(self).spec_name() == old(self).spec_name(),
            final(self).spec_check_interval() == old(self).spec_check_interval(),
            final(self).spec_desired() == (if new_port is Some {
                new_port
            } else {
                old(self).spec_desired()
            }),
            ({
                let desired = if new_port is Some {
                    new_port
                } else {
                    old(self).spec_desired()
                };
                match desired {
                    None => r == Ok::<bool, PortError>(false) && final(self).spec_client_port()
                        == old(self).spec_client_port(),
                    Some(p) => r is Ok ==> final(self).spec_client_port() == Some(p)
                        && r.unwrap() == update_writes(old(self).spec_client_port(), p),
                }
            }),
    {
        if let Some(p) = new_port {
            self.desired_port = Some(p);
        }
        match self.desired_port {
            Some(p) => {
                let updated = self.client.update_port(p);
                updated
            },
            None => Ok(false),
        }
    }
}

/// Push a freshly chosen port to every client of the registry. Every
/// client is attempted, whatever becomes of its siblings: afterwards
/// each one's desired port is the new one, and the results stand side
/// by side, one per client, a failure staying that client's alone.
pub fn fan_out<C: PortClient>(clients: &mut Vec<TimedPortClient<C>>, port: u64) -> (results: Vec<
    Result<bool, PortError>,
>)
    ensures
        results@.len() == old(clients)@.len(),
        final(clients)@.len() == old(clients)@.len(),
        forall|i: int|
            0 <= i < final(clients)@.len() ==> {
                &&& (#[trigger] final(clients)@[i]).spec_desired() == Some(port)
                &&& final(clients)@[i].spec_name() == old(clients)@[i].spec_name()
                &&& final(clients)@[i].spec_check_interval() == old(
                    clients,
                )@[i].spec_check_interval()
                &&& (results@[i] is Ok ==> final(clients)@[i].spec_client_port() == Some(port)
                    && results@[i].unwrap() == update_writes(
                    old(clients)@[i].spec_client_port(),
                    port,
                ))
            },
{
    let ghost before = clients@;
    let mut results: Vec<Result<bool, PortError>> = Vec::new();
    let mut i: usize = 0;
    while i < clients.len()
        invariant
            0 <= i <= before.len(),
            clients@.len() == before.len(),
            results@.len() == i,
            forall|k: int| i <= k < before.len() ==> #[trigger] clients@[k] == before[k],
            forall|k: int|
                0 <= k < i ==> {
                    &&& (#[trigger] clients@[k]).spec_desired() == Some(port)
                    &&& clients@[k].spec_name() == before[k].spec_name()
                    &&& clients@[k].spec_check_interval() == before[k].spec_check_interval()
                    &&& (results@[k] is Ok ==> clients@[k].spec_client_port() == Some(port)
                        && results@[k].unwrap() == update_writes(
                        before[k].spec_client_port(),
                        port,
                    ))
                },
        decreases before.len() - i,
    {
        let entry = vstd::std_specs::vec::vec_index_mut(clients, i);
        let outcome = entry.update(Some(port));
        results.push(outcome);
        i += 1;
    }
    results
}

/// A downstream client definition validated into the adapter state it
/// needs: one variant per protocol of the closed set.
#[derive(Debug)]
pub enum ClientSetup {
    Deluge(DelugeClient),
    QBittorrent(QBittorrentClient),
    Transmission(TransmissionClient),
    Exec(ExecClient),
}

/// Validate one downstream client definition and build the state its
/// adapter needs. Transmission credentials must be given both or not
/// at all; an external command must carry the port placeholder.
pub fn create_port_client(config: &ClientConfigType) -> (r: Result<ClientSetup, PortError>)
    ensures
        match *config {
            ClientConfigType::Deluge(ref c) => {
                &&& r is Ok
                &&& r.unwrap() matches ClientSetup::Deluge(d) && d.spec_url()
                    == crate::text::spec_base_url(c.url@, "json"@) && d.spec_password()
                    == c.password@ && d.spec_request_id() == 0
            },
            ClientConfigType::QBittorrent(ref c) => {
                &&& r is Ok
                &&& r.unwrap() matches ClientSetup::QBittorrent(q) && q.spec_url()
                    == crate::text::spec_base_url(c.url@, "api/v2"@) && q.spec_username()
                    == c.username@ && q.spec_password() == c.password@
            },
            ClientConfigType::Transmission(ref c) => {
                if c.username is Some && c.password is Some {
                    &&& r is Ok
                    &&& r.unwrap() matches ClientSetup::Transmission(t) && t.spec_url()
                        == crate::text::spec_base_url(c.url@, "transmission/rpc"@)
                        && t.spec_session_id() is None && t.spec_credentials() is Some
                        && t.spec_credentials().unwrap().username@ == c.username.unwrap()@
                        && t.spec_credentials().unwrap().password@ == c.password.unwrap()@
                } else if c.username is None && c.password is None {
                    &&& r is Ok
                    &&& r.unwrap() matches ClientSetup::Transmission(t) && t.spec_url()
                        == crate::text::spec_base_url(c.url@, "transmission/rpc"@)
                        && t.spec_session_id() is None && t.spec_credentials() is None
                } else {
                    &&& r is Err
                    &&& r.unwrap_err().kind == ErrorKind::Parse
                }
            },
            ClientConfigType::Exec(ref c) => {
                match r {
                    Ok(setup) => {
                        &&& setup matches ClientSetup::Exec(e)
                        &&& crate::command::split_words_of(c.command@) is Some
                        &&& crate::command::split_words_of(c.command@).unwrap().len() > 0
                        &&& e.spec_command() == crate::command::split_words_of(
                            c.command@,
                        ).unwrap()[0]
                        &&& e.spec_args() == crate::command::split_words_of(
                            c.command@,
                        ).unwrap().skip(1)
                        &&& crate::command::args_have_placeholder(e.spec_args())
                    },
                    Err(e) => e.kind == ErrorKind::Parse,
                }
            },
        },
{
    match config {
        ClientConfigType::Deluge(c) => {
            Ok(ClientSetup::Deluge(DelugeClient::new(c.url.as_str(), c.password.as_str())))
        },
        ClientConfigType::QBittorrent(c) => {
            Ok(
                ClientSetup::QBittorrent(
                    QBittorrentClient::new(
                        c.url.as_str(),
                        c.username.as_str(),
                        c.password.as_str(),
                    ),
                ),
            )
        },
        ClientConfigType::Transmission(c) => {
            let credentials = match (&c.username, &c.password) {
                (Some(username), Some(password)) => Some(
                    TransmissionCredentials {
                        username: username.clone(),
                        password: password.clone(),
                    },
                ),
                (None, None) => None,
                _ => {
                    return Err(
                        PortError::new(
                            ErrorKind::Parse,
                            "Transmission username and password must both be specified or neither.",
                        ),
                    );
                },
            };
            Ok(ClientSetup::Transmission(TransmissionClient::new(c.url.as_str(), credentials)))
        },
        ClientConfigType::Exec(c) => {
            match ExecClient::new(c.command.as_str()) {
                Ok(e) => Ok(ClientSetup::Exec(e)),
                Err(e) => Err(e),
            }
        },
    }
}

} // verus!
