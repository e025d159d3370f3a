//! Configuration, consumed read-only by the engine at startup.
//!
//! The embedder parses its configuration file into these types and
//! hands them over; the engine never touches the file itself.

use vstd::prelude::*;
use crate::errors::ErrorKind;
use crate::errors::PortError;

verus! {

/// Everything the engine is configured with: the provider account and
/// policy, plus the downstream client definitions.
#[derive(Clone, Debug)]
pub struct Config {
    pub windscribe: WindscribeConfig,
    pub clients: Vec<ClientConfig>,
}

/// The provider account and the scheduling policy: credentials, the
/// optional fixed poll interval, the fixed retry delay, and the
/// extra-delay tolerance added to expiries (all in seconds).
#[derive(Clone, Debug)]
pub struct WindscribeConfig {
    pub username: String,
    pub password: String,
    pub check_interval: Option<u64>,
    pub retry_delay: u64,
    pub extra_delay: i64,
}

/// One downstream client: its name, its optional fixed recheck
/// interval (seconds), and the protocol it speaks.
#[derive(Clone, Debug)]
pub struct ClientConfig {
    pub name: String,
    pub check_interval: Option<u64>,
    pub config: ClientConfigType,
}

/// The closed set of downstream protocols, each with its connection
/// parameters. Adding a protocol means adding one variant here and one
/// adapter, not changing the engine.
#[derive(Clone, Debug)]
pub enum ClientConfigType {
    Deluge(DelugeClientConfig),
    QBittorrent(QBittorrentClientConfig),
    Transmission(TransmissionClientConfig),
    Exec(ExecClientConfig),
}

/// Connection parameters for a Deluge web endpoint.
#[derive(Clone, Debug)]
pub struct DelugeClientConfig {
    pub url: String,
    pub password: String,
}

/// Connection parameters for a qBittorrent web endpoint.
#[derive(Clone, Debug)]
pub struct QBittorrentClientConfig {
    pub url: String,
    pub username: String,
    pub password: String,
}

/// Connection parameters for a Transmission RPC endpoint; credentials
/// must be given both or not at all.
#[derive(Clone, Debug)]
pub struct TransmissionClientConfig {
    pub url: String,
    pub username: Option<String>,
    pub password: Option<String>,
}

/// An arbitrary external command told the port through a placeholder.
#[derive(Clone, Debug)]
pub struct ExecClientConfig {
    pub command: String,
}

impl Config {
    /// A configuration is usable only with at least one client.
    pub fn validate(&self) -> (r: Result<(), PortError>)
        ensures
            r is Ok <==> self.clients@.len() > 0,
            r is Err ==> r.unwrap_err().kind == ErrorKind::Parse,
    {
        if self.clients.len() == 0 {
            Err(PortError::new(ErrorKind::Parse, "No clients configured"))
        } else {
            Ok(())
        }
    }
}

} // verus!
