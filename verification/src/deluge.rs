//! The Deluge adapter's decision logic: JSON-RPC with an incrementing
//! request id and an explicit login call.
//!
//! The wire itself is the embedder's; this module owns the request-id
//! sequence, the response checks, and the reading of the host table.

use vstd::prelude::*;
use crate::errors::ErrorKind;
use crate::errors::PortError;
use crate::session::retry_step;
use crate::session::Attempt;
use crate::session::RetryState;
use crate::text::base_url;
use crate::text::spec_base_url;

verus! {

/// A JSON-RPC error as Deluge reports it.
#[derive(Clone, Debug)]
pub struct DelugeError {
    pub code: u32,
    pub message: String,
}

/// One row of Deluge's host table.
#[derive(Clone, Debug)]
pub struct DelugeHost {
    pub id: String,
    pub ip: String,
    pub port: u64,
    pub name: String,
}

/// Deluge's listen-port configuration.
#[derive(Clone, Copy, Debug)]
pub struct DelugeConfig {
    pub random_port: bool,
    pub listen_ports: [u64; 2],
}

/// One cell of a decoded JSON row: what the host-table logic reads.
#[derive(Clone, Debug)]
pub enum JsonCell {
    Text(String),
    UInt(u64),
    Other,
}

/// The text of a cell, where it holds one.
pub open spec fn cell_text(c: JsonCell) -> Seq<char> {
    match c {
        JsonCell::Text(s) => s@,
        _ => Seq::empty(),
    }
}

/// The number of a cell, where it holds one.
pub open spec fn cell_uint(c: JsonCell) -> u64 {
    match c {
        JsonCell::UInt(n) => n,
        _ => 0,
    }
}

/// A well-formed host row: exactly id, address, port and name.
pub open spec fn row_ok(row: Seq<JsonCell>) -> bool {
    row.len() == 4 && row[0] is Text && row[1] is Text && row[2] is UInt && row[3] is Text
}

/// The hosts are exactly what the rows spell, row by row.
pub open spec fn rows_match(rows: Seq<Vec<JsonCell>>, hosts: Seq<DelugeHost>) -> bool
    decreases rows.len(),
{
    if rows.len() != hosts.len() {
        false
    } else if rows.len() == 0 {
        true
    } else {
        &&& rows_match(rows.drop_last(), hosts.drop_last())
        &&& row_ok(rows.last()@)
        &&& hosts.last().id@ == cell_text(rows.last()@[0])
        &&& hosts.last().ip@ == cell_text(rows.last()@[1])
        &&& hosts.last().port == cell_uint(rows.last()@[2])
        &&& hosts.last().name@ == cell_text(rows.last()@[3])
    }
}

/// The Deluge client's own state: the normalized endpoint, the
/// password, and the JSON-RPC request-id sequence.
#[derive(Clone, Debug)]
pub struct DelugeClient {
    url: String,
    password: String,
    request_id: u32,
}

impl DelugeClient {
    /// The normalized endpoint URL.
    pub closed spec fn spec_url(&self) -> Seq<char> {
        self.url@
    }

    /// The web-interface password.
    pub closed spec fn spec_password(&self) -> Seq<char> {
        self.password@
    }

    /// The last request id handed out.
    pub closed spec fn spec_request_id(&self) -> u32 {
        self.request_id
    }

    /// Ids stay within the window they are recycled in.
    pub closed spec fn wf(&self) -> bool {
        self.request_id <= 0x1000
    }

    /// A client for the endpoint: the URL is anchored at `/json`.
    pub fn new(base: &str, password: &str) -> (r: DelugeClient)
        ensures
            r.wf(),
            r.spec_url() == spec_base_url(base@, "json"@),
            r.spec_password() == password@,
            r.spec_request_id() == 0,
    {
        DelugeClient { url: base_url(base, "json"), password: password.to_owned(), request_id: 0 }
    }

    /// The endpoint URL.
    pub fn url(&self) -> (r: &String)
        ensures
            r@ == self.spec_url(),
    {
        &self.url
    }

    /// The web-interface password.
    pub fn password(&self) -> (r: &String)
        ensures
            r@ == self.spec_password(),
    {
        &self.password
    }

    /// The next request id: one more than the last, recycled to one
    /// past the window's end.
    pub fn get_next_request_id(&mut self) -> (r: u32)
        requires
            old(self).wf(),
        ensures
            final(self).wf(),
            final(self).spec_url() == old(self).spec_url(),
            final(self).spec_password() == old(self).spec_password(),
            final(self).spec_request_id() == (if old(self).spec_request_id() + 1 > 0x1000 {
                1u32
            } else {
                (old(self).spec_request_id() + 1) as u32
            }),
            r == final(self).spec_request_id(),
    {
        self.request_id = self.request_id + 1;
        if self.request_id > 0x1000 {
            self.request_id = 1;
        }
        self.request_id
    }
}

/// Check a JSON-RPC reply envelope: the id must echo the request's;
/// a not-authenticated error (code one) outside the login call itself
/// spends the single re-login and asks for the request to be sent
/// again; any other error is a protocol violation.
pub fn check_deluge_response(
    flow: &mut RetryState,
    expected_id: u32,
    response_id: u32,
    error: Option<&DelugeError>,
    is_login: bool,
) -> (r: Result<Attempt<()>, PortError>)
    ensures
        ({
            let trigger = response_id == expected_id && error is Some && error.unwrap().code == 1
                && !is_login;
            let fire = trigger && !old(flow).retried;
            &&& *final(flow) == retry_step(*old(flow), trigger).0
            &&& match r {
                Ok(Attempt::Retry) => fire,
                Ok(Attempt::Settled(())) => response_id == expected_id && error is None,
                Err(e) => !fire && e.kind == ErrorKind::Protocol && (response_id != expected_id
                    || error is Some),
            }
        }),
{
    if response_id != expected_id {
        return Err(PortError::new(ErrorKind::Protocol, "Invalid response from Deluge"));
    }
    let not_authenticated = match error {
        Some(e) => e.code == 1 && !is_login,
        None => false,
    };
    if flow.should_retry(not_authenticated) {
        return Ok(Attempt::Retry);
    }
    match error {
        Some(_) => Err(PortError::new(ErrorKind::Protocol, "Deluge reported an error")),
        None => Ok(Attempt::Settled(())),
    }
}

/// What the login call's boolean result means: `true` is a session,
/// `false` a rejected password, anything else a protocol violation.
pub fn interpret_login_result(result: Option<bool>) -> (r: Result<(), PortError>)
    ensures
        match r {
            Ok(()) => result == Some(true),
            Err(e) => if result == Some(false) {
                e.kind == ErrorKind::Auth
            } else {
                result is None && e.kind == ErrorKind::Protocol
            },
        },
{
    match result {
        Some(true) => Ok(()),
        Some(false) => Err(PortError::new(ErrorKind::Auth, "Invalid password")),
        None => Err(PortError::new(ErrorKind::Protocol, "Invalid response from Deluge")),
    }
}

/// Read the host table: every row must be id, address, port and name.
pub fn hosts_from_rows(rows: &Vec<Vec<JsonCell>>) -> (r: Result<Vec<DelugeHost>, PortError>)
    ensures
        match r {
            Ok(hosts) => rows_match(rows@, hosts@),
            Err(e) => e.kind == ErrorKind::Protocol && exists|i: int|
                0 <= i < rows@.len() && !row_ok((#[trigger] rows@[i])@),
        },
{
    let mut hosts: Vec<DelugeHost> = Vec::new();
    let mut i: usize = 0;
    proof {
        assert(rows@.take(0) =~= Seq::<Vec<JsonCell>>::empty());
    }
    while i < rows.len()
        invariant
            0 <= i <= rows@.len(),
            hosts@.len() == i,
            rows_match(rows@.take(i as int), hosts@),
        decreases rows@.len() - i,
    {
        let row = &rows[i];
        if row.len() != 4 {
            return Err(PortError::new(ErrorKind::Protocol, "Invalid response from Deluge"));
        }
        let id = match &row[0] {
            JsonCell::Text(s) => s.clone(),
            _ => {
                return Err(PortError::new(ErrorKind::Protocol, "Invalid response from Deluge"));
            },
        };
        let ip = match &row[1] {
            JsonCell::Text(s) => s.clone(),
            _ => {
                return Err(PortError::new(ErrorKind::Protocol, "Invalid response from Deluge"));
            },
        };
        let port = match &row[2] {
            JsonCell::UInt(n) => *n,
            _ => {
                return Err(PortError::new(ErrorKind::Protocol, "Invalid response from Deluge"));
            },
        };
        let name = match &row[3] {
            JsonCell::Text(s) => s.clone(),
            _ => {
                return Err(PortError::new(ErrorKind::Protocol, "Invalid response from Deluge"));
            },
        };
        proof {
            assert(row@ == rows@[i as int]@);
            assert(row_ok(rows@[i as int]@));
            assert(id@ == cell_text(rows@[i as int]@[0]));
            assert(ip@ == cell_text(rows@[i as int]@[1]));
            assert(port == cell_uint(rows@[i as int]@[2]));
            assert(name@ == cell_text(rows@[i as int]@[3]));
        }
        let ghost h0 = hosts@;
        hosts.push(DelugeHost { id, ip, port, name });
        proof {
            assert(rows@.take(i + 1).drop_last() =~= rows@.take(i as int));
            assert(rows@.take(i + 1).last() == rows@[i as int]);
            assert(hosts@.drop_last() =~= h0);
            assert(hosts@.last().id@ == id@);
        }
        i += 1;
    }
    proof {
        assert(rows@.take(rows@.len() as int) =~= rows@);
    }
    Ok(hosts)
}

/// The host to connect to: the given one, or the table's first.
pub fn choose_host(hosts: &Vec<DelugeHost>, host_id: Option<&str>) -> (r: Result<
    String,
    PortError,
>)
    ensures
        match r {
            Ok(id) => match host_id {
                Some(given) => id@ == given@,
                None => hosts@.len() > 0 && id@ == hosts@[0].id@,
            },
            Err(e) => host_id is None && hosts@.len() == 0 && e.kind == ErrorKind::Protocol,
        },
{
    match host_id {
        Some(given) => Ok(given.to_owned()),
        None => {
            if hosts.len() == 0 {
                Err(PortError::new(ErrorKind::Protocol, "No Deluge hosts found"))
            } else {
                Ok(hosts[0].id.clone())
            }
        },
    }
}

/// The listen-port configuration that pins both ends of the range to
/// one fixed port.
pub fn build_port_config(random_port: bool, listen_port: u64) -> (r: DelugeConfig)
    ensures
        r.random_port == random_port,
        r.listen_ports@ == seq![listen_port, listen_port],
{
    DelugeConfig { random_port, listen_ports: [listen_port, listen_port] }
}

} // verus!
