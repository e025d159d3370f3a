use windscribe_ephemeral_port::client::{
    create_port_client, fan_out, ClientSetup, PortClient, TimedPortClient,
};
use windscribe_ephemeral_port::config::{
    ClientConfig, ClientConfigType, Config, DelugeClientConfig, ExecClientConfig,
    QBittorrentClientConfig, TransmissionClientConfig, WindscribeConfig,
};
use windscribe_ephemeral_port::errors::{ErrorKind, PortError};

#[test]
fn a_configuration_without_clients_is_refused() {
    let windscribe = WindscribeConfig {
        username: "u".to_string(),
        password: "p".to_string(),
        check_interval: None,
        retry_delay: 60,
        extra_delay: 0,
    };
    let empty = Config { windscribe: windscribe.clone(), clients: Vec::new() };
    assert_eq!(empty.validate().unwrap_err().kind, ErrorKind::Parse);
    let one = Config {
        windscribe,
        clients: vec![ClientConfig {
            name: "seedbox".to_string(),
            check_interval: None,
            config: ClientConfigType::Exec(ExecClientConfig { command: "touch {}".to_string() }),
        }],
    };
    assert!(one.validate().is_ok());
}

/// A faithful downstream that counts how often it is written to.
struct CountingClient {
    port: Option<u64>,
    writes: usize,
}

impl PortClient for CountingClient {
    fn spec_port(&self) -> Option<u64> {
        self.port
    }

    fn get_port(&self) -> Result<Option<u64>, PortError> {
        Ok(self.port)
    }

    fn set_port(&mut self, port: u64) -> Result<(), PortError> {
        self.writes += 1;
        self.port = Some(port);
        Ok(())
    }
}

/// A downstream whose every update fails.
struct BrokenClient;

impl PortClient for BrokenClient {
    fn spec_port(&self) -> Option<u64> {
        None
    }

    fn get_port(&self) -> Result<Option<u64>, PortError> {
        Err(PortError::new(ErrorKind::Downstream, "unreachable"))
    }

    fn set_port(&mut self, _port: u64) -> Result<(), PortError> {
        Err(PortError::new(ErrorKind::Downstream, "unreachable"))
    }
}

#[test]
fn updating_twice_with_the_same_port_writes_once() {
    let mut client = CountingClient { port: None, writes: 0 };
    assert_eq!(client.update_port(7000).unwrap(), true);
    assert_eq!(client.update_port(7000).unwrap(), false);
    assert_eq!(client.writes, 1);
}

#[test]
fn updating_an_already_matching_port_writes_nothing() {
    let mut client = CountingClient { port: Some(7000), writes: 0 };
    assert_eq!(client.update_port(7000).unwrap(), false);
    assert_eq!(client.writes, 0);
    assert_eq!(client.update_port(7001).unwrap(), true);
    assert_eq!(client.writes, 1);
}

#[test]
fn unknown_current_port_always_writes() {
    let mut client = CountingClient { port: None, writes: 0 };
    assert_eq!(client.update_port(7000).unwrap(), true);
    let mut random = CountingClient { port: None, writes: 0 };
    // a downstream reporting no comparable port is always written
    random.port = None;
    assert_eq!(random.update_port(9999).unwrap(), true);
}

#[test]
fn timed_client_remembers_the_desired_port() {
    let inner = CountingClient { port: None, writes: 0 };
    let mut timed = TimedPortClient::new(inner, "seedbox", Some(300));
    assert_eq!(timed.name(), "seedbox");
    assert_eq!(timed.check_interval(), Some(300));
    assert_eq!(timed.port(), None);
    // nothing desired yet: a bare recheck writes nothing
    assert_eq!(timed.update(None).unwrap(), false);
    assert_eq!(timed.update(Some(7000)).unwrap(), true);
    assert_eq!(timed.port(), Some(7000));
    // a recheck re-asserts the remembered port without a write
    assert_eq!(timed.update(None).unwrap(), false);
}

enum Either {
    Good(CountingClient),
    Bad(BrokenClient),
}

impl PortClient for Either {
    fn spec_port(&self) -> Option<u64> {
        match self {
            Either::Good(c) => c.spec_port(),
            Either::Bad(c) => c.spec_port(),
        }
    }

    fn get_port(&self) -> Result<Option<u64>, PortError> {
        match self {
            Either::Good(c) => c.get_port(),
            Either::Bad(c) => c.get_port(),
        }
    }
    fn set_port(&mut self, port: u64) -> Result<(), PortError> {
        match self {
            Either::Good(c) => c.set_port(port),
            Either::Bad(c) => c.set_port(port),
        }
    }
}

#[test]
fn one_failing_client_never_blocks_the_others() {
    let mut clients = vec![
        TimedPortClient::new(Either::Bad(BrokenClient), "broken", None),
        TimedPortClient::new(Either::Good(CountingClient { port: None, writes: 0 }), "good", None),
    ];
    let results = fan_out(&mut clients, 7000);
    assert_eq!(results.len(), 2);
    assert!(results[0].is_err());
    assert_eq!(*results[1].as_ref().unwrap(), true);
    // both clients now intend the chosen port
    assert_eq!(clients[0].port(), Some(7000));
    assert_eq!(clients[1].port(), Some(7000));
    assert_eq!(clients[1].name(), "good");
}

#[test]
fn deluge_setup_normalizes_the_url() {
    let config = ClientConfigType::Deluge(DelugeClientConfig {
        url: "http://host:8112".to_string(),
        password: "pw".to_string(),
    });
    match create_port_client(&config).unwrap() {
        ClientSetup::Deluge(d) => {
            assert_eq!(d.url(), "http://host:8112/json");
            assert_eq!(d.password(), "pw");
        }
        other => panic!("wrong setup: {:?}", other),
    }
}

#[test]
fn qbittorrent_setup_normalizes_the_url() {
    let config = ClientConfigType::QBittorrent(QBittorrentClientConfig {
        url: "http://host:8080/".to_string(),
        username: "admin".to_string(),
        password: "pw".to_string(),
    });
    match create_port_client(&config).unwrap() {
        ClientSetup::QBittorrent(q) => assert_eq!(q.url(), "http://host:8080/api/v2"),
        other => panic!("wrong setup: {:?}", other),
    }
}

#[test]
fn transmission_credentials_must_come_in_pairs() {
    let lone = ClientConfigType::Transmission(TransmissionClientConfig {
        url: "http://host:9091".to_string(),
        username: Some("u".to_string()),
        password: None,
    });
    let err = create_port_client(&lone).unwrap_err();
    assert_eq!(err.kind, ErrorKind::Parse);

    let none = ClientConfigType::Transmission(TransmissionClientConfig {
        url: "http://host:9091".to_string(),
        username: None,
        password: None,
    });
    match create_port_client(&none).unwrap() {
        ClientSetup::Transmission(t) => {
            assert_eq!(t.url(), "http://host:9091/transmission/rpc");
            assert!(t.credentials().is_none());
        }
        other => panic!("wrong setup: {:?}", other),
    }

    let both = ClientConfigType::Transmission(TransmissionClientConfig {
        url: "http://host:9091/transmission/rpc".to_string(),
        username: Some("u".to_string()),
        password: Some("p".to_string()),
    });
    match create_port_client(&both).unwrap() {
        ClientSetup::Transmission(t) => {
            assert_eq!(t.url(), "http://host:9091/transmission/rpc");
            assert_eq!(t.credentials().as_ref().unwrap().username, "u");
        }
        other => panic!("wrong setup: {:?}", other),
    }
}

#[test]
fn exec_command_needs_the_placeholder() {
    let missing = ClientConfigType::Exec(ExecClientConfig {
        command: "notify-send port".to_string(),
    });
    let err = create_port_client(&missing).unwrap_err();
    assert_eq!(err.kind, ErrorKind::Parse);

    let good = ClientConfigType::Exec(ExecClientConfig {
        command: "firewall-cmd --add-port '{}/tcp'".to_string(),
    });
    match create_port_client(&good).unwrap() {
        ClientSetup::Exec(e) => {
            assert_eq!(e.command(), "firewall-cmd");
            assert_eq!(e.build_invocation(6543), vec!["--add-port", "6543/tcp"]);
        }
        other => panic!("wrong setup: {:?}", other),
    }
}
