use windscribe_ephemeral_port::command::{interpret_exit_status, ExecClient};
use windscribe_ephemeral_port::deluge::{
    build_port_config, check_deluge_response, choose_host, hosts_from_rows,
    interpret_login_result, DelugeClient, DelugeError, DelugeHost, JsonCell,
};
use windscribe_ephemeral_port::errors::ErrorKind;
use windscribe_ephemeral_port::qbittorrent::{
    build_set_preferences_request, interpret_login_body, port_from_preferences,
    relogin_on_forbidden, QBittorrentClient, QBittorrentPreferences,
};
use windscribe_ephemeral_port::session::{Attempt, RetryState};
use windscribe_ephemeral_port::transmission::{
    build_session_args, interpret_result_field, on_conflict, port_from_session_args,
    TransmissionClient, TransmissionSessionArgumentsPort,
};

#[test]
fn deluge_request_ids_count_up_and_recycle() {
    let mut client = DelugeClient::new("http://host", "pw");
    assert_eq!(client.get_next_request_id(), 1);
    assert_eq!(client.get_next_request_id(), 2);
    let mut last = 0;
    for _ in 0..0x1000 {
        last = client.get_next_request_id();
    }
    // after the window's end the sequence starts over at one
    assert_eq!(last, 2);
}

#[test]
fn deluge_response_ids_must_echo_the_request() {
    let mut flow = RetryState::new();
    let err = check_deluge_response(&mut flow, 7, 8, None, false).unwrap_err();
    assert_eq!(err.kind, ErrorKind::Protocol);
}

#[test]
fn deluge_not_authenticated_retries_once() {
    let not_auth = DelugeError { code: 1, message: "Not authenticated".to_string() };
    let mut flow = RetryState::new();
    match check_deluge_response(&mut flow, 7, 7, Some(&not_auth), false).unwrap() {
        Attempt::Retry => {}
        other => panic!("expected retry, got {:?}", other),
    }
    let err = check_deluge_response(&mut flow, 8, 8, Some(&not_auth), false).unwrap_err();
    assert_eq!(err.kind, ErrorKind::Protocol);
    // during the login call itself the error is never retried
    let mut flow = RetryState::new();
    let err = check_deluge_response(&mut flow, 9, 9, Some(&not_auth), true).unwrap_err();
    assert_eq!(err.kind, ErrorKind::Protocol);
    // a clean reply settles
    let mut flow = RetryState::new();
    assert!(matches!(
        check_deluge_response(&mut flow, 3, 3, None, false).unwrap(),
        Attempt::Settled(())
    ));
}

#[test]
fn deluge_login_result_is_a_boolean() {
    assert!(interpret_login_result(Some(true)).is_ok());
    assert_eq!(
        interpret_login_result(Some(false)).unwrap_err().kind,
        ErrorKind::Auth
    );
    assert_eq!(interpret_login_result(None).unwrap_err().kind, ErrorKind::Protocol);
}

#[test]
fn deluge_host_rows_are_validated() {
    let rows = vec![vec![
        JsonCell::Text("abc".to_string()),
        JsonCell::Text("127.0.0.1".to_string()),
        JsonCell::UInt(58846),
        JsonCell::Text("localhost".to_string()),
    ]];
    let hosts = hosts_from_rows(&rows).unwrap();
    assert_eq!(hosts.len(), 1);
    assert_eq!(hosts[0].id, "abc");
    assert_eq!(hosts[0].ip, "127.0.0.1");
    assert_eq!(hosts[0].port, 58846);
    assert_eq!(hosts[0].name, "localhost");

    let short = vec![vec![JsonCell::Text("abc".to_string())]];
    assert_eq!(hosts_from_rows(&short).unwrap_err().kind, ErrorKind::Protocol);
    let wrong = vec![vec![
        JsonCell::UInt(1),
        JsonCell::Text("x".to_string()),
        JsonCell::UInt(2),
        JsonCell::Text("y".to_string()),
    ]];
    assert_eq!(hosts_from_rows(&wrong).unwrap_err().kind, ErrorKind::Protocol);
}

#[test]
fn deluge_connects_to_the_given_or_first_host() {
    let hosts = vec![DelugeHost {
        id: "first".to_string(),
        ip: "h".to_string(),
        port: 1,
        name: "n".to_string(),
    }];
    assert_eq!(choose_host(&hosts, Some("given")).unwrap(), "given");
    assert_eq!(choose_host(&hosts, None).unwrap(), "first");
    let none: Vec<DelugeHost> = Vec::new();
    assert_eq!(choose_host(&none, None).unwrap_err().kind, ErrorKind::Protocol);
}

#[test]
fn deluge_port_config_pins_both_ends_of_the_range() {
    let config = build_port_config(false, 6543);
    assert_eq!(config.random_port, false);
    assert_eq!(config.listen_ports, [6543, 6543]);
}

#[test]
fn qbittorrent_login_body_is_read_literally() {
    assert!(interpret_login_body("Ok.").is_ok());
    assert_eq!(
        interpret_login_body("Fails.").unwrap_err().kind,
        ErrorKind::Auth
    );
    assert_eq!(
        interpret_login_body("<html>weird</html>").unwrap_err().kind,
        ErrorKind::Protocol
    );
}

#[test]
fn qbittorrent_preferences_payload_is_exact() {
    let req = build_set_preferences_request(6543);
    assert_eq!(req.json, "{\"listen_port\":6543}");
    let req = build_set_preferences_request(0);
    assert_eq!(req.json, "{\"listen_port\":0}");
}

#[test]
fn qbittorrent_zero_listen_port_means_randomized() {
    assert_eq!(
        port_from_preferences(&QBittorrentPreferences { listen_port: 0 }),
        None
    );
    assert_eq!(
        port_from_preferences(&QBittorrentPreferences { listen_port: 6543 }),
        Some(6543)
    );
}

#[test]
fn qbittorrent_relogins_once_on_forbidden() {
    let mut flow = RetryState::new();
    assert!(relogin_on_forbidden(&mut flow, 403));
    assert!(!relogin_on_forbidden(&mut flow, 403));
    let mut flow = RetryState::new();
    assert!(!relogin_on_forbidden(&mut flow, 200));
}

#[test]
fn qbittorrent_login_form_carries_the_credentials() {
    let client = QBittorrentClient::new("http://host:8080", "admin", "pw");
    let form = client.build_login_request();
    assert_eq!(form.username, "admin");
    assert_eq!(form.password, "pw");
}

#[test]
fn transmission_handshake_is_needed_only_without_a_session() {
    let mut client = TransmissionClient::new("http://host:9091", None);
    assert!(client.needs_handshake(false));
    assert!(!client.needs_handshake(true));
    client.note_session_header(Some("sess-1"));
    assert!(!client.needs_handshake(false));
    assert_eq!(client.session_id().unwrap(), "sess-1");
    // a later header wins
    client.note_session_header(Some("sess-2"));
    assert_eq!(client.session_id().unwrap(), "sess-2");
    client.note_session_header(None);
    assert_eq!(client.session_id().unwrap(), "sess-2");
}

#[test]
fn transmission_conflict_retries_once_with_a_session() {
    let mut flow = RetryState::new();
    match on_conflict(&mut flow, true).unwrap() {
        Attempt::Retry => {}
        other => panic!("expected retry, got {:?}", other),
    }
    assert_eq!(on_conflict(&mut flow, true).unwrap_err().kind, ErrorKind::Protocol);
    // without a session identifier the handshake is broken outright
    let mut flow = RetryState::new();
    assert_eq!(on_conflict(&mut flow, false).unwrap_err().kind, ErrorKind::Protocol);
}

#[test]
fn transmission_result_field_must_be_success() {
    assert!(interpret_result_field("success").is_ok());
    assert_eq!(
        interpret_result_field("bad request").unwrap_err().kind,
        ErrorKind::Protocol
    );
}

#[test]
fn transmission_port_is_unknown_when_randomized() {
    let randomized = TransmissionSessionArgumentsPort {
        peer_port: 51413,
        peer_port_random_on_start: true,
    };
    assert_eq!(port_from_session_args(&randomized), None);
    let pinned = build_session_args(false, 6543);
    assert_eq!(port_from_session_args(&pinned), Some(6543));
}

#[test]
fn exec_arguments_substitute_every_placeholder() {
    let client = ExecClient::new("announce --port {} --alt {}").unwrap();
    assert_eq!(client.command(), "announce");
    assert_eq!(
        client.build_invocation(6543),
        vec!["--port", "6543", "--alt", "6543"]
    );
}

#[test]
fn exec_rejects_bad_command_lines() {
    assert_eq!(
        ExecClient::new("cmd 'unclosed").unwrap_err().kind,
        ErrorKind::Parse
    );
    assert_eq!(ExecClient::new("").unwrap_err().kind, ErrorKind::Parse);
    assert_eq!(
        ExecClient::new("cmd --no-placeholder").unwrap_err().kind,
        ErrorKind::Parse
    );
}

#[test]
fn exit_codes_other_than_zero_are_failures() {
    assert!(interpret_exit_status(Some(0)).is_ok());
    assert_eq!(
        interpret_exit_status(Some(3)).unwrap_err().kind,
        ErrorKind::Downstream
    );
    assert_eq!(
        interpret_exit_status(None).unwrap_err().kind,
        ErrorKind::Downstream
    );
}
