use snp::certificate::SERVER_NAME;
use snp::client::{ClientError, IpFamily, SnpClient};
use snp::config::{ClientConfig, TlsConfig, Transport};
use snp::server::{handle_connection, ConnectionAction, ConnectionEvent, IncomingAction, SnpServer};
use snp::setup::{accept_bi, SetupAction, SetupEvent, SetupFailure, SetupState};
use snp::tls::TlsError;
use snp::wire::{Command, Request};

type Event = ConnectionEvent<u8, &'static str>;

fn client(version: &str) -> SnpClient {
    let config = ClientConfig {
        bind: "0.0.0.0:0".to_string(),
        server_ip_version: version.to_string(),
        server: "server:443".to_string(),
        tls: TlsConfig { key: None, cert: "pem".to_string() },
        rules: vec![],
        transport: "quic".to_string(),
        reconnect_interval: 5,
        max_reconnect_attempts: 0,
    };
    match SnpClient::new(config) {
        Ok(client) => client,
        Err(e) => panic!("{}", e.message()),
    }
}

fn some_server() -> SnpServer {
    let files = match snp::certificate::gentls() {
        Ok(files) => files,
        Err(e) => panic!("{}", e),
    };
    let text = |i: usize| match &files[i].contents {
        Ok(text) => text.clone(),
        Err(e) => panic!("{}", e),
    };
    let tls = TlsConfig { key: Some(text(1)), cert: text(0) };
    let config = snp::config::ServerConfig {
        bind: "127.0.0.1:443".to_string(),
        tls,
        transport: "quic".to_string(),
    };
    match SnpServer::new(config) {
        Ok(server) => server,
        Err(_) => panic!("the material is good"),
    }
}

#[test]
fn the_server_serves_every_request() {
    let requests = vec![
        (Request::Forward { target: "t".to_string() }, Command::Forward),
        (
            Request::ReverseForward { bind: "b".to_string(), forward: "f".to_string() },
            Command::ReverseForward,
        ),
        (Request::ReverseSocks5 { bind: "b".to_string() }, Command::ReverseSocks5),
    ];
    for (request, expected) in requests {
        let code = request.encode()[0];
        match handle_connection(Event::CommandRead { stream: 4, code }) {
            ConnectionAction::Serve { command, stream } => {
                assert_eq!(command, expected);
                assert_eq!(stream, 4);
            }
            _ => panic!("the request is served"),
        }
    }
}

#[test]
fn an_unknown_command_is_passed_over() {
    assert!(matches!(
        handle_connection(Event::CommandRead { stream: 4, code: 11 }),
        ConnectionAction::Ignore(4)
    ));
}

#[test]
fn a_connection_ends_and_fails() {
    assert!(matches!(
        handle_connection(Event::Accepted(4)),
        ConnectionAction::ReadCommand(4)
    ));
    assert!(matches!(
        handle_connection(Event::AcceptEnded),
        ConnectionAction::Finish { cancel: true }
    ));
    assert!(matches!(
        handle_connection(Event::AcceptFailed("lost")),
        ConnectionAction::Fail { error: "lost", cancel: true }
    ));
    assert!(matches!(
        handle_connection(Event::CommandFailed("eof")),
        ConnectionAction::Fail { error: "eof", cancel: false }
    ));
}

#[test]
fn the_server_takes_what_comes_in() {
    let server = some_server();
    assert!(matches!(server.run_quic::<u8, &str>(Some(1)), IncomingAction::Serve(1)));
    assert!(matches!(server.run_quic::<u8, &str>(None), IncomingAction::Finish));
    assert!(matches!(server.run_mux::<u8, &str>(Ok(1)), IncomingAction::Serve(1)));
    assert!(matches!(server.run_mux::<u8, &str>(Err("lost")), IncomingAction::Fail("lost")));
}

#[test]
fn a_server_is_made_of_its_settings() {
    let config = snp::config::ServerConfig {
        bind: "b".to_string(),
        tls: TlsConfig { key: None, cert: "".to_string() },
        transport: "tcp".to_string(),
    };
    assert!(matches!(
        SnpServer::with_tls(config, Err(TlsError::NoKey)),
        Err(TlsError::NoKey)
    ));
}

fn quic_step(
    client: &SnpClient,
    state: SetupState,
    event: SetupEvent<u8, &'static str>,
) -> (SetupState, SetupAction<u8, &'static str>) {
    assert!(state.takes(Transport::Quic, &event));
    client.run_quic_session(state, event)
}

fn mux_step(
    client: &SnpClient,
    state: SetupState,
    event: SetupEvent<u8, &'static str>,
) -> (SetupState, SetupAction<u8, &'static str>) {
    assert!(state.takes(Transport::Tcp, &event));
    client.run_mux_session(state, event)
}

#[test]
fn a_quic_session_checks_the_server_first() {
    let client = client("ipv4");
    let (state, action) = client.start_session(Transport::Quic);
    assert!(matches!(action, SetupAction::<u8, &str>::Bind));
    let (state, action) = quic_step(&client, state, SetupEvent::Bound);
    assert!(matches!(action, SetupAction::LoadTls));
    let (state, action) = quic_step(&client, state, SetupEvent::TlsLoaded(Ok(9)));
    assert!(matches!(action, SetupAction::Resolve { tls: 9 }));
    let families = vec![IpFamily::V6, IpFamily::V4];
    let (state, action) = quic_step(&client, state, SetupEvent::Resolved(families));
    match action {
        SetupAction::ConnectQuic { index, name } => {
            assert_eq!(index, 1);
            assert_eq!(name, SERVER_NAME);
        }
        _ => panic!("the client connects"),
    }
    let (state, action) = quic_step(&client, state, SetupEvent::Connected);
    assert!(matches!(action, SetupAction::RunSession));
    let (state, action) = quic_step(&client, state, SetupEvent::SessionEnded);
    assert!(matches!(action, SetupAction::Finish));
    assert_eq!(state, SetupState::Ended);
}

#[test]
fn a_tcp_session_checks_the_server_first() {
    let client = client("ipv6");
    let (state, action) = client.start_session(Transport::Tcp);
    assert!(matches!(action, SetupAction::<u8, &str>::LoadTls));
    let (state, action) = mux_step(&client, state, SetupEvent::TlsLoaded(Ok(9)));
    assert!(matches!(action, SetupAction::Resolve { tls: 9 }));
    let families = vec![IpFamily::V6, IpFamily::V4];
    let (state, action) = mux_step(&client, state, SetupEvent::Resolved(families));
    assert!(matches!(action, SetupAction::ConnectTcp { index: 0 }));
    let (state, action) = mux_step(&client, state, SetupEvent::Connected);
    match action {
        SetupAction::Handshake { name } => assert_eq!(name.to_str(), "snp"),
        _ => panic!("the handshake follows"),
    }
    assert!(!state.takes::<u8, &str>(Transport::Tcp, &SetupEvent::Connected));
    let (_, action) = mux_step(&client, state, SetupEvent::HandshakeDone);
    assert!(matches!(action, SetupAction::RunSession));
}

#[test]
fn a_session_fails_for_each_reason() {
    let client = client("ipv4");
    let (_, action) = quic_step(&client, SetupState::Binding, SetupEvent::Failed("in use"));
    assert!(matches!(action, SetupAction::Fail(SetupFailure::Io("in use"))));
    let no_tls = SetupEvent::TlsLoaded(Err(TlsError::NoKey));
    let (_, action) = mux_step(&client, SetupState::LoadingTls, no_tls);
    assert!(matches!(action, SetupAction::Fail(SetupFailure::Tls(TlsError::NoKey))));
    let (state, action) =
        mux_step(&client, SetupState::Resolving, SetupEvent::Resolved(vec![IpFamily::V6]));
    assert!(matches!(
        action,
        SetupAction::Fail(SetupFailure::Client(ClientError::CannotConnect))
    ));
    assert_eq!(state, SetupState::Ended);
    let (_, action) = mux_step(&client, SetupState::Handshaking, SetupEvent::Failed("bad name"));
    assert!(matches!(action, SetupAction::Fail(SetupFailure::Io("bad name"))));
}

#[test]
fn a_closed_quic_connection_has_no_more_streams() {
    assert_eq!(accept_bi::<u8, &str>(Ok(3)), Some(3));
    assert_eq!(accept_bi::<u8, &str>(Err("reset")), None);
}
