use snp::client::{
    start_reverse_server, ClientError, IpFamily, ReverseAction, ReverseEvent, RuleTask, RunAction,
    RunEvent, RunFailure, RunPhase, RunState, SessionAction, SessionEvent, SnpClient,
};
use snp::config::{ClientConfig, Rule, TlsConfig, Transport};

fn config(version: &str, transport: &str, interval: u64, max: u32) -> ClientConfig {
    ClientConfig {
        bind: "0.0.0.0:0".to_string(),
        server_ip_version: version.to_string(),
        server: "server:443".to_string(),
        tls: TlsConfig { key: None, cert: "pem".to_string() },
        rules: vec![
            Rule::ClientToServerForward { bind: "a".to_string(), forward: "b".to_string() },
            Rule::ClientToServerSocks5 { bind: "c".to_string() },
            Rule::ServerToClientForward { bind: "d".to_string(), forward: "e".to_string() },
            Rule::ServerToClientSocks5 { bind: "f".to_string() },
        ],
        transport: transport.to_string(),
        reconnect_interval: interval,
        max_reconnect_attempts: max,
    }
}

fn client(version: &str, transport: &str, interval: u64, max: u32) -> SnpClient {
    match SnpClient::new(config(version, transport, interval, max)) {
        Ok(client) => client,
        Err(e) => panic!("{}", e.message()),
    }
}

fn step(
    client: &SnpClient,
    state: RunState,
    event: RunEvent<&'static str>,
) -> (RunState, RunAction<&'static str>) {
    assert!(state.takes(&event));
    client.run(state, event)
}

#[test]
fn a_client_keeps_its_settings() {
    let client = client("ipv6", "tcp", 7, 3);
    assert_eq!(client.bind, "0.0.0.0:0");
    assert_eq!(client.server_addr, "server:443");
    assert_eq!(client.server_ip_version, "ipv6");
    assert_eq!(client.tlsconfig.cert, "pem");
    assert_eq!(client.rules.len(), 4);
    assert_eq!(client.transport, "tcp");
    assert_eq!(client.reconnect_interval, 7);
    assert_eq!(client.max_reconnect_attempts, 3);
}

#[test]
fn the_limit_on_attempts_is_kept() {
    let client = client("ipv4", "quic", 5, 2);
    let mut sessions = 0;
    let mut pauses = 0;
    let (mut state, mut action) = SnpClient::start::<&'static str>();
    loop {
        let event = match action {
            RunAction::Check => RunEvent::Checked { cancelled: false },
            RunAction::Pause(secs) => {
                assert_eq!(secs, 5);
                pauses += 1;
                RunEvent::Paused
            }
            RunAction::StartSession(transport) => {
                assert_eq!(transport, Transport::Quic);
                sessions += 1;
                RunEvent::SessionEnded { result: Err("lost"), cancelled: false }
            }
            RunAction::Finish => panic!("nobody asked it to stop"),
            RunAction::Fail(failure) => {
                assert!(matches!(
                    failure,
                    RunFailure::Client(ClientError::MaxReconnectAttempts)
                ));
                break;
            }
        };
        let (next_state, next_action) = step(&client, state, event);
        state = next_state;
        action = next_action;
    }
    assert_eq!(sessions, 2);
    assert_eq!(pauses, 1);
    assert_eq!(state, RunState { attempt: 2, phase: RunPhase::Ended });
}

#[test]
fn without_a_limit_the_client_goes_on() {
    let client = client("ipv4", "tcp", 1, 0);
    let mut state = RunState { attempt: 0, phase: RunPhase::Checking };
    let mut sessions = 0;
    while sessions < 1000 {
        let (next, action) = step(&client, state, RunEvent::Checked { cancelled: false });
        state = next;
        if sessions > 0 {
            assert!(matches!(action, RunAction::Pause(1)));
            let (next, action) = step(&client, state, RunEvent::Paused);
            state = next;
            assert!(matches!(action, RunAction::StartSession(Transport::Tcp)));
        } else {
            assert!(matches!(action, RunAction::StartSession(Transport::Tcp)));
        }
        let ended = RunEvent::SessionEnded { result: Ok(()), cancelled: false };
        let (next, action) = step(&client, state, ended);
        state = next;
        assert!(matches!(action, RunAction::Check));
        sessions += 1;
    }
    assert_eq!(state.attempt, 1000);
}

#[test]
fn a_client_that_is_to_stop_stops() {
    let client = client("ipv4", "quic", 5, 1);
    let checking = RunState { attempt: 1, phase: RunPhase::Checking };
    let (state, action) = step(&client, checking, RunEvent::Checked { cancelled: true });
    assert!(matches!(action, RunAction::Finish));
    assert_eq!(state.phase, RunPhase::Ended);
    let running = RunState { attempt: 0, phase: RunPhase::InSession };
    let ended = RunEvent::SessionEnded { result: Ok(()), cancelled: true };
    assert!(matches!(step(&client, running, ended).1, RunAction::Finish));
    let ended = RunEvent::SessionEnded { result: Err("lost"), cancelled: true };
    assert!(matches!(
        step(&client, running, ended).1,
        RunAction::Fail(RunFailure::Session("lost"))
    ));
}

#[test]
fn the_count_of_attempts_does_not_wrap() {
    let full = RunState { attempt: u32::MAX, phase: RunPhase::InSession };
    let ended: RunEvent<&str> = RunEvent::SessionEnded { result: Ok(()), cancelled: false };
    assert!(!full.takes(&ended));
}

#[test]
fn the_first_address_of_the_family_is_chosen() {
    let addresses = vec![IpFamily::V6, IpFamily::V4, IpFamily::V4, IpFamily::V6];
    assert_eq!(client("ipv4", "quic", 5, 0).choose_address(&addresses), Ok(1));
    assert_eq!(client("ipv6", "quic", 5, 0).choose_address(&addresses), Ok(0));
    assert_eq!(
        client("any", "quic", 5, 0).choose_address(&addresses),
        Err(ClientError::CannotConnect)
    );
    assert_eq!(
        client("ipv4", "quic", 5, 0).choose_address(&vec![IpFamily::V6]),
        Err(ClientError::CannotConnect)
    );
}

#[test]
fn each_rule_has_its_task() {
    let tasks = client("ipv4", "quic", 5, 0).start_rules();
    assert_eq!(tasks.len(), 4);
    match &tasks[0] {
        RuleTask::ForwardClient { bind, forward } => {
            assert_eq!(bind, "a");
            assert_eq!(forward, "b");
        }
        _ => panic!("a forward"),
    }
    match &tasks[1] {
        RuleTask::Socks5Client { bind } => assert_eq!(bind, "c"),
        _ => panic!("a SOCKS5 client"),
    }
    match &tasks[2] {
        RuleTask::ReverseForward { bind, forward } => {
            assert_eq!(bind, "d");
            assert_eq!(forward, "e");
        }
        _ => panic!("a reverse forward"),
    }
    match &tasks[3] {
        RuleTask::ReverseSocks5 { bind } => assert_eq!(bind, "f"),
        _ => panic!("a reverse SOCKS5"),
    }
}

#[test]
fn a_session_starts_its_rules_and_ends() {
    let client = client("ipv4", "quic", 5, 0);
    match client.run_session(SessionEvent::Established) {
        SessionAction::Start { tasks } => assert_eq!(tasks.len(), 4),
        _ => panic!("the rules are started"),
    }
    assert!(matches!(
        client.run_session(SessionEvent::Cancelled),
        SessionAction::Finish { cancel: false }
    ));
    assert!(matches!(
        client.run_session(SessionEvent::Closed),
        SessionAction::Finish { cancel: true }
    ));
}

#[test]
fn the_errors_of_a_client_have_words() {
    assert_eq!(ClientError::MaxReconnectAttempts.message(), "Max reconnect attempts reached");
    assert_eq!(ClientError::CannotConnect.message(), "Can not connect to server");
    assert_eq!(ClientError::InvalidServerName.message(), "Invalid server name");
}

#[test]
fn the_client_serves_only_forwards() {
    type Event = ReverseEvent<u8, &'static str>;
    assert!(matches!(
        start_reverse_server(Event::Accepted(1)),
        ReverseAction::ReadCommand(1)
    ));
    assert!(matches!(
        start_reverse_server(Event::CommandRead { stream: 1, code: 10 }),
        ReverseAction::Forward(1)
    ));
    assert!(matches!(
        start_reverse_server(Event::CommandRead { stream: 1, code: 20 }),
        ReverseAction::Ignore(1)
    ));
    assert!(matches!(
        start_reverse_server(Event::CommandRead { stream: 1, code: 0 }),
        ReverseAction::Ignore(1)
    ));
    assert!(matches!(start_reverse_server(Event::Cancelled), ReverseAction::Finish));
    assert!(matches!(start_reverse_server(Event::ConnectionClosed), ReverseAction::Finish));
    assert!(matches!(start_reverse_server(Event::AcceptEnded), ReverseAction::Finish));
    assert!(matches!(
        start_reverse_server(Event::AcceptFailed("lost")),
        ReverseAction::Fail { error: "lost", cancel: true }
    ));
    assert!(matches!(
        start_reverse_server(Event::CommandFailed("eof")),
        ReverseAction::Fail { error: "eof", cancel: false }
    ));
}
