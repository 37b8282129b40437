use snp::socks5::{
    handle_socks5_connection, parse_target, Socks5Action, Socks5Error, Socks5Event, Socks5Failure,
    Socks5State, BUFFER_LEN,
};
use snp::wire::{Command, ReaderStep, Request, RequestReader};

type Action = Socks5Action<&'static str>;
type Event = Socks5Event<&'static str>;

fn filled(bytes: &[u8]) -> Vec<u8> {
    let mut buffer = vec![0u8; BUFFER_LEN];
    buffer[..bytes.len()].copy_from_slice(bytes);
    buffer
}

fn step(state: Socks5State, event: Event) -> (Socks5State, Action) {
    assert!(state.takes(&event));
    handle_socks5_connection(state, event)
}

fn after_greeting() -> Socks5State {
    let (state, action): (Socks5State, Action) = Socks5State::start();
    assert!(matches!(action, Socks5Action::ReadClient(256)));
    let (state, action) = step(state, Socks5Event::Read(vec![5, 1, 0]));
    match action {
        Socks5Action::WriteClient(bytes) => assert_eq!(bytes, vec![5, 0]),
        _ => panic!("the greeting is answered"),
    }
    let (state, action) = step(state, Socks5Event::Written);
    assert!(matches!(action, Socks5Action::ReadClient(256)));
    state
}

#[test]
fn a_request_for_an_ipv4_address_gives_it() {
    let buffer = filled(&[5, 1, 0, 1, 192, 168, 0, 10, 0x1f, 0x90]);
    assert_eq!(parse_target(&buffer), Ok("192.168.0.10:8080".to_string()));
}

#[test]
fn a_request_for_a_domain_gives_it() {
    let buffer = filled(&[5, 1, 0, 3, 4, b'h', b'o', b's', b't', 0x01, 0xbb]);
    assert_eq!(parse_target(&buffer), Ok("host:443".to_string()));
    let empty = filled(&[5, 1, 0, 3, 0, 0, 80]);
    assert_eq!(parse_target(&empty), Ok(":80".to_string()));
}

#[test]
fn a_domain_that_is_no_utf8_is_made_readable() {
    let buffer = filled(&[5, 1, 0, 3, 2, 0xff, b'x', 0, 80]);
    assert_eq!(parse_target(&buffer), Ok("\u{fffd}x:80".to_string()));
}

#[test]
fn the_longest_domain_is_read() {
    let mut bytes = vec![5, 1, 0, 3, 249];
    bytes.extend_from_slice(&[b'a'; 249]);
    bytes.extend_from_slice(&[1, 2]);
    assert_eq!(bytes.len(), BUFFER_LEN);
    assert_eq!(parse_target(&bytes), Ok(format!("{}:258", "a".repeat(249))));
}

#[test]
fn a_longer_domain_is_not_taken() {
    let state = after_greeting();
    let mut bytes = vec![5, 1, 0, 3, 250];
    bytes.extend_from_slice(&[b'a'; 250]);
    bytes.push(0);
    let event: Event = Socks5Event::Read(bytes);
    assert!(!state.takes(&event));
}

#[test]
fn each_refusal_has_its_reason() {
    let version = parse_target(&filled(&[4, 1, 0, 1]));
    assert_eq!(version, Err(Socks5Error::InvalidRequest));
    let command = parse_target(&filled(&[5, 2, 0, 1]));
    assert_eq!(command, Err(Socks5Error::InvalidRequest));
    let ipv6 = parse_target(&filled(&[5, 1, 0, 4]));
    assert_eq!(ipv6, Err(Socks5Error::Ipv6NotSupported));
    let unknown = parse_target(&filled(&[5, 1, 0, 2]));
    assert_eq!(unknown, Err(Socks5Error::InvalidAddressType));
    assert_eq!(Socks5Error::InvalidVersion.message(), "Invalid SOCKS5 version");
    assert_eq!(Socks5Error::InvalidRequest.message(), "Invalid SOCKS5 request");
    assert_eq!(Socks5Error::Ipv6NotSupported.message(), "IPv6 not supported");
    assert_eq!(Socks5Error::InvalidAddressType.message(), "Invalid address type");
}

#[test]
fn a_greeting_of_another_version_ends_the_exchange() {
    let (state, _): (Socks5State, Action) = Socks5State::start();
    let (state, action) = step(state, Socks5Event::Read(vec![4, 1]));
    assert!(matches!(state, Socks5State::Ended));
    assert!(matches!(
        action,
        Socks5Action::Fail(Socks5Failure::Refused(Socks5Error::InvalidVersion))
    ));
    assert!(!state.takes::<&str>(&Socks5Event::Written));
}

#[test]
fn a_client_that_sends_nothing_is_turned_away() {
    let (state, _): (Socks5State, Action) = Socks5State::start();
    let (_, action) = step(state, Socks5Event::Read(vec![]));
    assert!(matches!(
        action,
        Socks5Action::Fail(Socks5Failure::Refused(Socks5Error::InvalidVersion))
    ));
}

#[test]
fn the_request_is_read_over_the_greeting() {
    // Only the first byte is new; the others are those of the greeting.
    let (state, _): (Socks5State, Action) = Socks5State::start();
    let (state, _) = step(state, Socks5Event::Read(vec![5, 1, 0, 1, 10, 0, 0, 1, 0, 22]));
    let (state, _) = step(state, Socks5Event::Written);
    let (state, action) = step(state, Socks5Event::Read(vec![5]));
    assert!(matches!(action, Socks5Action::Open));
    match state {
        Socks5State::Opening { target } => assert_eq!(target, "10.0.0.1:22"),
        _ => panic!("a stream is opened"),
    }
}

#[test]
fn a_whole_exchange_counts_one_connection() {
    let mut count = 0;
    let state = after_greeting();
    let (state, action) =
        step(state, Socks5Event::Read(vec![5, 1, 0, 3, 4, b'h', b'o', b's', b't', 0, 80]));
    assert!(matches!(action, Socks5Action::Open));
    let (state, action) = step(state, Socks5Event::Opened);
    let sent = match action {
        Socks5Action::SendRequest(bytes) => bytes,
        _ => panic!("the target is sent"),
    };
    assert_eq!(sent, b"\x0a\x00\x07host:80");
    let (state, action) = step(state, Socks5Event::Written);
    match action {
        Socks5Action::WriteClient(bytes) => assert_eq!(bytes, vec![5, 0, 0, 1, 0, 0, 0, 0, 0, 0]),
        _ => panic!("the request is answered"),
    }
    let (state, action) = step(state, Socks5Event::Written);
    if let Socks5Action::Relay = action {
        count += 1;
    }
    assert_eq!(count, 1);
    let (state, action) = step(state, Socks5Event::RelayEnded);
    if let Socks5Action::Finish = action {
        count -= 1;
    }
    assert_eq!(count, 0);
    assert!(matches!(state, Socks5State::Ended));
}

#[test]
fn the_peer_reads_the_target_that_was_asked_for() {
    let state = after_greeting();
    let (state, _) = step(state, Socks5Event::Read(vec![5, 1, 0, 1, 1, 2, 3, 4, 0, 53]));
    let (_, action) = step(state, Socks5Event::Opened);
    let sent = match action {
        Socks5Action::SendRequest(bytes) => bytes,
        _ => panic!("the target is sent"),
    };
    assert_eq!(Command::from_code(sent[0]), Some(Command::Forward));
    let reader = RequestReader::new(Command::Forward);
    let reader = match reader.feed(&sent[1..3]) {
        ReaderStep::More(reader) => reader,
        _ => panic!("the length is not the field"),
    };
    assert_eq!(reader.needed(), sent.len() - 3);
    match reader.feed(&sent[3..]) {
        ReaderStep::Done(Request::Forward { target }) => assert_eq!(target, "1.2.3.4:53"),
        _ => panic!("the target arrives"),
    }
}

#[test]
fn a_refused_client_opens_no_stream() {
    let state = after_greeting();
    let (state, action) = step(state, Socks5Event::Read(vec![5, 1, 0, 4]));
    assert!(matches!(state, Socks5State::Ended));
    assert!(matches!(
        action,
        Socks5Action::Fail(Socks5Failure::Refused(Socks5Error::Ipv6NotSupported))
    ));
}

#[test]
fn a_failed_read_ends_the_socks5_exchange() {
    let state = after_greeting();
    let (state, action) = step(state, Socks5Event::Failed("lost"));
    assert!(matches!(state, Socks5State::Ended));
    assert!(matches!(action, Socks5Action::Fail(Socks5Failure::Io("lost"))));
}

#[test]
fn the_longest_unreadable_domain_arrives() {
    let state = after_greeting();
    let mut bytes = vec![5, 1, 0, 3, 249];
    bytes.extend_from_slice(&[0xff; 249]);
    bytes.extend_from_slice(&[0, 80]);
    let (state, _) = step(state, Socks5Event::Read(bytes));
    let (_, action) = step(state, Socks5Event::Opened);
    let sent = match action {
        Socks5Action::SendRequest(bytes) => bytes,
        _ => panic!("the target is sent"),
    };
    let reader = match RequestReader::new(Command::Forward).feed(&sent[1..3]) {
        ReaderStep::More(reader) => reader,
        _ => panic!("the length is not the field"),
    };
    assert_eq!(reader.needed(), 3 * 249 + 3);
    match reader.feed(&sent[3..]) {
        ReaderStep::Done(Request::Forward { target }) => {
            assert_eq!(target, format!("{}:80", "\u{fffd}".repeat(249)));
        }
        _ => panic!("the target arrives"),
    }
}
