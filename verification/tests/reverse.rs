use snp::reverse::{
    handle_reverse_proxy, handle_reverse_socks5, start_reverse_forward, start_reverse_socks5,
    AskAction, AskEvent, AskState, ServeAction, ServeEvent, ServeFailure, ServeState,
};
use snp::wire::Command;

type Serve = ServeAction<&'static str>;

fn ask(state: AskState, event: AskEvent<&'static str>) -> (AskState, AskAction<&'static str>) {
    assert!(state.takes(&event));
    state.next(event)
}

fn serve_all(start: (ServeState, Serve), bytes: &[u8]) -> (ServeState, Serve) {
    let (mut state, mut action) = start;
    let mut at = 0;
    while let ServeAction::Read(count) = action {
        let event: ServeEvent<&'static str> = ServeEvent::Read(bytes[at..at + count].to_vec());
        at += count;
        assert!(state.takes(&event));
        let (next_state, next_action) = state.next(event);
        state = next_state;
        action = next_action;
    }
    assert_eq!(at, bytes.len());
    (state, action)
}

fn sent(start: (AskState, AskAction<&'static str>)) -> Vec<u8> {
    assert!(matches!(start.1, AskAction::Open));
    let (state, action) = ask(start.0, AskEvent::Opened);
    let bytes = match action {
        AskAction::SendRequest(bytes) => bytes,
        _ => panic!("the request is sent"),
    };
    let (state, action) = ask(state, AskEvent::Written);
    assert!(matches!(action, AskAction::Finish));
    assert!(matches!(state, AskState::Ended));
    bytes
}

#[test]
fn a_reverse_forward_request_arrives() {
    let bytes = sent(start_reverse_forward("0.0.0.0:80".to_string(), "web:8080".to_string()));
    assert_eq!(bytes, b"\x14\x00\x0a0.0.0.0:80\x00\x08web:8080");
    assert_eq!(Command::from_code(bytes[0]), Some(Command::ReverseForward));
    let (state, action) = serve_all(handle_reverse_proxy(), &bytes[1..]);
    match action {
        ServeAction::Forward { bind, forward } => {
            assert_eq!(bind, "0.0.0.0:80");
            assert_eq!(forward, "web:8080");
        }
        _ => panic!("the request is served"),
    }
    let event: ServeEvent<&str> = ServeEvent::ServiceEnded;
    assert!(state.takes(&event));
    let (state, action) = state.next(event);
    assert!(matches!(action, ServeAction::Finish));
    assert!(matches!(state, ServeState::Ended));
}

#[test]
fn a_reverse_socks5_request_arrives() {
    let bytes = sent(start_reverse_socks5("[::]:1080".to_string()));
    assert_eq!(bytes, b"\x15\x00\x09[::]:1080");
    let (_, action) = serve_all(handle_reverse_socks5(), &bytes[1..]);
    match action {
        ServeAction::Socks5 { bind } => assert_eq!(bind, "[::]:1080"),
        _ => panic!("the request is served"),
    }
}

#[test]
fn a_cancelled_request_is_not_sent() {
    let (state, _) = start_reverse_socks5::<&str>("x".to_string());
    let (state, action) = ask(state, AskEvent::Cancelled);
    assert!(matches!(action, AskAction::Finish));
    assert!(matches!(state, AskState::Ended));
}

#[test]
fn a_request_can_fail_twice() {
    let (state, _) = start_reverse_socks5::<&str>("x".to_string());
    let (_, action) = ask(state, AskEvent::Failed("no stream"));
    assert!(matches!(action, AskAction::Fail("no stream")));
    let (state, _) = start_reverse_socks5::<&str>("x".to_string());
    let (state, _) = ask(state, AskEvent::Opened);
    assert!(!state.takes(&AskEvent::<&str>::Cancelled));
    let (_, action) = ask(state, AskEvent::Failed("lost"));
    assert!(matches!(action, AskAction::Fail("lost")));
}

#[test]
fn an_address_that_is_no_utf8_is_refused() {
    let (state, _) = handle_reverse_proxy::<&str>();
    let (state, action) = state.next(ServeEvent::<&str>::Read(vec![0, 1]));
    assert!(matches!(action, ServeAction::Read(1)));
    let (state, action) = state.next(ServeEvent::<&str>::Read(vec![0xff]));
    match action {
        ServeAction::Fail(ServeFailure::InvalidUtf8(e)) => {
            assert_eq!(Err(e), std::str::from_utf8(&[0xff]));
        }
        _ => panic!("the address is refused"),
    }
    assert!(matches!(state, ServeState::Ended));
}

#[test]
fn a_request_that_breaks_off_fails() {
    let (state, _) = handle_reverse_socks5::<&str>();
    let (_, action) = state.next(ServeEvent::Failed("eof"));
    assert!(matches!(action, ServeAction::Fail(ServeFailure::Io("eof"))));
}
