use snp::forward::{
    handle_forward_with_cmd, handle_tcp_to_stream, ForwardAction, ForwardError, ForwardEvent,
    ForwardFailure, ForwardState, TunnelAction, TunnelEvent, TunnelState, CONNECT_TIMEOUT_SECS,
    RESOLVE_TIMEOUT_SECS,
};
use snp::wire::Command;

type Action = ForwardAction<u32, &'static str>;
type Event = ForwardEvent<u32, &'static str>;

fn step(state: ForwardState, event: Event) -> (ForwardState, Action) {
    assert!(state.takes(&event));
    handle_forward_with_cmd(state, event)
}

fn tunnel(
    state: TunnelState,
    event: TunnelEvent<&'static str>,
) -> (TunnelState, TunnelAction<&'static str>) {
    assert!(state.takes(&event));
    handle_tcp_to_stream(state, event)
}

fn resolving() -> ForwardState {
    let (state, action): (ForwardState, Action) = ForwardState::start();
    assert!(matches!(action, ForwardAction::Read(2)));
    let (state, action) = step(state, ForwardEvent::Read(vec![0, 4]));
    assert!(matches!(action, ForwardAction::Read(4)));
    let (state, action) = step(state, ForwardEvent::Read(b"h:80".to_vec()));
    match action {
        ForwardAction::Resolve { target, timeout_secs } => {
            assert_eq!(target, "h:80");
            assert_eq!(timeout_secs, 10);
        }
        _ => panic!("the target is resolved"),
    }
    state
}

#[test]
fn both_timeouts_are_ten_seconds() {
    assert_eq!(RESOLVE_TIMEOUT_SECS, 10);
    assert_eq!(CONNECT_TIMEOUT_SECS, 10);
}

#[test]
fn a_forward_connects_to_the_first_address() {
    let mut count = 0;
    let (state, action) = step(resolving(), ForwardEvent::Resolved(vec![7, 8, 9]));
    assert!(matches!(action, ForwardAction::Connect { to: 7, timeout_secs: 10 }));
    let (state, action) = step(state, ForwardEvent::Connected);
    if let ForwardAction::Relay = action {
        count += 1;
    }
    assert_eq!(count, 1);
    let (state, action) = step(state, ForwardEvent::RelayEnded);
    assert!(matches!(action, ForwardAction::ShutDownStream));
    let (state, action) = step(state, ForwardEvent::ShutDown);
    assert!(matches!(action, ForwardAction::ShutDownTcp));
    let (state, action) = step(state, ForwardEvent::ShutDown);
    if let ForwardAction::Finish = action {
        count -= 1;
    }
    assert_eq!(count, 0);
    assert!(matches!(state, ForwardState::Ended));
}

#[test]
fn a_target_without_address_is_refused() {
    let (state, action) = step(resolving(), ForwardEvent::Resolved(vec![]));
    assert!(matches!(state, ForwardState::Ended));
    assert!(matches!(
        action,
        ForwardAction::Fail(ForwardFailure::Refused(ForwardError::NoAddress))
    ));
    assert_eq!(ForwardError::NoAddress.message(), "Failed to resolve address");
}

#[test]
fn a_forward_can_run_out_of_time_twice() {
    let (_, action) = step(resolving(), ForwardEvent::TimedOut);
    assert!(matches!(
        action,
        ForwardAction::Fail(ForwardFailure::Refused(ForwardError::ResolveTimeout))
    ));
    let (state, _) = step(resolving(), ForwardEvent::Resolved(vec![1]));
    let (_, action) = step(state, ForwardEvent::TimedOut);
    assert!(matches!(
        action,
        ForwardAction::Fail(ForwardFailure::Refused(ForwardError::ConnectTimeout))
    ));
    assert_eq!(ForwardError::ResolveTimeout.message(), "DNS resolution timeout");
    assert_eq!(ForwardError::ConnectTimeout.message(), "Connection timeout");
}

#[test]
fn a_target_that_is_no_utf8_is_refused() {
    let (state, _): (ForwardState, Action) = ForwardState::start();
    let (state, _) = step(state, ForwardEvent::Read(vec![0, 1]));
    let (_, action) = step(state, ForwardEvent::Read(vec![0x80]));
    match action {
        ForwardAction::Fail(ForwardFailure::InvalidUtf8(e)) => {
            assert_eq!(Err(e), std::str::from_utf8(&[0x80]));
            assert_eq!(e.to_string(), "invalid utf-8 sequence of 1 bytes from index 0");
        }
        _ => panic!("the target is refused"),
    }
}

#[test]
fn failures_of_a_forward_are_handed_on() {
    let (_, action) = step(resolving(), ForwardEvent::Failed("no such host"));
    assert!(matches!(action, ForwardAction::Fail(ForwardFailure::Io("no such host"))));
    let (state, _) = step(resolving(), ForwardEvent::Resolved(vec![1]));
    let (_, action) = step(state, ForwardEvent::Failed("refused"));
    assert!(matches!(action, ForwardAction::Fail(ForwardFailure::Io("refused"))));
}

#[test]
fn a_forward_takes_only_what_it_asked_for() {
    let (state, _): (ForwardState, Action) = ForwardState::start();
    assert!(!state.takes::<u32, &str>(&ForwardEvent::Read(vec![0])));
    assert!(!state.takes::<u32, &str>(&ForwardEvent::Connected));
    assert!(!resolving().takes::<u32, &str>(&ForwardEvent::RelayEnded));
}

#[test]
fn an_accepted_connection_is_counted_until_its_end() {
    let mut count = 0;
    let (state, action) = TunnelState::start("h:80".to_string());
    assert!(matches!(action, TunnelAction::<&str>::Open));
    let (state, action) = tunnel(state, TunnelEvent::Opened);
    match action {
        TunnelAction::SendRequest(bytes) => assert_eq!(bytes, b"\x0a\x00\x04h:80"),
        _ => panic!("the target is sent"),
    }
    let (state, action) = tunnel(state, TunnelEvent::Written);
    if let TunnelAction::Relay = action {
        count += 1;
    }
    assert_eq!(count, 1);
    let (state, action) = tunnel(state, TunnelEvent::RelayEnded);
    assert!(matches!(action, TunnelAction::ShutDownStream));
    let (state, action) = tunnel(state, TunnelEvent::ShutDown);
    assert!(matches!(action, TunnelAction::ShutDownTcp));
    let (state, action) = tunnel(state, TunnelEvent::ShutDown);
    if let TunnelAction::Finish = action {
        count -= 1;
    }
    assert_eq!(count, 0);
    assert!(matches!(state, TunnelState::Ended));
}

#[test]
fn a_stream_that_does_not_open_ends_the_connection() {
    let (state, _) = TunnelState::start::<&str>("h:80".to_string());
    let (state, action) = tunnel(state, TunnelEvent::Failed("closed"));
    assert!(matches!(action, TunnelAction::Fail("closed")));
    assert!(matches!(state, TunnelState::Ended));
    assert!(!state.takes(&TunnelEvent::Failed("again")));
}

#[test]
fn the_target_arrives_at_the_other_end() {
    let (state, _) = TunnelState::start::<&str>("例え.jp:443".to_string());
    let (_, action) = tunnel(state, TunnelEvent::Opened);
    let bytes = match action {
        TunnelAction::SendRequest(bytes) => bytes,
        _ => panic!("the target is sent"),
    };
    assert_eq!(Command::from_code(bytes[0]), Some(Command::Forward));
    let (state, _): (ForwardState, Action) = ForwardState::start();
    let (state, _) = step(state, ForwardEvent::Read(bytes[1..3].to_vec()));
    let (_, action) = step(state, ForwardEvent::Read(bytes[3..].to_vec()));
    match action {
        ForwardAction::Resolve { target, .. } => assert_eq!(target, "例え.jp:443"),
        _ => panic!("the target arrives"),
    }
}
