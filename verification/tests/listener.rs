use snp::forward::{TunnelAction, TunnelState};
use snp::listener::{
    start_forward_client, start_socks5_client, ListenerAction, ListenerEvent, ListenerState,
};
use snp::socks5::{Socks5Action, Socks5State};

type Event = ListenerEvent<u8, &'static str>;

#[test]
fn a_listener_serves_each_connection() {
    let remote = "r:1".to_string();
    let event: Event = ListenerEvent::Bound;
    assert!(ListenerState::Binding.takes(&event));
    let (state, action) = start_forward_client::<u8, &str, &str>(ListenerState::Binding, event, &remote);
    assert!(matches!(action, ListenerAction::Wait));
    let event: Event = ListenerEvent::Accepted(3);
    assert!(state.takes(&event));
    let (state, action) = start_forward_client::<u8, &str, &str>(state, event, &remote);
    assert_eq!(state, ListenerState::Listening);
    match action {
        ListenerAction::Serve { peer, handler: (TunnelState::Opening { target }, TunnelAction::Open) } => {
            assert_eq!(peer, 3);
            assert_eq!(target, "r:1");
        }
        _ => panic!("the connection is served"),
    }
}

#[test]
fn a_socks5_listener_begins_with_the_greeting() {
    let (state, action) =
        start_socks5_client::<u8, &str, &str>(ListenerState::Listening, Event::Accepted(9));
    assert_eq!(state, ListenerState::Listening);
    assert!(matches!(
        action,
        ListenerAction::Serve {
            peer: 9,
            handler: (Socks5State::Greeting, Socks5Action::ReadClient(256)),
        }
    ));
}

#[test]
fn a_lost_connection_does_not_end_the_listener() {
    let (state, action) =
        start_socks5_client::<u8, &str, &str>(ListenerState::Listening, Event::AcceptFailed("lost"));
    assert_eq!(state, ListenerState::Listening);
    assert!(matches!(action, ListenerAction::Wait));
}

#[test]
fn a_listener_that_cannot_bind_fails() {
    let (state, action) =
        start_socks5_client::<u8, &str, &str>(ListenerState::Binding, Event::BindFailed("in use"));
    assert_eq!(state, ListenerState::Ended);
    assert!(matches!(action, ListenerAction::Fail("in use")));
    assert!(!state.takes(&Event::Bound));
}

#[test]
fn a_listener_ends_with_the_tunnel() {
    let remote = "r:1".to_string();
    let (state, action) =
        start_forward_client::<u8, &str, &str>(ListenerState::Listening, Event::ConnectionClosed, &remote);
    assert_eq!(state, ListenerState::Ended);
    assert!(matches!(action, ListenerAction::Finish));
    let (state, action) =
        start_forward_client::<u8, &str, &str>(ListenerState::Listening, Event::Cancelled, &remote);
    assert_eq!(state, ListenerState::Ended);
    assert!(matches!(action, ListenerAction::Finish));
}

#[test]
fn every_connection_is_served_in_order() {
    let events: Vec<Event> = vec![
        ListenerEvent::Bound,
        ListenerEvent::Accepted(1),
        ListenerEvent::AcceptFailed("lost"),
        ListenerEvent::Accepted(2),
        ListenerEvent::Accepted(3),
        ListenerEvent::Cancelled,
    ];
    let mut state = ListenerState::Binding;
    let mut served = Vec::new();
    for event in events {
        assert!(state.takes(&event));
        let (next, action) = start_socks5_client::<u8, &str, &str>(state, event);
        state = next;
        if let ListenerAction::Serve { peer, .. } = action {
            served.push(peer);
        }
    }
    assert_eq!(served, vec![1, 2, 3]);
    assert_eq!(state, ListenerState::Ended);
}
