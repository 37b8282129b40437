use snp::mux::{
    closed, open_bi, run_driver, ClosedWait, DriverAction, DriverEvent, DriverState, OpenAnswer,
    OpenError, Polled, CLOSED_POLL_MILLIS, QUEUE_LEN,
};

// Streams and requests are numbers, failures are texts.
type State = DriverState<u32>;
type Event = DriverEvent<u32, u32, &'static str>;
type Action = DriverAction<u32, u32, &'static str>;

fn step(state: State, event: Event) -> (State, Action) {
    assert!(state.takes(&event));
    run_driver(state, event)
}

#[test]
fn the_queues_hold_64() {
    assert_eq!(QUEUE_LEN, 64);
    assert_eq!(CLOSED_POLL_MILLIS, 100);
}

#[test]
fn a_request_is_answered_at_once() {
    let (state, action) = step(DriverState::new(), DriverEvent::Begin);
    assert!(matches!(action, DriverAction::PollInbound));
    let (state, action) = step(state, DriverEvent::Inbound(Polled::Pending));
    assert!(matches!(action, DriverAction::PollRequest));
    let (state, action) = step(state, DriverEvent::Request(Polled::Ready(Some(1))));
    assert!(matches!(action, DriverAction::PollOutbound));
    let (state, action) = step(state, DriverEvent::Outbound(Polled::Ready(Ok(77))));
    assert!(matches!(action, DriverAction::Respond { to: 1, stream: Ok(77) }));
    let (_, action) = step(state, DriverEvent::Begin);
    assert!(matches!(action, DriverAction::PollInbound));
}

#[test]
fn a_request_that_waits_comes_first() {
    let (state, _) = step(DriverState::new(), DriverEvent::Begin);
    let (state, _) = step(state, DriverEvent::Inbound(Polled::Pending));
    let (state, _) = step(state, DriverEvent::Request(Polled::Ready(Some(1))));
    // No outbound stream yet: the request waits, and is looked after first.
    let (state, action) = step(state, DriverEvent::Outbound(Polled::Pending));
    assert!(matches!(action, DriverAction::PollOutbound));
    assert_eq!(state.pending, Some(1));
    let (state, action) = step(state, DriverEvent::Outbound(Polled::Pending));
    assert!(matches!(action, DriverAction::PollInbound));
    // While it waits no other request is taken.
    let (state, action) = step(state, DriverEvent::Inbound(Polled::Pending));
    assert!(matches!(action, DriverAction::Suspend));
    let (state, action) = step(state, DriverEvent::Begin);
    assert!(matches!(action, DriverAction::PollOutbound));
    let (state, action) = step(state, DriverEvent::Outbound(Polled::Ready(Err("refused"))));
    assert!(matches!(action, DriverAction::Respond { to: 1, stream: Err("refused") }));
    assert_eq!(state.pending, None);
}

#[test]
fn the_driver_sleeps_when_nothing_is_ready() {
    let (state, _) = step(DriverState::new(), DriverEvent::Begin);
    let (state, _) = step(state, DriverEvent::Inbound(Polled::Pending));
    let (state, action) = step(state, DriverEvent::Request(Polled::Pending));
    assert!(matches!(action, DriverAction::Suspend));
    assert!(state.takes(&Event::Begin));
}

#[test]
fn inbound_streams_are_handed_on() {
    let (state, _) = step(DriverState::new(), DriverEvent::Begin);
    let (state, action) = step(state, DriverEvent::Inbound(Polled::Ready(Some(Ok(5)))));
    assert!(matches!(action, DriverAction::Deliver(5)));
    let (state, action) = step(state, DriverEvent::Delivered(true));
    assert!(matches!(action, DriverAction::PollInbound));
    let (state, _) = step(state, DriverEvent::Inbound(Polled::Ready(Some(Ok(6)))));
    let (state, action) = step(state, DriverEvent::Delivered(false));
    assert!(matches!(action, DriverAction::Stop));
    assert!(!state.takes(&Event::Begin));
}

#[test]
fn the_driver_stops_with_the_connection() {
    let (state, _) = step(DriverState::new(), DriverEvent::Begin);
    let (_, action) = step(state, DriverEvent::Inbound(Polled::Ready(None)));
    assert!(matches!(action, DriverAction::Stop));
    let (state, _) = step(DriverState::new(), DriverEvent::Begin);
    let (_, action) = step(state, DriverEvent::Inbound(Polled::Ready(Some(Err("reset")))));
    assert!(matches!(action, DriverAction::Stop));
    let (state, _) = step(DriverState::new(), DriverEvent::Begin);
    let (state, _) = step(state, DriverEvent::Inbound(Polled::Pending));
    let (_, action) = step(state, DriverEvent::Request(Polled::Ready(None)));
    assert!(matches!(action, DriverAction::Stop));
}

#[test]
fn requests_are_answered_in_order() {
    // The outbound streams come slowly: every request waits for one round.
    let mut state: State = DriverState::new();
    let mut event: Event = DriverEvent::Begin;
    let mut waiting = vec![3u32, 2, 1];
    let mut answered: Vec<u32> = Vec::new();
    let mut ready = false;
    let mut rounds = 0;
    while answered.len() < 3 && rounds < 100 {
        rounds += 1;
        let (next, action) = step(state, event);
        state = next;
        event = match action {
            DriverAction::PollOutbound => {
                let polled = if ready { Polled::Ready(Ok(0)) } else { Polled::Pending };
                ready = !ready;
                DriverEvent::Outbound(polled)
            }
            DriverAction::PollInbound => DriverEvent::Inbound(Polled::Pending),
            DriverAction::PollRequest => DriverEvent::Request(match waiting.pop() {
                Some(request) => Polled::Ready(Some(request)),
                None => Polled::Pending,
            }),
            DriverAction::Respond { to, .. } => {
                answered.push(to);
                DriverEvent::Begin
            }
            DriverAction::Suspend => DriverEvent::Begin,
            _ => panic!("the connection stays open"),
        };
    }
    assert_eq!(answered, vec![1, 2, 3]);
}

#[test]
fn a_caller_gets_its_stream_or_the_reason() {
    assert!(matches!(open_bi::<u32, &str>(OpenAnswer::Answered(Ok(4))), Ok(4)));
    let not_queued = match open_bi::<u32, &str>(OpenAnswer::NotQueued("channel closed".to_string())) {
        Err(e) => e,
        Ok(_) => panic!("no stream"),
    };
    assert!(matches!(not_queued, OpenError::NotQueued(_)));
    assert_eq!(not_queued.message(), Some("channel closed"));
    let refused = match open_bi::<u32, &str>(OpenAnswer::Answered(Err("full"))) {
        Err(e) => e,
        Ok(_) => panic!("no stream"),
    };
    assert!(matches!(refused, OpenError::Refused("full")));
    assert_eq!(refused.message(), None);
    let dropped = match open_bi::<u32, &str>(OpenAnswer::Dropped) {
        Err(e) => e,
        Ok(_) => panic!("no stream"),
    };
    assert!(matches!(dropped, OpenError::DriverClosed));
    assert_eq!(dropped.message(), Some("Driver task closed"));
}

#[test]
fn a_waiting_caller_looks_every_100_milliseconds() {
    assert_eq!(closed(false), ClosedWait::Sleep(100));
    assert_eq!(closed(true), ClosedWait::Return);
}
