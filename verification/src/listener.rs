//! The loops that accept TCP connections for the tunnel.

use vstd::prelude::*;
use crate::forward::{TunnelAction, TunnelState};
use crate::socks5::{Socks5Action, Socks5State};
#[allow(unused_imports)]
use crate::socks5::BUFFER_LEN;

verus! {

/// Where a listener stands.
#[derive(Debug, Clone, Copy, PartialEq, Eq, Structural)]
pub enum ListenerState {
    /// The address is being bound.
    Binding,
    /// Connections are being accepted.
    Listening,
    /// It is over.
    Ended,
}

/// What happened. Accepted connections are of type `T`, failures of type `E`.
pub enum ListenerEvent<T, E> {
    /// The address is bound.
    Bound,
    /// The address cannot be bound.
    BindFailed(E),
    /// The listener is to stop.
    Cancelled,
    /// The tunnel's connection is closed.
    ConnectionClosed,
    /// A connection came in.
    Accepted(T),
    /// An incoming connection was lost.
    AcceptFailed(E),
}

/// What to do next. A connection is handed to a handler that begins as a value of type
/// `S` says: in a state and with an action.
pub enum ListenerAction<T, S, E> {
    /// Wait for a connection, for the end of the tunnel or for the order to stop.
    Wait,
    /// Hand the connection to a handler of its own, and wait on.
    Serve { peer: T, handler: S },
    /// It is over.
    Finish,
    /// It is over, for this reason.
    Fail(E),
}

impl ListenerState {
    /// Whether the event can happen in this state.
    pub open spec fn can_take<T, E>(self, event: ListenerEvent<T, E>) -> bool {
        match self {
            ListenerState::Binding => event is Bound || event is BindFailed,
            ListenerState::Listening => !(event is Bound || event is BindFailed),
            ListenerState::Ended => false,
        }
    }

    /// Whether the event can happen in this state.
    pub fn takes<T, E>(self, event: &ListenerEvent<T, E>) -> (yes: bool)
        ensures
            yes == self.can_take(*event),
    {
        let binds = match event {
            ListenerEvent::Bound => true,
            ListenerEvent::BindFailed(_) => true,
            _ => false,
        };
        match self {
            ListenerState::Binding => binds,
            ListenerState::Listening => !binds,
            ListenerState::Ended => false,
        }
    }
}

/// What an event leads to: a connection that is lost while it comes in is passed
/// over, and only a failure to bind is one of the listener.
pub open spec fn listener_step<T, S, E>(
    state: ListenerState,
    event: ListenerEvent<T, E>,
    handler: S,
) -> (ListenerState, ListenerAction<T, S, E>) {
    match event {
        ListenerEvent::Bound => (ListenerState::Listening, ListenerAction::Wait),
        ListenerEvent::BindFailed(e) => (ListenerState::Ended, ListenerAction::Fail(e)),
        ListenerEvent::Cancelled => (ListenerState::Ended, ListenerAction::Finish),
        ListenerEvent::ConnectionClosed => (ListenerState::Ended, ListenerAction::Finish),
        ListenerEvent::Accepted(peer) => (state, ListenerAction::Serve { peer, handler }),
        ListenerEvent::AcceptFailed(_) => (state, ListenerAction::Wait),
    }
}

fn listen<T, S, E>(state: ListenerState, event: ListenerEvent<T, E>, handler: S) -> (r: (
    ListenerState,
    ListenerAction<T, S, E>,
))
    requires
        state.can_take(event),
    ensures
        r == listener_step(state, event, handler),
{
    match event {
        ListenerEvent::Bound => (ListenerState::Listening, ListenerAction::Wait),
        ListenerEvent::BindFailed(e) => (ListenerState::Ended, ListenerAction::Fail(e)),
        ListenerEvent::Cancelled => (ListenerState::Ended, ListenerAction::Finish),
        ListenerEvent::ConnectionClosed => (ListenerState::Ended, ListenerAction::Finish),
        ListenerEvent::Accepted(peer) => (state, ListenerAction::Serve { peer, handler }),
        ListenerEvent::AcceptFailed(_) => (state, ListenerAction::Wait),
    }
}

/// One step of a listener whose connections are forwarded to one remote address. The
/// failures of a handler are of type `F`.
pub fn start_forward_client<T, E, F>(
    state: ListenerState,
    event: ListenerEvent<T, E>,
    remote_addr: &String,
) -> (r: (ListenerState, ListenerAction<T, (TunnelState, TunnelAction<F>), E>))
    requires
        state.can_take(event),
    ensures
        r == listener_step(
            state,
            event,
            (TunnelState::Opening { target: *remote_addr }, TunnelAction::<F>::Open),
        ),
{
    listen(state, event, TunnelState::start(remote_addr.clone()))
}

/// One step of a listener whose connections speak SOCKS5. The failures of a handler are
/// of type `F`.
pub fn start_socks5_client<T, E, F>(state: ListenerState, event: ListenerEvent<T, E>) -> (r: (
    ListenerState,
    ListenerAction<T, (Socks5State, Socks5Action<F>), E>,
))
    requires
        state.can_take(event),
    ensures
        r == listener_step(
            state,
            event,
            (Socks5State::Greeting, Socks5Action::<F>::ReadClient(BUFFER_LEN)),
        ),
{
    listen(state, event, Socks5State::start())
}

/// A row of steps, each from the state that the one before it led to.
pub open spec fn listener_run<T, S, E>(
    states: Seq<ListenerState>,
    events: Seq<ListenerEvent<T, E>>,
    actions: Seq<ListenerAction<T, S, E>>,
    handler: S,
) -> bool {
    &&& states.len() == events.len() + 1
    &&& actions.len() == events.len()
    &&& forall|i: int|
        0 <= i < events.len() ==> {
            &&& (#[trigger] states[i]).can_take(events[i])
            &&& (states[i + 1], actions[i]) == listener_step(states[i], events[i], handler)
        }
}

/// The connections that came in, in order.
pub open spec fn peers_accepted<T, E>(events: Seq<ListenerEvent<T, E>>) -> Seq<T>
    decreases events.len(),
{
    if events.len() == 0 {
        Seq::empty()
    } else {
        let before = peers_accepted(events.drop_last());
        match events.last() {
            ListenerEvent::Accepted(peer) => before.push(peer),
            _ => before,
        }
    }
}

/// The connections that were handed to a handler, in order.
pub open spec fn peers_served<T, S, E>(actions: Seq<ListenerAction<T, S, E>>) -> Seq<T>
    decreases actions.len(),
{
    if actions.len() == 0 {
        Seq::empty()
    } else {
        let before = peers_served(actions.drop_last());
        match actions.last() {
            ListenerAction::Serve { peer, .. } => before.push(peer),
            _ => before,
        }
    }
}

/// Every connection that comes in is handed to a handler, once and in order. And a
/// listener that is bound goes on until it is told to stop or the tunnel ends: nothing
/// else, a lost connection least of all, ends it.
pub proof fn lemma_listener_serves_all<T, S, E>(
    states: Seq<ListenerState>,
    events: Seq<ListenerEvent<T, E>>,
    actions: Seq<ListenerAction<T, S, E>>,
    handler: S,
)
    requires
        listener_run(states, events, actions, handler),
        states[0] == ListenerState::Binding,
    ensures
        peers_served(actions) == peers_accepted(events),
        states.last() == ListenerState::Ended ==> {
            ||| events.last() is BindFailed && events.len() == 1
            ||| events.last() is Cancelled
            ||| events.last() is ConnectionClosed
        },
        events.len() > 0 ==> states.last() != ListenerState::Binding,
    decreases events.len(),
{
    if events.len() > 0 {
        let n = events.len() - 1;
        assert(states[n].can_take(events[n]));
        let early_states = states.drop_last();
        let early_events = events.drop_last();
        let early_actions = actions.drop_last();
        assert forall|i: int| 0 <= i < early_events.len() implies {
            &&& (#[trigger] early_states[i]).can_take(early_events[i])
            &&& (early_states[i + 1], early_actions[i]) == listener_step(
                early_states[i],
                early_events[i],
                handler,
            )
        } by {
            assert(states[i].can_take(events[i]));
        }
        lemma_listener_serves_all(early_states, early_events, early_actions, handler);
        assert(early_states.last() == states[n]);
    }
}

/// A listener binds, then waits and serves: whatever comes in is served and whatever is
/// lost is passed over, until it is told to stop or the tunnel ends. Only a failure to
/// bind is a failure of the listener.
pub proof fn lemma_listener_course<T, S, E>(
    state: ListenerState,
    peer: T,
    handler: S,
    e: E,
)
    ensures
        ListenerState::Binding.can_take(ListenerEvent::<T, E>::Bound),
        listener_step(ListenerState::Binding, ListenerEvent::<T, E>::Bound, handler) == (
            ListenerState::Listening,
            ListenerAction::<T, S, E>::Wait,
        ),
        ListenerState::Binding.can_take(ListenerEvent::<T, E>::BindFailed(e)),
        listener_step(ListenerState::Binding, ListenerEvent::<T, E>::BindFailed(e), handler) == (
            ListenerState::Ended,
            ListenerAction::<T, S, E>::Fail(e),
        ),
        ListenerState::Listening.can_take(ListenerEvent::<T, E>::Accepted(peer)),
        listener_step(ListenerState::Listening, ListenerEvent::<T, E>::Accepted(peer), handler) == (
            ListenerState::Listening,
            (ListenerAction::<T, S, E>::Serve { peer, handler }),
        ),
        ListenerState::Listening.can_take(ListenerEvent::<T, E>::AcceptFailed(e)),
        listener_step(ListenerState::Listening, ListenerEvent::<T, E>::AcceptFailed(e), handler)
            == (ListenerState::Listening, ListenerAction::<T, S, E>::Wait),
        ListenerState::Listening.can_take(ListenerEvent::<T, E>::Cancelled),
        listener_step(ListenerState::Listening, ListenerEvent::<T, E>::Cancelled, handler) == (
            ListenerState::Ended,
            ListenerAction::<T, S, E>::Finish,
        ),
        ListenerState::Listening.can_take(ListenerEvent::<T, E>::ConnectionClosed),
        listener_step(ListenerState::Listening, ListenerEvent::<T, E>::ConnectionClosed, handler)
            == (ListenerState::Ended, ListenerAction::<T, S, E>::Finish),
{
}

} // verus!
