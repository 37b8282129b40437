//! The two ends of a forwarded connection.
//!
//! The end that accepted a TCP connection opens a stream and asks the peer for a
//! target ([`handle_tcp_to_stream`]); the peer reads the request, resolves the
//! target and connects to it ([`handle_forward_with_cmd`]). Then both relay.

use vstd::prelude::*;
use crate::wire::{Command, ReaderStep, Request, RequestReader};
#[allow(unused_imports)]
use vstd::utf8::*;
#[allow(unused_imports)]
use crate::text::utf8_refusal;
#[allow(unused_imports)]
use crate::wire::{
    command_of, field_fits, fresh_reader, lemma_forward_request_bytes, lemma_reader_takes_fields,
    lemma_request_read_back, read_from, request_bytes, stands_at, ReadOutcome, ReaderStepView,
    RequestView,
};

verus! {

/// How long a name may take to resolve, in seconds.
pub const RESOLVE_TIMEOUT_SECS: u64 = 10;

/// How long a connection may take to be made, in seconds.
pub const CONNECT_TIMEOUT_SECS: u64 = 10;

/// Why a request to forward is given up.
#[derive(Debug, Clone, Copy, PartialEq, Eq, Structural)]
pub enum ForwardError {
    /// The target has no address.
    NoAddress,
    /// The target was not resolved in time.
    ResolveTimeout,
    /// The connection was not made in time.
    ConnectTimeout,
}

impl ForwardError {
    /// The error in words.
    pub fn message(self) -> (text: &'static str)
        ensures
            text@ == match self {
                ForwardError::NoAddress => "Failed to resolve address"@,
                ForwardError::ResolveTimeout => "DNS resolution timeout"@,
                ForwardError::ConnectTimeout => "Connection timeout"@,
            },
    {
        match self {
            ForwardError::NoAddress => "Failed to resolve address",
            ForwardError::ResolveTimeout => "DNS resolution timeout",
            ForwardError::ConnectTimeout => "Connection timeout",
        }
    }
}

/// Where a request to forward stands, at the end that connects to the target.
pub enum ForwardState {
    /// The target is being read.
    Reading { reader: RequestReader },
    /// The target is being resolved.
    Resolving,
    /// The connection is being made.
    Connecting,
    /// The connection is being relayed, and counts as one.
    Relaying,
    /// The stream is being shut down.
    ClosingStream,
    /// The TCP connection is being shut down.
    ClosingTcp,
    /// It is over.
    Ended,
}

/// What happened. Addresses are of type `A`, failures of type `E`.
pub enum ForwardEvent<A, E> {
    /// Exactly the bytes asked for were read.
    Read(Vec<u8>),
    /// The target resolved to these addresses.
    Resolved(Vec<A>),
    /// The connection is made.
    Connected,
    /// The time for resolving or connecting ran out.
    TimedOut,
    /// Reading, resolving or connecting failed.
    Failed(E),
    /// One direction of the relay ended, or it was cancelled.
    RelayEnded,
    /// The shutdown was tried.
    ShutDown,
}

/// Why it failed.
pub enum ForwardFailure<E> {
    Io(E),
    /// The target is not valid UTF-8.
    InvalidUtf8(core::str::Utf8Error),
    Refused(ForwardError),
}

/// What to do next.
pub enum ForwardAction<A, E> {
    /// Read exactly so many bytes from the stream.
    Read(usize),
    /// Resolve the target within the time.
    Resolve { target: String, timeout_secs: u64 },
    /// Connect to the address within the time.
    Connect { to: A, timeout_secs: u64 },
    /// Count one connection more, and relay in both directions until one ends.
    Relay,
    /// Shut the stream down.
    ShutDownStream,
    /// Shut the TCP connection down.
    ShutDownTcp,
    /// Count one connection less; it is over.
    Finish,
    /// It is over, for this reason.
    Fail(ForwardFailure<E>),
}

impl ForwardState {
    /// Whether the event can happen in this state.
    pub open spec fn can_take<A, E>(self, event: ForwardEvent<A, E>) -> bool {
        match (self, event) {
            (ForwardState::Reading { reader }, ForwardEvent::Read(bytes)) => {
                &&& reader.command == Command::Forward
                &&& reader@.wf()
                &&& bytes@.len() == reader@.needed()
            },
            (ForwardState::Reading { .. }, ForwardEvent::Failed(_)) => true,
            (ForwardState::Resolving, ForwardEvent::Resolved(_)) => true,
            (ForwardState::Resolving, ForwardEvent::TimedOut) => true,
            (ForwardState::Resolving, ForwardEvent::Failed(_)) => true,
            (ForwardState::Connecting, ForwardEvent::Connected) => true,
            (ForwardState::Connecting, ForwardEvent::TimedOut) => true,
            (ForwardState::Connecting, ForwardEvent::Failed(_)) => true,
            (ForwardState::Relaying, ForwardEvent::RelayEnded) => true,
            (ForwardState::ClosingStream, ForwardEvent::ShutDown) => true,
            (ForwardState::ClosingTcp, ForwardEvent::ShutDown) => true,
            _ => false,
        }
    }

    /// How many connections have been counted: one from the relay to the end.
    pub open spec fn counted(self) -> int {
        match self {
            ForwardState::Relaying => 1,
            ForwardState::ClosingStream => 1,
            ForwardState::ClosingTcp => 1,
            _ => 0,
        }
    }

    /// How far it has come.
    pub open spec fn rank(self) -> int {
        match self {
            ForwardState::Reading { reader } => if reader.body is None {
                0
            } else {
                1
            },
            ForwardState::Resolving => 2,
            ForwardState::Connecting => 3,
            ForwardState::Relaying => 4,
            ForwardState::ClosingStream => 5,
            ForwardState::ClosingTcp => 6,
            ForwardState::Ended => 7,
        }
    }
}

/// What an event leads to, at the end that connects to the target.
pub open spec fn forward_step<A, E>(
    state: ForwardState,
    event: ForwardEvent<A, E>,
    next: ForwardState,
    action: ForwardAction<A, E>,
) -> bool {
    &&& state.can_take(event)
    &&& match (state, event) {
        (ForwardState::Reading { reader }, ForwardEvent::Read(bytes)) => match reader@.fed(bytes@) {
            ReaderStepView::More(more) => {
                &&& next matches ForwardState::Reading { reader: after } && after@ == more
                &&& action matches ForwardAction::Read(count) && count == more.needed()
            },
            ReaderStepView::Done(request) => {
                &&& next is Resolving
                &&& action matches ForwardAction::Resolve { target, timeout_secs } && target@
                    == request.fields[0] && timeout_secs == RESOLVE_TIMEOUT_SECS
            },
            ReaderStepView::Invalid(e) => {
                &&& next is Ended
                &&& action == ForwardAction::<A, E>::Fail(ForwardFailure::InvalidUtf8(e))
            },
        },
        (ForwardState::Resolving, ForwardEvent::Resolved(addresses)) => if addresses@.len() == 0 {
            &&& next is Ended
            &&& action == ForwardAction::<A, E>::Fail(
                ForwardFailure::Refused(ForwardError::NoAddress),
            )
        } else {
            &&& next is Connecting
            &&& action == ForwardAction::<A, E>::Connect {
                to: addresses@[0],
                timeout_secs: CONNECT_TIMEOUT_SECS,
            }
        },
        (ForwardState::Resolving, ForwardEvent::TimedOut) => {
            &&& next is Ended
            &&& action == ForwardAction::<A, E>::Fail(
                ForwardFailure::Refused(ForwardError::ResolveTimeout),
            )
        },
        (ForwardState::Connecting, ForwardEvent::Connected) => {
            &&& next is Relaying
            &&& action is Relay
        },
        (ForwardState::Connecting, ForwardEvent::TimedOut) => {
            &&& next is Ended
            &&& action == ForwardAction::<A, E>::Fail(
                ForwardFailure::Refused(ForwardError::ConnectTimeout),
            )
        },
        (_, ForwardEvent::Failed(e)) => {
            &&& next is Ended
            &&& action == ForwardAction::<A, E>::Fail(ForwardFailure::Io(e))
        },
        (ForwardState::Relaying, _) => {
            &&& next is ClosingStream
            &&& action is ShutDownStream
        },
        (ForwardState::ClosingStream, _) => {
            &&& next is ClosingTcp
            &&& action is ShutDownTcp
        },
        (_, _) => {
            &&& next is Ended
            &&& action is Finish
        },
    }
}

impl ForwardState {
    /// Begins behind the command byte of a request to forward.
    pub fn start<A, E>() -> (r: (ForwardState, ForwardAction<A, E>))
        ensures
            r.0 matches ForwardState::Reading { reader } && reader@ == fresh_reader(
                Command::Forward,
            ),
            r.1 == ForwardAction::<A, E>::Read(2),
    {
        let reader = RequestReader::new(Command::Forward);
        let count = reader.needed();
        (ForwardState::Reading { reader }, ForwardAction::Read(count))
    }

    /// Whether the event can happen in this state.
    pub fn takes<A, E>(&self, event: &ForwardEvent<A, E>) -> (yes: bool)
        ensures
            yes == self.can_take(*event),
    {
        match (self, event) {
            (ForwardState::Reading { reader }, ForwardEvent::Read(bytes)) => {
                reader.command == Command::Forward && reader.fields.len() == 0 && bytes.len()
                    == reader.needed()
            },
            (ForwardState::Reading { .. }, ForwardEvent::Failed(_)) => true,
            (ForwardState::Resolving, ForwardEvent::Resolved(_)) => true,
            (ForwardState::Resolving, ForwardEvent::TimedOut) => true,
            (ForwardState::Resolving, ForwardEvent::Failed(_)) => true,
            (ForwardState::Connecting, ForwardEvent::Connected) => true,
            (ForwardState::Connecting, ForwardEvent::TimedOut) => true,
            (ForwardState::Connecting, ForwardEvent::Failed(_)) => true,
            (ForwardState::Relaying, ForwardEvent::RelayEnded) => true,
            (ForwardState::ClosingStream, ForwardEvent::ShutDown) => true,
            (ForwardState::ClosingTcp, ForwardEvent::ShutDown) => true,
            _ => false,
        }
    }
}

/// One step at the end that connects to the target.
pub fn handle_forward_with_cmd<A: Copy, E>(state: ForwardState, event: ForwardEvent<A, E>) -> (r: (
    ForwardState,
    ForwardAction<A, E>,
))
    requires
        state.can_take(event),
    ensures
        forward_step(state, event, r.0, r.1),
{
    match (state, event) {
        (ForwardState::Reading { reader }, ForwardEvent::Read(bytes)) => {
            match reader.feed(bytes.as_slice()) {
                ReaderStep::More(reader) => {
                    let count = reader.needed();
                    (ForwardState::Reading { reader }, ForwardAction::Read(count))
                },
                ReaderStep::Done(Request::Forward { target }) => (
                    ForwardState::Resolving,
                    ForwardAction::Resolve { target, timeout_secs: RESOLVE_TIMEOUT_SECS },
                ),
                ReaderStep::Done(_) => vstd::pervasive::unreached(),
                ReaderStep::Invalid(e) => (
                    ForwardState::Ended,
                    ForwardAction::Fail(ForwardFailure::InvalidUtf8(e)),
                ),
            }
        },
        (ForwardState::Resolving, ForwardEvent::Resolved(addresses)) => {
            if addresses.len() == 0 {
                (
                    ForwardState::Ended,
                    ForwardAction::Fail(ForwardFailure::Refused(ForwardError::NoAddress)),
                )
            } else {
                (
                    ForwardState::Connecting,
                    ForwardAction::Connect {
                        to: addresses[0],
                        timeout_secs: CONNECT_TIMEOUT_SECS,
                    },
                )
            }
        },
        (ForwardState::Resolving, ForwardEvent::TimedOut) => (
            ForwardState::Ended,
            ForwardAction::Fail(ForwardFailure::Refused(ForwardError::ResolveTimeout)),
        ),
        (ForwardState::Connecting, ForwardEvent::Connected) => (
            ForwardState::Relaying,
            ForwardAction::Relay,
        ),
        (ForwardState::Connecting, ForwardEvent::TimedOut) => (
            ForwardState::Ended,
            ForwardAction::Fail(ForwardFailure::Refused(ForwardError::ConnectTimeout)),
        ),
        (_, ForwardEvent::Failed(e)) => (
            ForwardState::Ended,
            ForwardAction::Fail(ForwardFailure::Io(e)),
        ),
        (ForwardState::Relaying, _) => (
            ForwardState::ClosingStream,
            ForwardAction::ShutDownStream,
        ),
        (ForwardState::ClosingStream, _) => (ForwardState::ClosingTcp, ForwardAction::ShutDownTcp),
        (_, _) => (ForwardState::Ended, ForwardAction::Finish),
    }
}

/// Where a connection stands, at the end that accepted it.
pub enum TunnelState {
    /// A stream is being opened.
    Opening { target: String },
    /// The target is being sent.
    Sending,
    /// The connection is being relayed, and counts as one.
    Relaying,
    /// The stream is being shut down.
    ClosingStream,
    /// The TCP connection is being shut down.
    ClosingTcp,
    /// It is over.
    Ended,
}

/// What happened. Failures are of type `E`.
pub enum TunnelEvent<E> {
    /// The stream is open.
    Opened,
    /// Everything was written and flushed.
    Written,
    /// The opening or the write failed.
    Failed(E),
    /// One direction of the relay ended.
    RelayEnded,
    /// The shutdown was tried.
    ShutDown,
}

/// What to do next.
pub enum TunnelAction<E> {
    /// Open a stream.
    Open,
    /// Write this to the stream and flush it.
    SendRequest(Vec<u8>),
    /// Count one connection more, and relay in both directions until one ends.
    Relay,
    /// Shut the stream down.
    ShutDownStream,
    /// Shut the TCP connection down.
    ShutDownTcp,
    /// Count one connection less; it is over.
    Finish,
    /// It is over, for this reason.
    Fail(E),
}

impl TunnelState {
    /// Whether the event can happen in this state.
    pub open spec fn can_take<E>(self, event: TunnelEvent<E>) -> bool {
        match (self, event) {
            (TunnelState::Opening { .. }, TunnelEvent::Opened) => true,
            (TunnelState::Opening { .. }, TunnelEvent::Failed(_)) => true,
            (TunnelState::Sending, TunnelEvent::Written) => true,
            (TunnelState::Sending, TunnelEvent::Failed(_)) => true,
            (TunnelState::Relaying, TunnelEvent::RelayEnded) => true,
            (TunnelState::ClosingStream, TunnelEvent::ShutDown) => true,
            (TunnelState::ClosingTcp, TunnelEvent::ShutDown) => true,
            _ => false,
        }
    }

    /// How many connections have been counted: one from the relay to the end.
    pub open spec fn counted(self) -> int {
        match self {
            TunnelState::Relaying => 1,
            TunnelState::ClosingStream => 1,
            TunnelState::ClosingTcp => 1,
            _ => 0,
        }
    }

    /// How far it has come.
    pub open spec fn rank(self) -> int {
        match self {
            TunnelState::Opening { .. } => 0,
            TunnelState::Sending => 1,
            TunnelState::Relaying => 2,
            TunnelState::ClosingStream => 3,
            TunnelState::ClosingTcp => 4,
            TunnelState::Ended => 5,
        }
    }
}

/// What an event leads to, at the end that accepted the connection.
pub open spec fn tunnel_step<E>(
    state: TunnelState,
    event: TunnelEvent<E>,
    next: TunnelState,
    action: TunnelAction<E>,
) -> bool {
    &&& state.can_take(event)
    &&& match (state, event) {
        (_, TunnelEvent::Failed(e)) => {
            &&& next is Ended
            &&& action == TunnelAction::Fail(e)
        },
        (TunnelState::Opening { target }, _) => {
            &&& next is Sending
            &&& action matches TunnelAction::SendRequest(bytes) && bytes@ == request_bytes(
                RequestView { command: Command::Forward, fields: seq![target@] },
            )
        },
        (TunnelState::Sending, _) => {
            &&& next is Relaying
            &&& action is Relay
        },
        (TunnelState::Relaying, _) => {
            &&& next is ClosingStream
            &&& action is ShutDownStream
        },
        (TunnelState::ClosingStream, _) => {
            &&& next is ClosingTcp
            &&& action is ShutDownTcp
        },
        (_, _) => {
            &&& next is Ended
            &&& action is Finish
        },
    }
}

impl TunnelState {
    /// Begins for a connection that was accepted on behalf of a target.
    pub fn start<E>(target: String) -> (r: (TunnelState, TunnelAction<E>))
        ensures
            r.0 == (TunnelState::Opening { target }),
            r.1 == TunnelAction::<E>::Open,
    {
        (TunnelState::Opening { target }, TunnelAction::Open)
    }

    /// Whether the event can happen in this state.
    pub fn takes<E>(&self, event: &TunnelEvent<E>) -> (yes: bool)
        ensures
            yes == self.can_take(*event),
    {
        match (self, event) {
            (TunnelState::Opening { .. }, TunnelEvent::Opened) => true,
            (TunnelState::Opening { .. }, TunnelEvent::Failed(_)) => true,
            (TunnelState::Sending, TunnelEvent::Written) => true,
            (TunnelState::Sending, TunnelEvent::Failed(_)) => true,
            (TunnelState::Relaying, TunnelEvent::RelayEnded) => true,
            (TunnelState::ClosingStream, TunnelEvent::ShutDown) => true,
            (TunnelState::ClosingTcp, TunnelEvent::ShutDown) => true,
            _ => false,
        }
    }
}

/// One step at the end that accepted the connection.
pub fn handle_tcp_to_stream<E>(state: TunnelState, event: TunnelEvent<E>) -> (r: (
    TunnelState,
    TunnelAction<E>,
))
    requires
        state.can_take(event),
    ensures
        tunnel_step(state, event, r.0, r.1),
{
    match (state, event) {
        (_, TunnelEvent::Failed(e)) => (TunnelState::Ended, TunnelAction::Fail(e)),
        (TunnelState::Opening { target }, _) => {
            let request = Request::Forward { target };
            (TunnelState::Sending, TunnelAction::SendRequest(request.encode()))
        },
        (TunnelState::Sending, _) => (TunnelState::Relaying, TunnelAction::Relay),
        (TunnelState::Relaying, _) => (TunnelState::ClosingStream, TunnelAction::ShutDownStream),
        (TunnelState::ClosingStream, _) => (TunnelState::ClosingTcp, TunnelAction::ShutDownTcp),
        (_, _) => (TunnelState::Ended, TunnelAction::Finish),
    }
}

/// By how much an action changes the number of open connections.
pub open spec fn forward_count_change<A, E>(action: ForwardAction<A, E>) -> int {
    match action {
        ForwardAction::Relay => 1,
        ForwardAction::Finish => -1,
        _ => 0,
    }
}

/// The net change that a row of actions makes to the number of open connections.
pub open spec fn forward_net_count<A, E>(actions: Seq<ForwardAction<A, E>>) -> int
    decreases actions.len(),
{
    if actions.len() == 0 {
        0
    } else {
        forward_net_count(actions.drop_last()) + forward_count_change(actions.last())
    }
}

/// A row of steps, each from the state that the one before it led to.
pub open spec fn forward_run<A, E>(
    states: Seq<ForwardState>,
    events: Seq<ForwardEvent<A, E>>,
    actions: Seq<ForwardAction<A, E>>,
) -> bool {
    &&& states.len() == events.len() + 1
    &&& actions.len() == events.len()
    &&& forall|i: int|
        0 <= i < events.len() ==> #[trigger] forward_step(
            states[i],
            events[i],
            states[i + 1],
            actions[i],
        )
}

/// However a request to forward goes, the connection is counted from the relay to
/// the end: once it is over, the number of open connections is what it was before.
/// And it is over after no more than seven steps.
pub proof fn lemma_forward_count_balances<A, E>(
    states: Seq<ForwardState>,
    events: Seq<ForwardEvent<A, E>>,
    actions: Seq<ForwardAction<A, E>>,
)
    requires
        forward_run(states, events, actions),
        states[0] matches ForwardState::Reading { reader } && reader@ == fresh_reader(
            Command::Forward,
        ),
    ensures
        forward_net_count(actions) == states.last().counted(),
        states.last() is Ended ==> forward_net_count(actions) == 0,
        events.len() <= states.last().rank() <= 7,
    decreases events.len(),
{
    if events.len() > 0 {
        let n = events.len() - 1;
        assert(forward_step(states[n], events[n], states[n + 1], actions[n]));
        assert forall|i: int| 0 <= i < n implies #[trigger] forward_step(
            states.drop_last()[i],
            events.drop_last()[i],
            states.drop_last()[i + 1],
            actions.drop_last()[i],
        ) by {
            assert(forward_step(states[i], events[i], states[i + 1], actions[i]));
        }
        lemma_forward_count_balances(states.drop_last(), events.drop_last(), actions.drop_last());
    }
}

/// By how much an action changes the number of open connections.
pub open spec fn tunnel_count_change<E>(action: TunnelAction<E>) -> int {
    match action {
        TunnelAction::Relay => 1,
        TunnelAction::Finish => -1,
        _ => 0,
    }
}

/// The net change that a row of actions makes to the number of open connections.
pub open spec fn tunnel_net_count<E>(actions: Seq<TunnelAction<E>>) -> int
    decreases actions.len(),
{
    if actions.len() == 0 {
        0
    } else {
        tunnel_net_count(actions.drop_last()) + tunnel_count_change(actions.last())
    }
}

/// A row of steps, each from the state that the one before it led to.
pub open spec fn tunnel_run<E>(
    states: Seq<TunnelState>,
    events: Seq<TunnelEvent<E>>,
    actions: Seq<TunnelAction<E>>,
) -> bool {
    &&& states.len() == events.len() + 1
    &&& actions.len() == events.len()
    &&& forall|i: int|
        0 <= i < events.len() ==> #[trigger] tunnel_step(
            states[i],
            events[i],
            states[i + 1],
            actions[i],
        )
}

/// However an accepted connection goes, it is counted from the relay to the end:
/// once it is over, the number of open connections is what it was before. And it is
/// over after no more than five steps.
pub proof fn lemma_tunnel_count_balances<E>(
    states: Seq<TunnelState>,
    events: Seq<TunnelEvent<E>>,
    actions: Seq<TunnelAction<E>>,
)
    requires
        tunnel_run(states, events, actions),
        states[0] is Opening,
    ensures
        tunnel_net_count(actions) == states.last().counted(),
        states.last() is Ended ==> tunnel_net_count(actions) == 0,
        events.len() <= states.last().rank() <= 5,
    decreases events.len(),
{
    if events.len() > 0 {
        let n = events.len() - 1;
        assert(tunnel_step(states[n], events[n], states[n + 1], actions[n]));
        assert forall|i: int| 0 <= i < n implies #[trigger] tunnel_step(
            states.drop_last()[i],
            events.drop_last()[i],
            states.drop_last()[i + 1],
            actions.drop_last()[i],
        ) by {
            assert(tunnel_step(states[i], events[i], states[i + 1], actions[i]));
        }
        lemma_tunnel_count_balances(states.drop_last(), events.drop_last(), actions.drop_last());
    }
}

/// The two ends agree on the target: what one end sends for it starts with the
/// command to forward, and the other end, once it has read two pieces of what follows
/// as it asks for them, has read all of it and has exactly this target resolved.
pub proof fn lemma_target_arrives<A, E, F>(
    target: String,
    sending: TunnelState,
    bytes: Vec<u8>,
    states: Seq<ForwardState>,
    events: Seq<ForwardEvent<A, E>>,
    actions: Seq<ForwardAction<A, E>>,
)
    requires
        field_fits(target@),
        tunnel_step(
            TunnelState::Opening { target },
            TunnelEvent::<F>::Opened,
            sending,
            TunnelAction::SendRequest(bytes),
        ),
        forward_run(states, events, actions),
        states[0] matches ForwardState::Reading { reader } && reader@ == fresh_reader(
            Command::Forward,
        ),
        events.len() >= 2,
        events[0] is Read,
        events[1] is Read,
        (events[0]->Read_0@ + events[1]->Read_0@).is_prefix_of(bytes@.skip(1)),
    ensures
        events[0]->Read_0@ + events[1]->Read_0@ == bytes@.skip(1),
        command_of(bytes@[0]) == Some(Command::Forward),
        actions[1] matches ForwardAction::Resolve { target: resolved, .. } && resolved@ == target@,
{
    reveal_with_fuel(read_from, 3);
    let request = RequestView { command: Command::Forward, fields: seq![target@] };
    let first = events[0]->Read_0@;
    let second = events[1]->Read_0@;
    lemma_request_read_back(request, Seq::empty());
    let stream = bytes@.skip(1);
    assert(stream + Seq::<u8>::empty() =~= stream);
    assert(forward_step(states[0], events[0], states[0int + 1], actions[0]));
    assert(forward_step(states[1], events[1], states[1int + 1], actions[1]));
    let read = first + second;
    assert(read == stream.take(read.len() as int));
    assert(stream.take(2) =~= read.take(2));
    assert(stream.take(2) =~= first);
    let reading = states[1]->reader@;
    assert(fresh_reader(Command::Forward).fed(first) == ReaderStepView::More(reading));
    assert(stream.skip(2).take(second.len() as int) =~= read.skip(2));
    assert(read.skip(2) =~= second);
    assert(stream.skip(2).skip(second.len() as int) =~= Seq::<u8>::empty());
    assert(stream =~= read);
}

/// The target is read as a length, high byte first, and as many bytes; what is read is
/// resolved within ten seconds if it is valid UTF-8, and given up with the decoder's
/// error if it is not.
pub proof fn lemma_forward_reading<A, E>(
    reader: RequestReader,
    bytes: Vec<u8>,
    next: ForwardState,
    action: ForwardAction<A, E>,
)
    ensures
        (ForwardState::Reading { reader }).can_take(ForwardEvent::<A, E>::Read(bytes)) <==> {
            &&& reader.command == Command::Forward
            &&& reader.fields@.len() == 0
            &&& bytes@.len() == match reader.body {
                None => 2int,
                Some(len) => len as int,
            }
        },
        forward_step(
            (ForwardState::Reading { reader }),
            ForwardEvent::Read(bytes),
            next,
            action,
        ) && reader.body is None ==> {
            &&& next matches ForwardState::Reading { reader: after }
            &&& after.command == Command::Forward
            &&& after.fields@.len() == 0
            &&& after.body is Some
            &&& after.body->0 == bytes@[0] * 256 + bytes@[1]
            &&& action == ForwardAction::<A, E>::Read(after.body->0 as usize)
        },
        forward_step(
            (ForwardState::Reading { reader }),
            ForwardEvent::Read(bytes),
            next,
            action,
        ) && reader.body is Some && valid_utf8(bytes@) ==> {
            &&& next is Resolving
            &&& action matches ForwardAction::Resolve { target, timeout_secs }
            &&& target@ == decode_utf8(bytes@)
            &&& timeout_secs == 10
        },
        forward_step(
            (ForwardState::Reading { reader }),
            ForwardEvent::Read(bytes),
            next,
            action,
        ) && reader.body is Some && !valid_utf8(bytes@) ==> {
            &&& next is Ended
            &&& action == ForwardAction::<A, E>::Fail(
                ForwardFailure::InvalidUtf8(utf8_refusal(bytes@)),
            )
        },
{
    lemma_reader_takes_fields(reader@, bytes@);
    if let ForwardState::Reading { reader: after } = next {
        if after@.fields.len() == 0 {
            assert(after.fields@.len() == 0);
        }
    }
}

/// A target that has an address is connected to, at the first and within ten seconds;
/// it is given up for want of an address only where there is none.
pub proof fn lemma_forward_resolved<A, E>(
    addresses: Vec<A>,
    next: ForwardState,
    action: ForwardAction<A, E>,
)
    ensures
        ForwardState::Resolving.can_take(ForwardEvent::<A, E>::Resolved(addresses)),
        forward_step(
            ForwardState::Resolving,
            ForwardEvent::Resolved(addresses),
            next,
            action,
        ) && addresses@.len() > 0 ==> {
            &&& next is Connecting
            &&& action == (ForwardAction::<A, E>::Connect { to: addresses@[0], timeout_secs: 10 })
        },
        forward_step(
            ForwardState::Resolving,
            ForwardEvent::Resolved(addresses),
            next,
            action,
        ) && addresses@.len() == 0 ==> {
            &&& next is Ended
            &&& action == ForwardAction::<A, E>::Fail(
                ForwardFailure::Refused(ForwardError::NoAddress),
            )
        },
{
}

/// A connection that is made is relayed; when the relay ends, the stream and then the
/// TCP connection are shut down, and only then it is over. Time that runs out is told
/// apart by what it ran out for.
pub proof fn lemma_forward_course<A, E>(next: ForwardState, action: ForwardAction<A, E>)
    ensures
        ForwardState::Connecting.can_take(ForwardEvent::<A, E>::Connected),
        forward_step(ForwardState::Connecting, ForwardEvent::Connected, next, action) ==> {
            &&& next is Relaying
            &&& action is Relay
        },
        ForwardState::Relaying.can_take(ForwardEvent::<A, E>::RelayEnded),
        forward_step(ForwardState::Relaying, ForwardEvent::RelayEnded, next, action) ==> {
            &&& next is ClosingStream
            &&& action is ShutDownStream
        },
        ForwardState::ClosingStream.can_take(ForwardEvent::<A, E>::ShutDown),
        forward_step(ForwardState::ClosingStream, ForwardEvent::ShutDown, next, action) ==> {
            &&& next is ClosingTcp
            &&& action is ShutDownTcp
        },
        ForwardState::ClosingTcp.can_take(ForwardEvent::<A, E>::ShutDown),
        forward_step(ForwardState::ClosingTcp, ForwardEvent::ShutDown, next, action) ==> {
            &&& next is Ended
            &&& action is Finish
        },
        ForwardState::Resolving.can_take(ForwardEvent::<A, E>::TimedOut),
        forward_step(ForwardState::Resolving, ForwardEvent::TimedOut, next, action) ==> {
            &&& next is Ended
            &&& action == ForwardAction::<A, E>::Fail(
                ForwardFailure::Refused(ForwardError::ResolveTimeout),
            )
        },
        ForwardState::Connecting.can_take(ForwardEvent::<A, E>::TimedOut),
        forward_step(ForwardState::Connecting, ForwardEvent::TimedOut, next, action) ==> {
            &&& next is Ended
            &&& action == ForwardAction::<A, E>::Fail(
                ForwardFailure::Refused(ForwardError::ConnectTimeout),
            )
        },
{
}

/// A failure to read, resolve or connect ends the request with that failure.
pub proof fn lemma_forward_failure<A, E>(
    state: ForwardState,
    e: E,
    next: ForwardState,
    action: ForwardAction<A, E>,
)
    ensures
        state.can_take(ForwardEvent::<A, E>::Failed(e)) <==> {
            ||| state is Reading
            ||| state is Resolving
            ||| state is Connecting
        },
        forward_step(state, ForwardEvent::Failed(e), next, action) ==> {
            &&& next is Ended
            &&& action == ForwardAction::<A, E>::Fail(ForwardFailure::Io(e))
        },
{
}

/// An accepted connection has its target sent as a request to forward and is then
/// relayed; when the relay ends, the stream and then the TCP connection are shut down,
/// and only then it is over.
pub proof fn lemma_tunnel_course<E>(target: String, next: TunnelState, action: TunnelAction<E>)
    ensures
        (TunnelState::Opening { target }).can_take(TunnelEvent::<E>::Opened),
        tunnel_step((TunnelState::Opening { target }), TunnelEvent::Opened, next, action) ==> {
            &&& next is Sending
            &&& action matches TunnelAction::SendRequest(bytes)
            &&& bytes@.len() == 3 + encode_utf8(target@).len()
            &&& bytes@[0] == 10
            &&& stands_at(bytes@, 1, target@)
        },
        TunnelState::Sending.can_take(TunnelEvent::<E>::Written),
        tunnel_step(TunnelState::Sending, TunnelEvent::Written, next, action) ==> {
            &&& next is Relaying
            &&& action is Relay
        },
        TunnelState::Relaying.can_take(TunnelEvent::<E>::RelayEnded),
        tunnel_step(TunnelState::Relaying, TunnelEvent::RelayEnded, next, action) ==> {
            &&& next is ClosingStream
            &&& action is ShutDownStream
        },
        TunnelState::ClosingStream.can_take(TunnelEvent::<E>::ShutDown),
        tunnel_step(TunnelState::ClosingStream, TunnelEvent::ShutDown, next, action) ==> {
            &&& next is ClosingTcp
            &&& action is ShutDownTcp
        },
        TunnelState::ClosingTcp.can_take(TunnelEvent::<E>::ShutDown),
        tunnel_step(TunnelState::ClosingTcp, TunnelEvent::ShutDown, next, action) ==> {
            &&& next is Ended
            &&& action is Finish
        },
{
    lemma_forward_request_bytes(target);
}

/// A failure to open the stream or to send the target ends the connection with that
/// failure.
pub proof fn lemma_tunnel_failure<E>(
    state: TunnelState,
    e: E,
    next: TunnelState,
    action: TunnelAction<E>,
)
    ensures
        state.can_take(TunnelEvent::Failed(e)) <==> state is Opening || state is Sending,
        tunnel_step(state, TunnelEvent::Failed(e), next, action) ==> {
            &&& next is Ended
            &&& action == TunnelAction::Fail(e)
        },
{
}

} // verus!
