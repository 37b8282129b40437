//! Requests that have the server listen on the client's behalf.
//!
//! The client asks ([`start_reverse_forward`], [`start_reverse_socks5`]), and the
//! server reads what it is asked for and serves it ([`handle_reverse_proxy`],
//! [`handle_reverse_socks5`]).

use vstd::prelude::*;
use crate::wire::{Command, ReaderStep, Request, RequestReader};
#[allow(unused_imports)]
use vstd::utf8::*;
#[allow(unused_imports)]
use crate::text::utf8_refusal;
#[allow(unused_imports)]
use crate::wire::{
    command_of, fresh_reader, lemma_forward_request_bytes, lemma_reader_takes_fields,
    lemma_request_read_back, lemma_reverse_forward_request_bytes,
    lemma_reverse_socks5_request_bytes, read_from, request_bytes, request_fits, stands_at,
    ReadOutcome, ReaderStepView, RequestView,
};

verus! {

/// Where the client stands with such a request.
pub enum AskState {
    /// A stream is being opened.
    Opening { request: Request },
    /// The request is being sent.
    Sending,
    /// It is over.
    Ended,
}

/// What happened. Failures are of type `E`.
pub enum AskEvent<E> {
    /// The order to stop came before the stream was open.
    Cancelled,
    /// The stream is open.
    Opened,
    /// Everything was written and flushed.
    Written,
    /// The opening or the write failed.
    Failed(E),
}

/// What to do next.
pub enum AskAction<E> {
    /// Open a stream, unless the order to stop comes first.
    Open,
    /// Write this to the stream and flush it.
    SendRequest(Vec<u8>),
    /// It is over.
    Finish,
    /// It is over, for this reason.
    Fail(E),
}

impl AskState {
    /// Whether the event can happen in this state.
    pub open spec fn can_take<E>(self, event: AskEvent<E>) -> bool {
        match self {
            AskState::Opening { .. } => !(event is Written),
            AskState::Sending => event is Written || event is Failed,
            AskState::Ended => false,
        }
    }

    /// Whether the event can happen in this state.
    pub fn takes<E>(&self, event: &AskEvent<E>) -> (yes: bool)
        ensures
            yes == self.can_take(*event),
    {
        match (self, event) {
            (AskState::Opening { .. }, AskEvent::Written) => false,
            (AskState::Opening { .. }, _) => true,
            (AskState::Sending, AskEvent::Written) => true,
            (AskState::Sending, AskEvent::Failed(_)) => true,
            _ => false,
        }
    }
}

/// What an event leads to, at the client.
pub open spec fn ask_step<E>(
    state: AskState,
    event: AskEvent<E>,
    next: AskState,
    action: AskAction<E>,
) -> bool {
    &&& state.can_take(event)
    &&& match (state, event) {
        (_, AskEvent::Failed(e)) => {
            &&& next is Ended
            &&& action == AskAction::Fail(e)
        },
        (AskState::Opening { request }, AskEvent::Opened) => {
            &&& next is Sending
            &&& action matches AskAction::SendRequest(bytes) && bytes@ == request_bytes(request@)
        },
        (_, _) => {
            &&& next is Ended
            &&& action is Finish
        },
    }
}

/// Begins to ask the server to listen on `local_addr` and to have what comes in
/// forwarded to `remote_addr`.
pub fn start_reverse_forward<E>(local_addr: String, remote_addr: String) -> (r: (
    AskState,
    AskAction<E>,
))
    ensures
        r.0 == (AskState::Opening {
            request: Request::ReverseForward { bind: local_addr, forward: remote_addr },
        }),
        r.1 == AskAction::<E>::Open,
{
    let request = Request::ReverseForward { bind: local_addr, forward: remote_addr };
    (AskState::Opening { request }, AskAction::Open)
}

/// Begins to ask the server to listen on `local_addr` and to speak SOCKS5 there.
pub fn start_reverse_socks5<E>(local_addr: String) -> (r: (AskState, AskAction<E>))
    ensures
        r.0 == (AskState::Opening { request: Request::ReverseSocks5 { bind: local_addr } }),
        r.1 == AskAction::<E>::Open,
{
    (AskState::Opening { request: Request::ReverseSocks5 { bind: local_addr } }, AskAction::Open)
}

impl AskState {
    /// One step at the client.
    pub fn next<E>(self, event: AskEvent<E>) -> (r: (AskState, AskAction<E>))
        requires
            self.can_take(event),
        ensures
            ask_step(self, event, r.0, r.1),
    {
        match (self, event) {
            (_, AskEvent::Failed(e)) => (AskState::Ended, AskAction::Fail(e)),
            (AskState::Opening { request }, AskEvent::Opened) => (
                AskState::Sending,
                AskAction::SendRequest(request.encode()),
            ),
            (_, _) => (AskState::Ended, AskAction::Finish),
        }
    }
}

/// Where the server stands with such a request.
pub enum ServeState {
    /// The request is being read.
    Reading { reader: RequestReader },
    /// It is being served.
    Serving,
    /// It is over.
    Ended,
}

/// What happened. Failures are of type `E`.
pub enum ServeEvent<E> {
    /// Exactly the bytes asked for were read.
    Read(Vec<u8>),
    /// The read failed.
    Failed(E),
    /// The service ended, well or not.
    ServiceEnded,
}

/// Why it failed.
pub enum ServeFailure<E> {
    Io(E),
    /// An address is not valid UTF-8.
    InvalidUtf8(core::str::Utf8Error),
}

/// What to do next.
pub enum ServeAction<E> {
    /// Read exactly so many bytes from the stream.
    Read(usize),
    /// Listen on `bind`, and forward to `forward` what comes in.
    Forward { bind: String, forward: String },
    /// Listen on `bind` for SOCKS5.
    Socks5 { bind: String },
    /// It is over.
    Finish,
    /// It is over, for this reason.
    Fail(ServeFailure<E>),
}

/// The request that an action serves.
pub open spec fn served<E>(action: ServeAction<E>) -> Option<RequestView> {
    match action {
        ServeAction::Forward { bind, forward } => Some(
            RequestView { command: Command::ReverseForward, fields: seq![bind@, forward@] },
        ),
        ServeAction::Socks5 { bind } => Some(
            RequestView { command: Command::ReverseSocks5, fields: seq![bind@] },
        ),
        _ => None,
    }
}

impl ServeState {
    /// Whether the event can happen in this state.
    pub open spec fn can_take<E>(self, event: ServeEvent<E>) -> bool {
        match (self, event) {
            (ServeState::Reading { reader }, ServeEvent::Read(bytes)) => {
                &&& reader.command != Command::Forward
                &&& reader@.wf()
                &&& bytes@.len() == reader@.needed()
            },
            (ServeState::Reading { .. }, ServeEvent::Failed(_)) => true,
            (ServeState::Serving, ServeEvent::ServiceEnded) => true,
            _ => false,
        }
    }

    /// Whether the event can happen in this state.
    pub fn takes<E>(&self, event: &ServeEvent<E>) -> (yes: bool)
        ensures
            yes == self.can_take(*event),
    {
        match (self, event) {
            (ServeState::Reading { reader }, ServeEvent::Read(bytes)) => {
                let limit: usize = match reader.command {
                    Command::Forward => 0,
                    Command::ReverseForward => 2,
                    Command::ReverseSocks5 => 1,
                };
                reader.fields.len() < limit && bytes.len() == reader.needed()
            },
            (ServeState::Reading { .. }, ServeEvent::Failed(_)) => true,
            (ServeState::Serving, ServeEvent::ServiceEnded) => true,
            _ => false,
        }
    }
}

/// What an event leads to, at the server.
pub open spec fn serve_step<E>(
    state: ServeState,
    event: ServeEvent<E>,
    next: ServeState,
    action: ServeAction<E>,
) -> bool {
    &&& state.can_take(event)
    &&& match (state, event) {
        (ServeState::Reading { reader }, ServeEvent::Read(bytes)) => match reader@.fed(bytes@) {
            ReaderStepView::More(more) => {
                &&& next matches ServeState::Reading { reader: after } && after@ == more
                &&& action matches ServeAction::Read(count) && count == more.needed()
            },
            ReaderStepView::Done(request) => {
                &&& next is Serving
                &&& served(action) == Some(request)
            },
            ReaderStepView::Invalid(e) => {
                &&& next is Ended
                &&& action == ServeAction::<E>::Fail(ServeFailure::InvalidUtf8(e))
            },
        },
        (_, ServeEvent::Failed(e)) => {
            &&& next is Ended
            &&& action == ServeAction::Fail(ServeFailure::Io(e))
        },
        (_, _) => {
            &&& next is Ended
            &&& action is Finish
        },
    }
}

/// Begins behind the command byte of a request to listen and forward.
pub fn handle_reverse_proxy<E>() -> (r: (ServeState, ServeAction<E>))
    ensures
        r.0 matches ServeState::Reading { reader } && reader@ == fresh_reader(
            Command::ReverseForward,
        ),
        r.1 == ServeAction::<E>::Read(2),
{
    let reader = RequestReader::new(Command::ReverseForward);
    let count = reader.needed();
    (ServeState::Reading { reader }, ServeAction::Read(count))
}

/// Begins behind the command byte of a request to listen for SOCKS5.
pub fn handle_reverse_socks5<E>() -> (r: (ServeState, ServeAction<E>))
    ensures
        r.0 matches ServeState::Reading { reader } && reader@ == fresh_reader(
            Command::ReverseSocks5,
        ),
        r.1 == ServeAction::<E>::Read(2),
{
    let reader = RequestReader::new(Command::ReverseSocks5);
    let count = reader.needed();
    (ServeState::Reading { reader }, ServeAction::Read(count))
}

impl ServeState {
    /// One step at the server.
    pub fn next<E>(self, event: ServeEvent<E>) -> (r: (ServeState, ServeAction<E>))
        requires
            self.can_take(event),
        ensures
            serve_step(self, event, r.0, r.1),
    {
        match (self, event) {
            (ServeState::Reading { reader }, ServeEvent::Read(bytes)) => {
                match reader.feed(bytes.as_slice()) {
                    ReaderStep::More(reader) => {
                        let count = reader.needed();
                        (ServeState::Reading { reader }, ServeAction::Read(count))
                    },
                    ReaderStep::Done(Request::ReverseForward { bind, forward }) => (
                        ServeState::Serving,
                        ServeAction::Forward { bind, forward },
                    ),
                    ReaderStep::Done(Request::ReverseSocks5 { bind }) => (
                        ServeState::Serving,
                        ServeAction::Socks5 { bind },
                    ),
                    ReaderStep::Done(_) => vstd::pervasive::unreached(),
                    ReaderStep::Invalid(e) => (
                        ServeState::Ended,
                        ServeAction::Fail(ServeFailure::InvalidUtf8(e)),
                    ),
                }
            },
            (_, ServeEvent::Failed(e)) => (
                ServeState::Ended,
                ServeAction::Fail(ServeFailure::Io(e)),
            ),
            (_, _) => (ServeState::Ended, ServeAction::Finish),
        }
    }
}

/// A row of steps at the server, each from the state that the one before it led to.
pub open spec fn serve_run<E>(
    states: Seq<ServeState>,
    events: Seq<ServeEvent<E>>,
    actions: Seq<ServeAction<E>>,
) -> bool {
    &&& states.len() == events.len() + 1
    &&& actions.len() == events.len()
    &&& forall|i: int|
        0 <= i < events.len() ==> #[trigger] serve_step(
            states[i],
            events[i],
            states[i + 1],
            actions[i],
        )
}

/// All bytes that a row of events brought, in order.
pub open spec fn bytes_read<E>(events: Seq<ServeEvent<E>>) -> Seq<u8>
    decreases events.len(),
{
    if events.len() == 0 {
        Seq::empty()
    } else {
        (match events[0] {
            ServeEvent::Read(bytes) => bytes@,
            _ => Seq::empty(),
        }) + bytes_read(events.drop_first())
    }
}

proof fn lemma_serve_reads<E>(
    states: Seq<ServeState>,
    events: Seq<ServeEvent<E>>,
    actions: Seq<ServeAction<E>>,
    rest: Seq<u8>,
)
    requires
        serve_run(states, events, actions),
        states[0] is Reading,
        forall|i: int| 0 <= i < events.len() ==> #[trigger] events[i] is Read,
        !(states.last() is Reading),
    ensures
        match served(actions.last()) {
            Some(request) => read_from(states[0]->reader@, bytes_read(events) + rest)
                == ReadOutcome::Done(request, rest),
            None => read_from(states[0]->reader@, bytes_read(events) + rest) is Invalid,
        },
    decreases events.len(),
{
    reveal_with_fuel(read_from, 2);
    reveal_with_fuel(bytes_read, 2);
    assert(serve_step(states[0], events[0], states[0int + 1], actions[0]));
    assert(events[0] is Read);
    let bytes = events[0]->Read_0@;
    let stream = bytes_read(events) + rest;
    if events.len() > 1 {
        assert(events[1] is Read);
        assert(serve_step(states[1], events[1], states[1int + 1], actions[1]));
        let later_states = states.drop_first();
        let later_events = events.drop_first();
        let later_actions = actions.drop_first();
        assert forall|i: int| 0 <= i < later_events.len() implies #[trigger] serve_step(
            later_states[i],
            later_events[i],
            later_states[i + 1],
            later_actions[i],
        ) by {
            let j = i + 1;
            assert(serve_step(states[j], events[j], states[j + 1], actions[j]));
        }
        lemma_serve_reads(later_states, later_events, later_actions, rest);
        assert(stream.take(bytes.len() as int) =~= bytes);
        assert(stream.skip(bytes.len() as int) =~= bytes_read(later_events) + rest);
    } else {
        assert(stream =~= bytes + rest);
        assert(stream.take(bytes.len() as int) =~= bytes);
        assert(stream.skip(bytes.len() as int) =~= rest);
    }
}

/// The server serves what the client asked for: once it has stopped reading, in the
/// pieces that it asks for, what the client sent behind the command byte, it has read
/// all of it and serves exactly the client's request.
pub proof fn lemma_reverse_request_arrives<E, F>(
    request: Request,
    sending: AskState,
    bytes: Vec<u8>,
    states: Seq<ServeState>,
    events: Seq<ServeEvent<E>>,
    actions: Seq<ServeAction<E>>,
)
    requires
        request_fits(request@),
        ask_step(
            AskState::Opening { request },
            AskEvent::<F>::Opened,
            sending,
            AskAction::SendRequest(bytes),
        ),
        serve_run(states, events, actions),
        states[0] matches ServeState::Reading { reader } && reader@ == fresh_reader(
            request@.command,
        ),
        forall|i: int| 0 <= i < events.len() ==> #[trigger] events[i] is Read,
        !(states.last() is Reading),
        bytes_read(events).is_prefix_of(bytes@.skip(1)),
    ensures
        bytes_read(events) == bytes@.skip(1),
        command_of(bytes@[0]) == Some(request@.command),
        served(actions.last()) == Some(request@),
{
    let read = bytes_read(events);
    let rest = bytes@.skip(1).skip(read.len() as int);
    assert(read + rest =~= bytes@.skip(1));
    lemma_serve_reads(states, events, actions, rest);
    lemma_request_read_back(request@, Seq::empty());
    assert(bytes@.skip(1) + Seq::<u8>::empty() =~= bytes@.skip(1));
    assert(read + rest =~= read);
}

/// The client sends its request once a stream is open, unless it is told to stop
/// before; then it is done. A failure ends it with that failure.
pub proof fn lemma_ask_course<E>(request: Request, e: E, next: AskState, action: AskAction<E>)
    ensures
        (AskState::Opening { request }).can_take(AskEvent::<E>::Cancelled),
        ask_step((AskState::Opening { request }), AskEvent::Cancelled, next, action) ==> {
            &&& next is Ended
            &&& action is Finish
        },
        (AskState::Opening { request }).can_take(AskEvent::<E>::Opened),
        ask_step((AskState::Opening { request }), AskEvent::Opened, next, action) ==> {
            &&& next is Sending
            &&& action matches AskAction::SendRequest(bytes)
            &&& match request {
                Request::ReverseForward { bind, forward } => {
                    &&& bytes@.len() == 5 + encode_utf8(bind@).len() + encode_utf8(forward@).len()
                    &&& bytes@[0] == 20
                    &&& stands_at(bytes@, 1, bind@)
                    &&& stands_at(bytes@, 3int + encode_utf8(bind@).len(), forward@)
                },
                Request::ReverseSocks5 { bind } => {
                    &&& bytes@.len() == 3 + encode_utf8(bind@).len()
                    &&& bytes@[0] == 21
                    &&& stands_at(bytes@, 1, bind@)
                },
                Request::Forward { target } => {
                    &&& bytes@.len() == 3 + encode_utf8(target@).len()
                    &&& bytes@[0] == 10
                    &&& stands_at(bytes@, 1, target@)
                },
            }
        },
        AskState::Sending.can_take(AskEvent::<E>::Written),
        ask_step(AskState::Sending, AskEvent::Written, next, action) ==> {
            &&& next is Ended
            &&& action is Finish
        },
        (AskState::Opening { request }).can_take(AskEvent::Failed(e)),
        ask_step((AskState::Opening { request }), AskEvent::Failed(e), next, action) ==> {
            &&& next is Ended
            &&& action == AskAction::Fail(e)
        },
        AskState::Sending.can_take(AskEvent::Failed(e)),
        ask_step(AskState::Sending, AskEvent::Failed(e), next, action) ==> {
            &&& next is Ended
            &&& action == AskAction::Fail(e)
        },
{
    match request {
        Request::ReverseForward { bind, forward } => {
            lemma_reverse_forward_request_bytes(bind, forward);
        },
        Request::ReverseSocks5 { bind } => {
            lemma_reverse_socks5_request_bytes(bind);
        },
        Request::Forward { target } => {
            lemma_forward_request_bytes(target);
        },
    }
}

/// The server reads each address as a length, high byte first, and as many bytes, and
/// gives up with the decoder's error where these are not valid UTF-8. A request for
/// SOCKS5 is served with its one address; one to forward is served with its two, in the
/// order in which they came.
pub proof fn lemma_serve_reading<E>(
    reader: RequestReader,
    bytes: Vec<u8>,
    next: ServeState,
    action: ServeAction<E>,
)
    ensures
        (ServeState::Reading { reader }).can_take(ServeEvent::<E>::Read(bytes)) <==> {
            &&& reader.command != Command::Forward
            &&& reader.fields@.len() < (if reader.command == Command::ReverseForward {
                2int
            } else {
                1int
            })
            &&& bytes@.len() == match reader.body {
                None => 2int,
                Some(len) => len as int,
            }
        },
        serve_step((ServeState::Reading { reader }), ServeEvent::Read(bytes), next, action)
            && reader.body is None ==> {
            &&& next matches ServeState::Reading { reader: after }
            &&& after@.command == reader@.command
            &&& after@.fields == reader@.fields
            &&& after.body is Some
            &&& after.body->0 == bytes@[0] * 256 + bytes@[1]
            &&& action == ServeAction::<E>::Read(after.body->0 as usize)
        },
        serve_step((ServeState::Reading { reader }), ServeEvent::Read(bytes), next, action)
            && reader.body is Some && !valid_utf8(bytes@) ==> {
            &&& next is Ended
            &&& action == ServeAction::<E>::Fail(ServeFailure::InvalidUtf8(utf8_refusal(bytes@)))
        },
        serve_step((ServeState::Reading { reader }), ServeEvent::Read(bytes), next, action)
            && reader.body is Some && valid_utf8(bytes@) && reader.command == Command::ReverseSocks5
            ==> {
            &&& next is Serving
            &&& action matches ServeAction::Socks5 { bind } && bind@ == decode_utf8(bytes@)
        },
        serve_step((ServeState::Reading { reader }), ServeEvent::Read(bytes), next, action)
            && reader.body is Some && valid_utf8(bytes@) && reader.command
            == Command::ReverseForward && reader.fields@.len() == 0 ==> {
            &&& next matches ServeState::Reading { reader: after }
            &&& after.command == Command::ReverseForward
            &&& after@.fields == seq![decode_utf8(bytes@)]
            &&& after.body is None
            &&& action == ServeAction::<E>::Read(2)
        },
        serve_step((ServeState::Reading { reader }), ServeEvent::Read(bytes), next, action)
            && reader.body is Some && valid_utf8(bytes@) && reader.command
            == Command::ReverseForward && reader.fields@.len() == 1 ==> {
            &&& next is Serving
            &&& action matches ServeAction::Forward { bind, forward }
            &&& bind@ == reader.fields@[0]@
            &&& forward@ == decode_utf8(bytes@)
        },
{
    lemma_reader_takes_fields(reader@, bytes@);
    let fields = reader@.fields.push(decode_utf8(bytes@));
    if let ServeAction::Socks5 { bind } = action {
        assert(seq![bind@][0] == bind@);
    }
    if let ServeAction::Forward { bind, forward } = action {
        assert(seq![bind@, forward@][0] == bind@);
        assert(seq![bind@, forward@][1] == forward@);
    }
    assert(fields.last() == decode_utf8(bytes@));
    if reader.fields@.len() == 1 {
        assert(fields[0] == reader.fields@[0]@);
        assert(fields[1] == decode_utf8(bytes@));
    }
    if reader.fields@.len() == 0 {
        assert(fields[0] == decode_utf8(bytes@));
    }
}

/// A failure to read ends the request with that failure, and the end of the service
/// ends it well.
pub proof fn lemma_serve_end<E>(
    reader: RequestReader,
    e: E,
    next: ServeState,
    action: ServeAction<E>,
)
    ensures
        (ServeState::Reading { reader }).can_take(ServeEvent::Failed(e)),
        serve_step((ServeState::Reading { reader }), ServeEvent::Failed(e), next, action) ==> {
            &&& next is Ended
            &&& action == ServeAction::Fail(ServeFailure::Io(e))
        },
        ServeState::Serving.can_take(ServeEvent::<E>::ServiceEnded),
        serve_step(ServeState::Serving, ServeEvent::ServiceEnded, next, action) ==> {
            &&& next is Ended
            &&& action is Finish
        },
{
}

} // verus!
