//! The SOCKS5 exchange with a local client, up to the relay of its connection.

use vstd::prelude::*;
use vstd::utf8::*;
use crate::address::{format_host_port, format_ipv4};
use crate::text::text_or_replacement;
use crate::wire::{Command, Request};
#[allow(unused_imports)]
use crate::address::{decimal, host_port, ipv4_text, lemma_address_texts, lemma_decimal_shape};
#[allow(unused_imports)]
use crate::text::{lemma_encode_concat, lossy_text, readable_text};
#[allow(unused_imports)]
use crate::wire::{
    command_of, field_fits, fresh_reader, lemma_forward_request_bytes, lemma_request_read_back,
    read_from, request_bytes, stands_at, ReadOutcome, RequestView,
};

verus! {

/// The size of the buffer that both messages of the client are read into.
pub const BUFFER_LEN: usize = 256;

/// Why a client is turned away.
#[derive(Debug, Clone, Copy, PartialEq, Eq, Structural)]
pub enum Socks5Error {
    /// The greeting is not of version 5.
    InvalidVersion,
    /// The request is not of version 5, or asks for something else than a connection.
    InvalidRequest,
    /// The target is an IPv6 address.
    Ipv6NotSupported,
    /// The target is of no known kind.
    InvalidAddressType,
}

impl Socks5Error {
    /// The error in words.
    pub fn message(self) -> (text: &'static str)
        ensures
            text@ == match self {
                Socks5Error::InvalidVersion => "Invalid SOCKS5 version"@,
                Socks5Error::InvalidRequest => "Invalid SOCKS5 request"@,
                Socks5Error::Ipv6NotSupported => "IPv6 not supported"@,
                Socks5Error::InvalidAddressType => "Invalid address type"@,
            },
    {
        match self {
            Socks5Error::InvalidVersion => "Invalid SOCKS5 version",
            Socks5Error::InvalidRequest => "Invalid SOCKS5 request",
            Socks5Error::Ipv6NotSupported => "IPv6 not supported",
            Socks5Error::InvalidAddressType => "Invalid address type",
        }
    }
}

/// The buffer before anything is read.
pub open spec fn blank_buffer() -> Seq<u8> {
    Seq::new(BUFFER_LEN as nat, |i: int| 0u8)
}

/// The buffer after a read: the bytes read at its front, and behind them what was
/// there before.
pub open spec fn overlaid(buffer: Seq<u8>, data: Seq<u8>) -> Seq<u8> {
    data + buffer.skip(data.len() as int)
}

/// The port in two bytes, high byte first.
pub open spec fn port_at(buffer: Seq<u8>, at: int) -> u16 {
    (buffer[at] * 256 + buffer[at + 1]) as u16
}

/// The bytes of the domain name in a request for one.
pub open spec fn domain_bytes(buffer: Seq<u8>) -> Seq<u8> {
    buffer.subrange(5, 5 + buffer[4])
}

/// Whether a request that names a domain has all of the name and the port inside
/// the buffer.
pub open spec fn domain_inside(buffer: Seq<u8>) -> bool {
    buffer[0] == 5 && buffer[1] == 1 && buffer[3] == 3 ==> 5 + buffer[4] + 1 < BUFFER_LEN
}

/// The target that a request in the buffer asks for, as `host:port`.
pub open spec fn requested_target(buffer: Seq<u8>) -> Result<Seq<char>, Socks5Error> {
    if buffer[0] != 5 || buffer[1] != 1 {
        Err(Socks5Error::InvalidRequest)
    } else if buffer[3] == 1 {
        Ok(
            host_port(
                ipv4_text(buffer[4], buffer[5], buffer[6], buffer[7]),
                port_at(buffer, 8),
            ),
        )
    } else if buffer[3] == 3 {
        Ok(host_port(readable_text(domain_bytes(buffer)), port_at(buffer, 5 + buffer[4])))
    } else if buffer[3] == 4 {
        Err(Socks5Error::Ipv6NotSupported)
    } else {
        Err(Socks5Error::InvalidAddressType)
    }
}

proof fn lemma_host_port_fits(host: Seq<char>, port: u16)
    requires
        encode_utf8(host).len() <= 3 * BUFFER_LEN,
    ensures
        field_fits(host_port(host, port)),
{
    reveal_strlit(":");
    lemma_decimal_shape(port as nat);
    let tail = ":"@ + decimal(port as nat);
    assert(is_ascii_chars(tail));
    is_ascii_chars_encode_utf8(tail);
    assert(host_port(host, port) =~= host + tail);
    lemma_encode_concat(host, tail);
}

proof fn lemma_ipv4_text_is_short(a: u8, b: u8, c: u8, d: u8)
    ensures
        encode_utf8(ipv4_text(a, b, c, d)).len() <= 23,
{
    reveal_strlit(".");
    lemma_decimal_shape(a as nat);
    lemma_decimal_shape(b as nat);
    lemma_decimal_shape(c as nat);
    lemma_decimal_shape(d as nat);
    assert(is_ascii_chars(ipv4_text(a, b, c, d)));
    is_ascii_chars_encode_utf8(ipv4_text(a, b, c, d));
}

/// Reads the target out of a request. Its length always fits the wire.
pub fn parse_target(buffer: &Vec<u8>) -> (target: Result<String, Socks5Error>)
    requires
        buffer@.len() == BUFFER_LEN,
        domain_inside(buffer@),
    ensures
        match target {
            Ok(text) => {
                &&& requested_target(buffer@) == Ok::<Seq<char>, Socks5Error>(text@)
                &&& field_fits(text@)
            },
            Err(e) => requested_target(buffer@) == Err::<Seq<char>, Socks5Error>(e),
        },
{
    if buffer[0] != 5 || buffer[1] != 1 {
        return Err(Socks5Error::InvalidRequest);
    }
    match buffer[3] {
        1 => {
            let host = format_ipv4(buffer[4], buffer[5], buffer[6], buffer[7]);
            let port: u16 = buffer[8] as u16 * 256 + buffer[9] as u16;
            proof {
                lemma_ipv4_text_is_short(buffer[4], buffer[5], buffer[6], buffer[7]);
                lemma_host_port_fits(host@, port);
            }
            Ok(format_host_port(host, port))
        },
        3 => {
            let len: usize = buffer[4] as usize;
            let host = text_or_replacement(vstd::slice::slice_subrange(buffer.as_slice(), 5, 5 + len));
            let port: u16 = buffer[5 + len] as u16 * 256 + buffer[5 + len + 1] as u16;
            proof {
                lemma_host_port_fits(host@, port);
            }
            Ok(format_host_port(host, port))
        },
        4 => Err(Socks5Error::Ipv6NotSupported),
        _ => Err(Socks5Error::InvalidAddressType),
    }
}

fn blank() -> (buffer: Vec<u8>)
    ensures
        buffer@ == blank_buffer(),
{
    let buffer: Vec<u8> = vec![0u8; BUFFER_LEN];
    assert(buffer@ =~= blank_buffer());
    buffer
}

fn overlay(buffer: &mut Vec<u8>, data: &Vec<u8>)
    requires
        data@.len() <= old(buffer)@.len(),
    ensures
        final(buffer)@ == overlaid(old(buffer)@, data@),
{
    let ghost before = buffer@;
    let mut i: usize = 0;
    while i < data.len()
        invariant
            i <= data@.len() <= before.len(),
            buffer@ == overlaid(before, data@.take(i as int)),
        decreases data@.len() - i,
    {
        buffer.set(i, data[i]);
        i = i + 1;
        assert(buffer@ =~= overlaid(before, data@.take(i as int)));
    }
    assert(data@.take(i as int) =~= data@);
}

/// The answer to a greeting: version 5, no authentication.
pub open spec fn greeting_answer() -> Seq<u8> {
    seq![5u8, 0u8]
}

/// The answer to a request: version 5, success, and an IPv4 address and port of zeros.
pub open spec fn request_answer() -> Seq<u8> {
    seq![5u8, 0u8, 0u8, 1u8, 0u8, 0u8, 0u8, 0u8, 0u8, 0u8]
}

/// Where the exchange with a client stands.
pub enum Socks5State {
    /// The greeting is being read.
    Greeting,
    /// The greeting is being answered. The buffer still holds it.
    AnsweringGreeting { buffer: Vec<u8> },
    /// The request is being read, over the greeting.
    Request { buffer: Vec<u8> },
    /// A stream is being opened.
    Opening { target: String },
    /// The target is being sent over the stream.
    Sending,
    /// The request is being answered.
    Answering,
    /// The connection is being relayed, and counts as one.
    Relaying,
    /// It is over.
    Ended,
}

/// What happened.
pub enum Socks5Event<E> {
    /// A read from the client gave these bytes.
    Read(Vec<u8>),
    /// Everything was written, and flushed where it was to be.
    Written,
    /// The stream is open.
    Opened,
    /// A read, a write or the opening failed.
    Failed(E),
    /// One direction of the relay ended.
    RelayEnded,
}

/// Why the exchange failed.
pub enum Socks5Failure<E> {
    Io(E),
    Refused(Socks5Error),
}

/// What to do next.
pub enum Socks5Action<E> {
    /// Read once from the client, at most so many bytes.
    ReadClient(usize),
    /// Write this to the client.
    WriteClient(Vec<u8>),
    /// Open a stream.
    Open,
    /// Write this to the stream and flush it.
    SendRequest(Vec<u8>),
    /// Count one connection more, and relay in both directions until one ends.
    Relay,
    /// Count one connection less; it is over.
    Finish,
    /// It is over, for this reason.
    Fail(Socks5Failure<E>),
}

impl Socks5State {
    /// Whether the event can happen in this state. A read brings no more than the
    /// buffer holds.
    pub open spec fn can_take<E>(self, event: Socks5Event<E>) -> bool {
        match (self, event) {
            (Socks5State::Greeting, Socks5Event::Read(data)) => data@.len() <= BUFFER_LEN,
            (Socks5State::AnsweringGreeting { buffer }, Socks5Event::Written) => buffer@.len()
                == BUFFER_LEN,
            (Socks5State::Request { buffer }, Socks5Event::Read(data)) => {
                &&& buffer@.len() == BUFFER_LEN
                &&& data@.len() <= BUFFER_LEN
                &&& domain_inside(overlaid(buffer@, data@))
            },
            (Socks5State::Opening { .. }, Socks5Event::Opened) => true,
            (Socks5State::Sending, Socks5Event::Written) => true,
            (Socks5State::Answering, Socks5Event::Written) => true,
            (Socks5State::Relaying, Socks5Event::RelayEnded) => true,
            (Socks5State::Relaying, Socks5Event::Failed(_)) => false,
            (Socks5State::Ended, Socks5Event::Failed(_)) => false,
            (_, Socks5Event::Failed(_)) => true,
            _ => false,
        }
    }

    /// How many connections this exchange has counted: one while it relays.
    pub open spec fn counted(self) -> int {
        if self is Relaying {
            1
        } else {
            0
        }
    }
}

/// What an event leads to.
pub open spec fn socks5_step<E>(
    state: Socks5State,
    event: Socks5Event<E>,
    next: Socks5State,
    action: Socks5Action<E>,
) -> bool {
    &&& state.can_take(event)
    &&& match (state, event) {
        (Socks5State::Relaying, Socks5Event::RelayEnded) => {
            &&& next is Ended
            &&& action is Finish
        },
        (Socks5State::Greeting, Socks5Event::Read(data)) => {
            let got = overlaid(blank_buffer(), data@);
            if got[0] != 5 {
                &&& next is Ended
                &&& action == Socks5Action::<E>::Fail(
                    Socks5Failure::Refused(Socks5Error::InvalidVersion),
                )
            } else {
                &&& next matches Socks5State::AnsweringGreeting { buffer } && buffer@ == got
                &&& action matches Socks5Action::WriteClient(bytes) && bytes@ == greeting_answer()
            }
        },
        (Socks5State::AnsweringGreeting { buffer }, Socks5Event::Written) => {
            &&& next == Socks5State::Request { buffer }
            &&& action == Socks5Action::<E>::ReadClient(BUFFER_LEN)
        },
        (Socks5State::Request { buffer }, Socks5Event::Read(data)) => match requested_target(
            overlaid(buffer@, data@),
        ) {
            Err(e) => {
                &&& next is Ended
                &&& action == Socks5Action::<E>::Fail(Socks5Failure::Refused(e))
            },
            Ok(text) => {
                &&& next matches Socks5State::Opening { target } && target@ == text && field_fits(
                    target@,
                )
                &&& action is Open
            },
        },
        (Socks5State::Opening { target }, Socks5Event::Opened) => {
            &&& next is Sending
            &&& action matches Socks5Action::SendRequest(bytes) && bytes@ == request_bytes(
                RequestView { command: Command::Forward, fields: seq![target@] },
            )
        },
        (Socks5State::Sending, Socks5Event::Written) => {
            &&& next is Answering
            &&& action matches Socks5Action::WriteClient(bytes) && bytes@ == request_answer()
        },
        (Socks5State::Answering, Socks5Event::Written) => {
            &&& next is Relaying
            &&& action is Relay
        },
        (_, Socks5Event::Failed(e)) => {
            &&& next is Ended
            &&& action == Socks5Action::Fail(Socks5Failure::Io(e))
        },
        _ => false,
    }
}

impl Socks5State {
    /// Begins the exchange with a client that has just connected.
    pub fn start<E>() -> (r: (Socks5State, Socks5Action<E>))
        ensures
            r.0 is Greeting,
            r.1 == Socks5Action::<E>::ReadClient(BUFFER_LEN),
    {
        (Socks5State::Greeting, Socks5Action::ReadClient(BUFFER_LEN))
    }

    /// Whether the event can happen in this state.
    pub fn takes<E>(&self, event: &Socks5Event<E>) -> (yes: bool)
        ensures
            yes == self.can_take(*event),
    {
        match (self, event) {
            (Socks5State::Greeting, Socks5Event::Read(data)) => data.len() <= BUFFER_LEN,
            (Socks5State::AnsweringGreeting { buffer }, Socks5Event::Written) => buffer.len()
                == BUFFER_LEN,
            (Socks5State::Request { buffer }, Socks5Event::Read(data)) => {
                if buffer.len() != BUFFER_LEN || data.len() > BUFFER_LEN {
                    false
                } else {
                    let mut got = buffer.clone();
                    assert(got@ =~= buffer@);
                    overlay(&mut got, data);
                    !(got[0] == 5 && got[1] == 1 && got[3] == 3) || 5 + (got[4] as usize) + 1
                        < BUFFER_LEN
                }
            },
            (Socks5State::Opening { .. }, Socks5Event::Opened) => true,
            (Socks5State::Sending, Socks5Event::Written) => true,
            (Socks5State::Answering, Socks5Event::Written) => true,
            (Socks5State::Relaying, Socks5Event::RelayEnded) => true,
            (Socks5State::Relaying, Socks5Event::Failed(_)) => false,
            (Socks5State::Ended, Socks5Event::Failed(_)) => false,
            (_, Socks5Event::Failed(_)) => true,
            _ => false,
        }
    }
}

/// One step of the exchange.
pub fn handle_socks5_connection<E>(state: Socks5State, event: Socks5Event<E>) -> (r: (
    Socks5State,
    Socks5Action<E>,
))
    requires
        state.can_take(event),
    ensures
        socks5_step(state, event, r.0, r.1),
{
    match (state, event) {
        (Socks5State::Relaying, Socks5Event::RelayEnded) => (
            Socks5State::Ended,
            Socks5Action::Finish,
        ),
        (Socks5State::Greeting, Socks5Event::Read(data)) => {
            let mut buffer = blank();
            overlay(&mut buffer, &data);
            if buffer[0] != 5 {
                (
                    Socks5State::Ended,
                    Socks5Action::Fail(Socks5Failure::Refused(Socks5Error::InvalidVersion)),
                )
            } else {
                let answer: Vec<u8> = vec![5u8, 0u8];
                assert(answer@ =~= greeting_answer());
                (Socks5State::AnsweringGreeting { buffer }, Socks5Action::WriteClient(answer))
            }
        },
        (Socks5State::AnsweringGreeting { buffer }, Socks5Event::Written) => (
            Socks5State::Request { buffer },
            Socks5Action::ReadClient(BUFFER_LEN),
        ),
        (Socks5State::Request { buffer }, Socks5Event::Read(data)) => {
            let mut buffer = buffer;
            overlay(&mut buffer, &data);
            match parse_target(&buffer) {
                Err(e) => (Socks5State::Ended, Socks5Action::Fail(Socks5Failure::Refused(e))),
                Ok(target) => (Socks5State::Opening { target }, Socks5Action::Open),
            }
        },
        (Socks5State::Opening { target }, Socks5Event::Opened) => {
            let request = Request::Forward { target };
            (Socks5State::Sending, Socks5Action::SendRequest(request.encode()))
        },
        (Socks5State::Sending, Socks5Event::Written) => {
            let answer: Vec<u8> = vec![5u8, 0u8, 0u8, 1u8, 0u8, 0u8, 0u8, 0u8, 0u8, 0u8];
            assert(answer@ =~= request_answer());
            (Socks5State::Answering, Socks5Action::WriteClient(answer))
        },
        (Socks5State::Answering, Socks5Event::Written) => (
            Socks5State::Relaying,
            Socks5Action::Relay,
        ),
        (_, Socks5Event::Failed(e)) => (
            Socks5State::Ended,
            Socks5Action::Fail(Socks5Failure::Io(e)),
        ),
        _ => vstd::pervasive::unreached(),
    }
}

/// By how much an action changes the number of open connections.
pub open spec fn socks5_count_change<E>(action: Socks5Action<E>) -> int {
    match action {
        Socks5Action::Relay => 1,
        Socks5Action::Finish => -1,
        _ => 0,
    }
}

/// The net change that a row of actions makes to the number of open connections.
pub open spec fn socks5_net_count<E>(actions: Seq<Socks5Action<E>>) -> int
    decreases actions.len(),
{
    if actions.len() == 0 {
        0
    } else {
        socks5_net_count(actions.drop_last()) + socks5_count_change(actions.last())
    }
}

/// A row of steps, each from the state that the one before it led to.
pub open spec fn socks5_run<E>(
    states: Seq<Socks5State>,
    events: Seq<Socks5Event<E>>,
    actions: Seq<Socks5Action<E>>,
) -> bool {
    &&& states.len() == events.len() + 1
    &&& actions.len() == events.len()
    &&& forall|i: int|
        0 <= i < events.len() ==> #[trigger] socks5_step(
            states[i],
            events[i],
            states[i + 1],
            actions[i],
        )
}

/// How far an exchange has come.
pub open spec fn socks5_rank(state: Socks5State) -> int {
    match state {
        Socks5State::Greeting => 0,
        Socks5State::AnsweringGreeting { .. } => 1,
        Socks5State::Request { .. } => 2,
        Socks5State::Opening { .. } => 3,
        Socks5State::Sending => 4,
        Socks5State::Answering => 5,
        Socks5State::Relaying => 6,
        Socks5State::Ended => 7,
    }
}

/// However an exchange goes, it has counted itself exactly while it relays: once it
/// is over, the number of open connections is what it was before.
pub proof fn lemma_socks5_count_balances<E>(
    states: Seq<Socks5State>,
    events: Seq<Socks5Event<E>>,
    actions: Seq<Socks5Action<E>>,
)
    requires
        socks5_run(states, events, actions),
        states[0] is Greeting,
    ensures
        socks5_net_count(actions) == states.last().counted(),
        states.last() is Ended ==> socks5_net_count(actions) == 0,
    decreases events.len(),
{
    if events.len() > 0 {
        let n = events.len() - 1;
        assert(socks5_step(states[n], events[n], states[n + 1], actions[n]));
        assert forall|i: int| 0 <= i < n implies #[trigger] socks5_step(
            states.drop_last()[i],
            events.drop_last()[i],
            states.drop_last()[i + 1],
            actions.drop_last()[i],
        ) by {
            assert(socks5_step(states[i], events[i], states[i + 1], actions[i]));
        }
        lemma_socks5_count_balances(states.drop_last(), events.drop_last(), actions.drop_last());
    }
}

/// Every step brings the exchange further, so that it takes no more than seven.
pub proof fn lemma_socks5_run_is_short<E>(
    states: Seq<Socks5State>,
    events: Seq<Socks5Event<E>>,
    actions: Seq<Socks5Action<E>>,
)
    requires
        socks5_run(states, events, actions),
    ensures
        socks5_rank(states[0]) + events.len() <= socks5_rank(states.last()) <= 7,
    decreases events.len(),
{
    if events.len() > 0 {
        let n = events.len() - 1;
        assert(socks5_step(states[n], events[n], states[n + 1], actions[n]));
        assert forall|i: int| 0 <= i < n implies #[trigger] socks5_step(
            states.drop_last()[i],
            events.drop_last()[i],
            states.drop_last()[i + 1],
            actions.drop_last()[i],
        ) by {
            assert(socks5_step(states[i], events[i], states[i + 1], actions[i]));
        }
        lemma_socks5_run_is_short(states.drop_last(), events.drop_last(), actions.drop_last());
    }
}

/// For a client that is turned away no stream is opened, nothing is sent and no
/// connection is relayed.
pub proof fn lemma_socks5_refused_stays_local<E>(
    states: Seq<Socks5State>,
    events: Seq<Socks5Event<E>>,
    actions: Seq<Socks5Action<E>>,
    i: int,
)
    requires
        socks5_run(states, events, actions),
        0 <= i < actions.len(),
        actions.last() matches Socks5Action::Fail(Socks5Failure::Refused(_)),
    ensures
        !(actions[i] is Open),
        !(actions[i] is SendRequest),
        !(actions[i] is Relay),
{
    let n = events.len() - 1;
    assert(socks5_step(states[n], events[n], states[n + 1], actions[n]));
    assert(socks5_step(states[i], events[i], states[i + 1], actions[i]));
    if i < n {
        let tail_states = states.subrange(i + 1, n + 1);
        let tail_events = events.subrange(i + 1, n);
        let tail_actions = actions.subrange(i + 1, n);
        assert forall|k: int| 0 <= k < tail_events.len() implies #[trigger] socks5_step(
            tail_states[k],
            tail_events[k],
            tail_states[k + 1],
            tail_actions[k],
        ) by {
            let j = i + 1 + k;
            assert(socks5_step(states[j], events[j], states[j + 1], actions[j]));
        }
        lemma_socks5_run_is_short(tail_states, tail_events, tail_actions);
    }
}

/// The peer that reads what is sent for a target reads the target that the client's
/// request asks for, and leaves what follows it alone.
pub proof fn lemma_socks5_target_arrives<E>(
    buffer: Vec<u8>,
    data: Vec<u8>,
    target: String,
    sending: Socks5State,
    bytes: Vec<u8>,
    rest: Seq<u8>,
)
    requires
        socks5_step(
            Socks5State::Request { buffer },
            Socks5Event::<E>::Read(data),
            Socks5State::Opening { target },
            Socks5Action::Open,
        ),
        socks5_step(
            Socks5State::Opening { target },
            Socks5Event::<E>::Opened,
            sending,
            Socks5Action::SendRequest(bytes),
        ),
    ensures
        requested_target(overlaid(buffer@, data@)) == Ok::<Seq<char>, Socks5Error>(target@),
        command_of(bytes@[0]) == Some(Command::Forward),
        read_from(fresh_reader(Command::Forward), bytes@.skip(1) + rest) == ReadOutcome::Done(
            RequestView { command: Command::Forward, fields: seq![target@] },
            rest,
        ),
{
    let request = RequestView { command: Command::Forward, fields: seq![target@] };
    lemma_request_read_back(request, rest);
}

/// A client that speaks version 5 is welcome, whatever methods it offers: its greeting
/// is answered with 5, 0, and kept at the front of a buffer of zeros. A greeting is
/// refused only if it is empty or begins with another byte.
pub proof fn lemma_socks5_greeting<E>(
    data: Vec<u8>,
    next: Socks5State,
    action: Socks5Action<E>,
)
    ensures
        Socks5State::Greeting.can_take(Socks5Event::<E>::Read(data)) <==> data@.len() <= 256,
        socks5_step(Socks5State::Greeting, Socks5Event::Read(data), next, action) && data@.len() > 0
            && data@[0] == 5 ==> {
            &&& action matches Socks5Action::WriteClient(answer) && answer@ == seq![5u8, 0u8]
            &&& next matches Socks5State::AnsweringGreeting { buffer }
            &&& buffer@.len() == 256
            &&& forall|i: int| 0 <= i < data@.len() ==> #[trigger] buffer@[i] == data@[i]
            &&& forall|i: int| data@.len() <= i < 256 ==> #[trigger] buffer@[i] == 0
        },
        socks5_step(Socks5State::Greeting, Socks5Event::Read(data), next, action) && (data@.len()
            == 0 || data@[0] != 5) ==> {
            &&& action == Socks5Action::<E>::Fail(
                Socks5Failure::Refused(Socks5Error::InvalidVersion),
            )
            &&& next is Ended
        },
{
}

/// What a request asks for, byte by byte. Its first two bytes are 5 and 1, or it is no
/// request. The fourth says what kind the target is: four bytes of an IPv4 address and
/// two of the port; or the length of a domain, the domain and two bytes of the port; or
/// an IPv6 address or something unknown, which are refused each for its own reason.
pub proof fn lemma_requested_target(buffer: Seq<u8>)
    requires
        buffer.len() == 256,
    ensures
        domain_inside(buffer) <==> (buffer[0] == 5 && buffer[1] == 1 && buffer[3] == 3 ==> buffer[4]
            <= 249),
        buffer[0] != 5 || buffer[1] != 1 ==> requested_target(buffer) == Err::<
            Seq<char>,
            Socks5Error,
        >(Socks5Error::InvalidRequest),
        buffer[0] == 5 && buffer[1] == 1 && buffer[3] == 1 ==> requested_target(buffer) == Ok::<
            Seq<char>,
            Socks5Error,
        >(
            decimal(buffer[4] as nat) + seq!['.'] + decimal(buffer[5] as nat) + seq!['.'] + decimal(
                buffer[6] as nat,
            ) + seq!['.'] + decimal(buffer[7] as nat) + seq![':'] + decimal(
                (buffer[8] * 256 + buffer[9]) as nat,
            ),
        ),
        buffer[0] == 5 && buffer[1] == 1 && buffer[3] == 3 && buffer[4] <= 249 ==> ({
            let domain = buffer.subrange(5, 5 + buffer[4]);
            let host = if valid_utf8(domain) {
                decode_utf8(domain)
            } else {
                lossy_text(domain)
            };
            requested_target(buffer) == Ok::<Seq<char>, Socks5Error>(
                host + seq![':'] + decimal(
                    (buffer[5 + buffer[4]] * 256 + buffer[6 + buffer[4]]) as nat,
                ),
            )
        }),
        buffer[0] == 5 && buffer[1] == 1 && buffer[3] == 4 ==> requested_target(buffer) == Err::<
            Seq<char>,
            Socks5Error,
        >(Socks5Error::Ipv6NotSupported),
        buffer[0] == 5 && buffer[1] == 1 && buffer[3] != 1 && buffer[3] != 3 && buffer[3] != 4
            ==> requested_target(buffer) == Err::<Seq<char>, Socks5Error>(
            Socks5Error::InvalidAddressType,
        ),
{
    lemma_address_texts(
        buffer[4],
        buffer[5],
        buffer[6],
        buffer[7],
        ipv4_text(buffer[4], buffer[5], buffer[6], buffer[7]),
        port_at(buffer, 8),
    );
    lemma_address_texts(
        0,
        0,
        0,
        0,
        readable_text(domain_bytes(buffer)),
        port_at(buffer, 5 + buffer[4]),
    );
}

/// A request is read over what was there before: the bytes read, and behind them the
/// buffer as it was. Where that asks for a target, a stream is opened for exactly this
/// target; where it does not, the client is turned away for the reason at hand.
pub proof fn lemma_socks5_request<E>(
    buffer: Vec<u8>,
    data: Vec<u8>,
    got: Seq<u8>,
    next: Socks5State,
    action: Socks5Action<E>,
)
    requires
        buffer@.len() == 256,
        data@.len() <= 256,
        got.len() == 256,
        forall|i: int| 0 <= i < data@.len() ==> #[trigger] got[i] == data@[i],
        forall|i: int| data@.len() <= i < 256 ==> #[trigger] got[i] == buffer@[i],
    ensures
        (Socks5State::Request { buffer }).can_take(Socks5Event::<E>::Read(data)) <==> (got[0] == 5
            && got[1] == 1 && got[3] == 3 ==> got[4] <= 249),
        socks5_step((Socks5State::Request { buffer }), Socks5Event::Read(data), next, action) ==> {
            match requested_target(got) {
                Ok(text) => {
                    &&& action is Open
                    &&& next matches Socks5State::Opening { target } && target@ == text
                },
                Err(e) => {
                    &&& action == Socks5Action::<E>::Fail(Socks5Failure::Refused(e))
                    &&& next is Ended
                },
            }
        },
{
    assert(got =~= overlaid(buffer@, data@));
    lemma_requested_target(got);
}

/// From the greeting to the end nothing else happens: the answered greeting is kept and
/// the request is read; the target is sent as a request to forward; the client is told
/// of success with ten bytes; and only then the connection is relayed.
pub proof fn lemma_socks5_course<E>(
    buffer: Vec<u8>,
    target: String,
    next: Socks5State,
    action: Socks5Action<E>,
)
    ensures
        (Socks5State::AnsweringGreeting { buffer }).can_take(Socks5Event::<E>::Written)
            <==> buffer@.len() == 256,
        socks5_step(
            (Socks5State::AnsweringGreeting { buffer }),
            Socks5Event::Written,
            next,
            action,
        ) ==> {
            &&& next == (Socks5State::Request { buffer })
            &&& action == Socks5Action::<E>::ReadClient(256)
        },
        (Socks5State::Opening { target }).can_take(Socks5Event::<E>::Opened),
        socks5_step((Socks5State::Opening { target }), Socks5Event::Opened, next, action) ==> {
            &&& next is Sending
            &&& action matches Socks5Action::SendRequest(bytes)
            &&& bytes@.len() == 3 + encode_utf8(target@).len()
            &&& bytes@[0] == 10
            &&& stands_at(bytes@, 1, target@)
        },
        Socks5State::Sending.can_take(Socks5Event::<E>::Written),
        socks5_step(Socks5State::Sending, Socks5Event::Written, next, action) ==> {
            &&& next is Answering
            &&& action matches Socks5Action::WriteClient(answer) && answer@ == seq![
                5u8,
                0u8,
                0u8,
                1u8,
                0u8,
                0u8,
                0u8,
                0u8,
                0u8,
                0u8,
            ]
        },
        Socks5State::Answering.can_take(Socks5Event::<E>::Written),
        socks5_step(Socks5State::Answering, Socks5Event::Written, next, action) ==> {
            &&& next is Relaying
            &&& action is Relay
        },
        Socks5State::Relaying.can_take(Socks5Event::<E>::RelayEnded),
        socks5_step(Socks5State::Relaying, Socks5Event::RelayEnded, next, action) ==> {
            &&& next is Ended
            &&& action is Finish
        },
{
    lemma_forward_request_bytes(target);
}

/// A failure before the relay ends the exchange with that failure.
pub proof fn lemma_socks5_failure<E>(
    state: Socks5State,
    e: E,
    next: Socks5State,
    action: Socks5Action<E>,
)
    ensures
        state.can_take(Socks5Event::Failed(e)) <==> !(state is Relaying) && !(state is Ended),
        socks5_step(state, Socks5Event::Failed(e), next, action) ==> {
            &&& next is Ended
            &&& action == Socks5Action::Fail(Socks5Failure::Io(e))
        },
{
}

} // verus!
