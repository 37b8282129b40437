//! The driver of a multiplexed connection, and the calls that go through it.
//!
//! One task polls the connection. It hands inbound streams on, and answers the
//! requests for outbound streams one at a time, in the order in which they came.
//! Streams are of type `S`, requests of type `R`, failures of type `E`.

use vstd::prelude::*;

verus! {

/// How many requests, and how many inbound streams, may wait in their queues.
pub const QUEUE_LEN: usize = 64;

/// How often a waiting caller looks whether the driver has ended, in milliseconds.
pub const CLOSED_POLL_MILLIS: u64 = 100;

/// The outcome of a poll.
pub enum Polled<T> {
    Ready(T),
    Pending,
}

/// What the driver is waiting to hear of.
pub enum DriverStage<R> {
    /// Nothing: a round of polls is to begin.
    Idle,
    /// The outbound stream for the request that waits.
    PendingOutbound,
    /// The next inbound stream.
    Inbound,
    /// The next request.
    Requests,
    /// The outbound stream for a request that has just come.
    NewOutbound { request: R },
    /// Whether an inbound stream could be handed on.
    Delivering,
    /// Nothing any more.
    Stopped,
}

/// The driver: the request that waits for an outbound stream, if any, and what is
/// being waited for.
pub struct DriverState<R> {
    pub pending: Option<R>,
    pub stage: DriverStage<R>,
}

/// What the driver hears.
pub enum DriverEvent<S, R, E> {
    /// The task is running, and no poll is under way.
    Begin,
    /// The poll for an outbound stream.
    Outbound(Polled<Result<S, E>>),
    /// The poll for an inbound stream; `None` when the connection is closed.
    Inbound(Polled<Option<Result<S, E>>>),
    /// The poll for a request; `None` when nobody can ask any more.
    Request(Polled<Option<R>>),
    /// Whether the inbound stream could be handed on.
    Delivered(bool),
}

/// What the driver does next.
pub enum DriverAction<S, R, E> {
    /// Poll for an outbound stream.
    PollOutbound,
    /// Poll for an inbound stream.
    PollInbound,
    /// Poll for a request.
    PollRequest,
    /// Sleep until one of the polled sources is ready, and begin again.
    Suspend,
    /// Hand the inbound stream on.
    Deliver(S),
    /// Answer the request, and begin again.
    Respond { to: R, stream: Result<S, E> },
    /// Mark the connection as closed and end.
    Stop,
}

impl<R> DriverState<R> {
    /// A request waits whenever an outbound stream is polled for on its behalf, and
    /// none does while another is taken.
    pub open spec fn wf(self) -> bool {
        match self.stage {
            DriverStage::PendingOutbound => self.pending is Some,
            DriverStage::Requests => self.pending is None,
            DriverStage::NewOutbound { .. } => self.pending is None,
            _ => true,
        }
    }

    /// Whether the driver can hear this now.
    pub open spec fn can_take<S, E>(self, event: DriverEvent<S, R, E>) -> bool {
        &&& self.wf()
        &&& match self.stage {
            DriverStage::Idle => event is Begin,
            DriverStage::PendingOutbound => event is Outbound,
            DriverStage::Inbound => event is Inbound,
            DriverStage::Requests => event is Request,
            DriverStage::NewOutbound { .. } => event is Outbound,
            DriverStage::Delivering => event is Delivered,
            DriverStage::Stopped => false,
        }
    }

    /// The requests that were taken and not answered yet.
    pub open spec fn held(self) -> Seq<R> {
        (match self.pending {
            Some(request) => seq![request],
            None => Seq::empty(),
        }) + (match self.stage {
            DriverStage::NewOutbound { request } => seq![request],
            _ => Seq::empty(),
        })
    }

    /// The driver with another stage.
    pub open spec fn at(self, stage: DriverStage<R>) -> DriverState<R> {
        DriverState { pending: self.pending, stage }
    }
}

/// The begin of a round: the request that waits is looked after first.
pub open spec fn driver_round<S, R, E>(state: DriverState<R>) -> (
    DriverState<R>,
    DriverAction<S, R, E>,
) {
    if state.pending is Some {
        (state.at(DriverStage::PendingOutbound), DriverAction::PollOutbound)
    } else {
        (state.at(DriverStage::Inbound), DriverAction::PollInbound)
    }
}

/// What the driver does on hearing something.
pub open spec fn driver_step<S, R, E>(state: DriverState<R>, event: DriverEvent<S, R, E>) -> (
    DriverState<R>,
    DriverAction<S, R, E>,
) {
    let idle = state.at(DriverStage::Idle);
    let stopped = state.at(DriverStage::Stopped);
    match (state.stage, event) {
        (DriverStage::PendingOutbound, DriverEvent::Outbound(Polled::Ready(stream))) => (
            DriverState { pending: None, stage: DriverStage::Idle },
            DriverAction::Respond { to: state.pending->0, stream },
        ),
        (DriverStage::PendingOutbound, _) => (
            state.at(DriverStage::Inbound),
            DriverAction::PollInbound,
        ),
        (DriverStage::Inbound, DriverEvent::Inbound(Polled::Ready(Some(Ok(stream))))) => (
            state.at(DriverStage::Delivering),
            DriverAction::Deliver(stream),
        ),
        (DriverStage::Inbound, DriverEvent::Inbound(Polled::Ready(_))) => (
            stopped,
            DriverAction::Stop,
        ),
        (DriverStage::Inbound, _) => if state.pending is Some {
            (idle, DriverAction::Suspend)
        } else {
            (state.at(DriverStage::Requests), DriverAction::PollRequest)
        },
        (DriverStage::Requests, DriverEvent::Request(Polled::Ready(Some(request)))) => (
            state.at(DriverStage::NewOutbound { request }),
            DriverAction::PollOutbound,
        ),
        (DriverStage::Requests, DriverEvent::Request(Polled::Ready(None))) => (
            stopped,
            DriverAction::Stop,
        ),
        (DriverStage::Requests, _) => (idle, DriverAction::Suspend),
        (DriverStage::NewOutbound { request }, DriverEvent::Outbound(Polled::Ready(stream))) => (
            idle,
            DriverAction::Respond { to: request, stream },
        ),
        (DriverStage::NewOutbound { request }, _) => driver_round(
            DriverState { pending: Some(request), stage: DriverStage::Idle },
        ),
        (DriverStage::Delivering, DriverEvent::Delivered(false)) => (stopped, DriverAction::Stop),
        (_, _) => driver_round(state),
    }
}

impl<R> DriverState<R> {
    /// The driver of a connection that has just been made.
    pub fn new() -> (state: DriverState<R>)
        ensures
            state == (DriverState::<R> { pending: None, stage: DriverStage::Idle }),
            state.wf(),
    {
        DriverState { pending: None, stage: DriverStage::Idle }
    }

    /// Whether the driver can hear this now.
    pub fn takes<S, E>(&self, event: &DriverEvent<S, R, E>) -> (yes: bool)
        ensures
            yes == self.can_take(*event),
    {
        match (&self.stage, event) {
            (DriverStage::Idle, DriverEvent::Begin) => true,
            (DriverStage::PendingOutbound, DriverEvent::Outbound(_)) => self.pending.is_some(),
            (DriverStage::Inbound, DriverEvent::Inbound(_)) => true,
            (DriverStage::Requests, DriverEvent::Request(_)) => self.pending.is_none(),
            (DriverStage::NewOutbound { .. }, DriverEvent::Outbound(_)) => self.pending.is_none(),
            (DriverStage::Delivering, DriverEvent::Delivered(_)) => true,
            _ => false,
        }
    }
}

fn begin_round<S, R, E>(pending: Option<R>) -> (r: (DriverState<R>, DriverAction<S, R, E>))
    ensures
        r == driver_round::<S, R, E>(DriverState { pending, stage: DriverStage::Idle }),
{
    if pending.is_some() {
        (
            DriverState { pending, stage: DriverStage::PendingOutbound },
            DriverAction::PollOutbound,
        )
    } else {
        (DriverState { pending, stage: DriverStage::Inbound }, DriverAction::PollInbound)
    }
}

/// One step of the driver.
pub fn run_driver<S, R, E>(state: DriverState<R>, event: DriverEvent<S, R, E>) -> (r: (
    DriverState<R>,
    DriverAction<S, R, E>,
))
    requires
        state.can_take(event),
    ensures
        r == driver_step(state, event),
        r.0.wf(),
{
    let pending = state.pending;
    match (state.stage, event) {
        (DriverStage::PendingOutbound, DriverEvent::Outbound(Polled::Ready(stream))) => {
            match pending {
                Some(to) => (
                    DriverState { pending: None, stage: DriverStage::Idle },
                    DriverAction::Respond { to, stream },
                ),
                None => vstd::pervasive::unreached(),
            }
        },
        (DriverStage::PendingOutbound, _) => (
            DriverState { pending, stage: DriverStage::Inbound },
            DriverAction::PollInbound,
        ),
        (DriverStage::Inbound, DriverEvent::Inbound(Polled::Ready(Some(Ok(stream))))) => (
            DriverState { pending, stage: DriverStage::Delivering },
            DriverAction::Deliver(stream),
        ),
        (DriverStage::Inbound, DriverEvent::Inbound(Polled::Ready(_))) => (
            DriverState { pending, stage: DriverStage::Stopped },
            DriverAction::Stop,
        ),
        (DriverStage::Inbound, _) => {
            if pending.is_some() {
                (DriverState { pending, stage: DriverStage::Idle }, DriverAction::Suspend)
            } else {
                (DriverState { pending, stage: DriverStage::Requests }, DriverAction::PollRequest)
            }
        },
        (DriverStage::Requests, DriverEvent::Request(Polled::Ready(Some(request)))) => (
            DriverState { pending, stage: DriverStage::NewOutbound { request } },
            DriverAction::PollOutbound,
        ),
        (DriverStage::Requests, DriverEvent::Request(Polled::Ready(None))) => (
            DriverState { pending, stage: DriverStage::Stopped },
            DriverAction::Stop,
        ),
        (DriverStage::Requests, _) => (
            DriverState { pending, stage: DriverStage::Idle },
            DriverAction::Suspend,
        ),
        (DriverStage::NewOutbound { request }, DriverEvent::Outbound(Polled::Ready(stream))) => (
            DriverState { pending, stage: DriverStage::Idle },
            DriverAction::Respond { to: request, stream },
        ),
        (DriverStage::NewOutbound { request }, _) => begin_round(Some(request)),
        (DriverStage::Delivering, DriverEvent::Delivered(false)) => (
            DriverState { pending, stage: DriverStage::Stopped },
            DriverAction::Stop,
        ),
        (_, _) => begin_round(pending),
    }
}

/// What became of the request for an outbound stream.
pub enum OpenAnswer<S, E> {
    /// The driver no longer takes requests, which the queue puts in these words.
    NotQueued(String),
    /// The driver answered.
    Answered(Result<S, E>),
    /// The driver ended without an answer.
    Dropped,
}

/// Why no stream was opened.
pub enum OpenError<E> {
    NotQueued(String),
    Refused(E),
    DriverClosed,
}

impl<E> OpenError<E> {
    /// The error in words, where the multiplexer has no words of its own for it.
    pub fn message(&self) -> (text: Option<&str>)
        ensures
            match self {
                OpenError::NotQueued(words) => text matches Some(t) && t@ == words@,
                OpenError::Refused(_) => text is None,
                OpenError::DriverClosed => text matches Some(t) && t@ == "Driver task closed"@,
            },
    {
        match self {
            OpenError::NotQueued(words) => Some(words.as_str()),
            OpenError::Refused(_) => None,
            OpenError::DriverClosed => Some("Driver task closed"),
        }
    }
}

/// The stream that a caller asked for, or why there is none.
pub fn open_bi<S, E>(answer: OpenAnswer<S, E>) -> (stream: Result<S, OpenError<E>>)
    ensures
        stream == match answer {
            OpenAnswer::NotQueued(words) => Err::<S, OpenError<E>>(OpenError::NotQueued(words)),
            OpenAnswer::Answered(Ok(s)) => Ok::<S, OpenError<E>>(s),
            OpenAnswer::Answered(Err(e)) => Err::<S, OpenError<E>>(OpenError::Refused(e)),
            OpenAnswer::Dropped => Err::<S, OpenError<E>>(OpenError::DriverClosed),
        },
{
    match answer {
        OpenAnswer::NotQueued(words) => Err(OpenError::NotQueued(words)),
        OpenAnswer::Answered(Ok(s)) => Ok(s),
        OpenAnswer::Answered(Err(e)) => Err(OpenError::Refused(e)),
        OpenAnswer::Dropped => Err(OpenError::DriverClosed),
    }
}

/// What a caller does that waits for the end of the connection.
#[derive(Debug, Clone, Copy, PartialEq, Eq, Structural)]
pub enum ClosedWait {
    /// The connection is closed.
    Return,
    /// Sleep for so many milliseconds and look again.
    Sleep(u64),
}

/// One look at the driver's mark.
pub fn closed(marked: bool) -> (wait: ClosedWait)
    ensures
        wait == if marked {
            ClosedWait::Return
        } else {
            ClosedWait::Sleep(CLOSED_POLL_MILLIS)
        },
{
    if marked {
        ClosedWait::Return
    } else {
        ClosedWait::Sleep(CLOSED_POLL_MILLIS)
    }
}

/// A row of steps, each from the state that the one before it led to.
pub open spec fn driver_run<S, R, E>(
    states: Seq<DriverState<R>>,
    events: Seq<DriverEvent<S, R, E>>,
    actions: Seq<DriverAction<S, R, E>>,
) -> bool {
    &&& states.len() == events.len() + 1
    &&& actions.len() == events.len()
    &&& forall|i: int|
        0 <= i < events.len() ==> {
            &&& (#[trigger] states[i]).can_take(events[i])
            &&& (states[i + 1], actions[i]) == driver_step(states[i], events[i])
        }
}

/// The requests taken, in order.
pub open spec fn requests_taken<S, R, E>(events: Seq<DriverEvent<S, R, E>>) -> Seq<R>
    decreases events.len(),
{
    if events.len() == 0 {
        Seq::empty()
    } else {
        let before = requests_taken(events.drop_last());
        match events.last() {
            DriverEvent::Request(Polled::Ready(Some(request))) => before.push(request),
            _ => before,
        }
    }
}

/// The requests answered, in order.
pub open spec fn requests_answered<S, R, E>(actions: Seq<DriverAction<S, R, E>>) -> Seq<R>
    decreases actions.len(),
{
    if actions.len() == 0 {
        Seq::empty()
    } else {
        let before = requests_answered(actions.drop_last());
        match actions.last() {
            DriverAction::Respond { to, .. } => before.push(to),
            _ => before,
        }
    }
}

/// The inbound streams that came, in order.
pub open spec fn streams_received<S, R, E>(events: Seq<DriverEvent<S, R, E>>) -> Seq<S>
    decreases events.len(),
{
    if events.len() == 0 {
        Seq::empty()
    } else {
        let before = streams_received(events.drop_last());
        match events.last() {
            DriverEvent::Inbound(Polled::Ready(Some(Ok(stream)))) => before.push(stream),
            _ => before,
        }
    }
}

/// The inbound streams handed on, in order.
pub open spec fn streams_delivered<S, R, E>(actions: Seq<DriverAction<S, R, E>>) -> Seq<S>
    decreases actions.len(),
{
    if actions.len() == 0 {
        Seq::empty()
    } else {
        let before = streams_delivered(actions.drop_last());
        match actions.last() {
            DriverAction::Deliver(stream) => before.push(stream),
            _ => before,
        }
    }
}

/// No request is lost, answered twice or overtaken: those taken are those answered,
/// in the same order, and behind them at most one that is still held. And every
/// inbound stream is handed on, in the order in which it came.
pub proof fn lemma_driver_keeps_order<S, R, E>(
    states: Seq<DriverState<R>>,
    events: Seq<DriverEvent<S, R, E>>,
    actions: Seq<DriverAction<S, R, E>>,
)
    requires
        driver_run(states, events, actions),
        states[0] == (DriverState::<R> { pending: None, stage: DriverStage::Idle }),
    ensures
        states.last().wf(),
        states.last().held().len() <= 1,
        requests_taken(events) == requests_answered(actions) + states.last().held(),
        streams_received(events) == streams_delivered(actions),
    decreases events.len(),
{
    if events.len() > 0 {
        let n = events.len() - 1;
        assert(states[n].can_take(events[n]));
        let early_states = states.drop_last();
        let early_events = events.drop_last();
        let early_actions = actions.drop_last();
        assert forall|i: int| 0 <= i < early_events.len() implies {
            &&& (#[trigger] early_states[i]).can_take(early_events[i])
            &&& (early_states[i + 1], early_actions[i]) == driver_step(
                early_states[i],
                early_events[i],
            )
        } by {
            assert(states[i].can_take(events[i]));
        }
        lemma_driver_keeps_order(early_states, early_events, early_actions);
        assert(early_states.last() == states[n]);
        assert(requests_taken(events) =~= requests_answered(actions) + states.last().held());
    } else {
        assert(states.last().held() =~= Seq::<R>::empty());
        assert(requests_taken(events) =~= requests_answered(actions) + states.last().held());
    }
}

/// The outcome is that the polled source is not ready.
pub open spec fn not_ready<S, R, E>(event: DriverEvent<S, R, E>) -> bool {
    match event {
        DriverEvent::Outbound(Polled::Pending) => true,
        DriverEvent::Inbound(Polled::Pending) => true,
        DriverEvent::Request(Polled::Pending) => true,
        _ => false,
    }
}

/// The driver sleeps only when nothing is left to do in the round: the connection
/// has no inbound stream, and the other source that it looks to, which is the
/// outbound stream for the request that waits or, where none waits, the next
/// request, was polled in the same round and is not ready either.
pub proof fn lemma_driver_sleeps_when_nothing_is_ready<S, R, E>(
    states: Seq<DriverState<R>>,
    events: Seq<DriverEvent<S, R, E>>,
    actions: Seq<DriverAction<S, R, E>>,
    i: int,
)
    requires
        driver_run(states, events, actions),
        states[0] == (DriverState::<R> { pending: None, stage: DriverStage::Idle }),
        0 <= i < actions.len(),
        actions[i] is Suspend,
    ensures
        i > 0,
        not_ready(events[i]),
        not_ready(events[i - 1]),
        states[i].pending is Some ==> events[i - 1] is Outbound && events[i] is Inbound,
        states[i].pending is None ==> events[i - 1] is Inbound && events[i] is Request,
{
    assert(states[i].can_take(events[i]));
    assert(states[i - 1].can_take(events[i - 1]));
}

/// Once the driver has stopped, it does nothing more.
pub proof fn lemma_driver_stops_for_good<S, R, E>(
    states: Seq<DriverState<R>>,
    events: Seq<DriverEvent<S, R, E>>,
    actions: Seq<DriverAction<S, R, E>>,
    i: int,
)
    requires
        driver_run(states, events, actions),
        0 <= i < actions.len(),
        actions[i] is Stop,
    ensures
        i == actions.len() - 1,
        states.last().stage is Stopped,
{
    assert(states[i].can_take(events[i]));
    if i + 1 < events.len() {
        assert(states[i + 1].can_take(events[i + 1]));
    }
}

/// A round begins with the request that waits, if one does, and with the inbound
/// streams if none does.
pub proof fn lemma_driver_begins<S, R, E>(state: DriverState<R>)
    ensures
        state.stage is Idle ==> {
            &&& state.can_take(DriverEvent::<S, R, E>::Begin)
            &&& driver_step(state, DriverEvent::<S, R, E>::Begin).0.pending == state.pending
            &&& state.pending is Some ==> {
                &&& driver_step(state, DriverEvent::<S, R, E>::Begin).0.stage is PendingOutbound
                &&& driver_step(state, DriverEvent::<S, R, E>::Begin).1 is PollOutbound
            }
            &&& state.pending is None ==> {
                &&& driver_step(state, DriverEvent::<S, R, E>::Begin).0.stage is Inbound
                &&& driver_step(state, DriverEvent::<S, R, E>::Begin).1 is PollInbound
            }
        },
{
}

/// An outbound stream, or the failure to open one, is the answer to the request that it
/// was asked for, which waits no longer. Where there is none yet the request waits, and
/// no other is taken meanwhile.
pub proof fn lemma_driver_answers<S, R, E>(state: DriverState<R>, request: R, stream: Result<S, E>)
    ensures
        state.stage is PendingOutbound && state.pending == Some(request) ==> {
            let ready = DriverEvent::<S, R, E>::Outbound(Polled::Ready(stream));
            let pending = DriverEvent::<S, R, E>::Outbound(Polled::Pending);
            &&& state.can_take(ready)
            &&& state.can_take(pending)
            &&& driver_step(state, ready).0.pending is None
            &&& driver_step(state, ready).0.stage is Idle
            &&& driver_step(state, ready).1 == (DriverAction::<S, R, E>::Respond {
                to: request,
                stream,
            })
            &&& driver_step(state, pending).0.pending == Some(request)
            &&& driver_step(state, pending).0.stage is Inbound
            &&& driver_step(state, pending).1 is PollInbound
        },
        state.stage == (DriverStage::NewOutbound { request }) && state.pending is None ==> {
            let ready = DriverEvent::<S, R, E>::Outbound(Polled::Ready(stream));
            let pending = DriverEvent::<S, R, E>::Outbound(Polled::Pending);
            &&& state.can_take(ready)
            &&& state.can_take(pending)
            &&& driver_step(state, ready).0.pending is None
            &&& driver_step(state, ready).0.stage is Idle
            &&& driver_step(state, ready).1 == (DriverAction::<S, R, E>::Respond {
                to: request,
                stream,
            })
            &&& driver_step(state, pending).0.pending == Some(request)
            &&& driver_step(state, pending).0.stage is PendingOutbound
            &&& driver_step(state, pending).1 is PollOutbound
        },
{
}

/// An inbound stream is handed on, and the driver goes on if it could be. A failure or
/// the end of the connection stops the driver, and so does a stream that nobody takes.
/// Where nothing came in, the next request is looked for, unless one waits already.
pub proof fn lemma_driver_takes_inbound<S, R, E>(state: DriverState<R>, stream: S, e: E)
    ensures
        state.stage is Inbound ==> {
            let came = DriverEvent::<S, R, E>::Inbound(Polled::Ready(Some(Ok(stream))));
            let failed = DriverEvent::<S, R, E>::Inbound(Polled::Ready(Some(Err(e))));
            let closed = DriverEvent::<S, R, E>::Inbound(Polled::Ready(None));
            let nothing = DriverEvent::<S, R, E>::Inbound(Polled::Pending);
            &&& state.can_take(came)
            &&& state.can_take(failed)
            &&& state.can_take(closed)
            &&& state.can_take(nothing)
            &&& driver_step(state, came).0.pending == state.pending
            &&& driver_step(state, came).0.stage is Delivering
            &&& driver_step(state, came).1 == DriverAction::<S, R, E>::Deliver(stream)
            &&& driver_step(state, failed).0.stage is Stopped
            &&& driver_step(state, failed).1 is Stop
            &&& driver_step(state, closed).0.stage is Stopped
            &&& driver_step(state, closed).1 is Stop
            &&& driver_step(state, nothing).0.pending == state.pending
            &&& state.pending is Some ==> {
                &&& driver_step(state, nothing).0.stage is Idle
                &&& driver_step(state, nothing).1 is Suspend
            }
            &&& state.pending is None ==> {
                &&& driver_step(state, nothing).0.stage is Requests
                &&& driver_step(state, nothing).1 is PollRequest
            }
        },
        state.stage is Delivering ==> {
            let taken = DriverEvent::<S, R, E>::Delivered(true);
            let refused = DriverEvent::<S, R, E>::Delivered(false);
            &&& state.can_take(taken)
            &&& state.can_take(refused)
            &&& driver_step(state, taken).0.pending == state.pending
            &&& state.pending is Some ==> {
                &&& driver_step(state, taken).0.stage is PendingOutbound
                &&& driver_step(state, taken).1 is PollOutbound
            }
            &&& state.pending is None ==> {
                &&& driver_step(state, taken).0.stage is Inbound
                &&& driver_step(state, taken).1 is PollInbound
            }
            &&& driver_step(state, refused).0.stage is Stopped
            &&& driver_step(state, refused).1 is Stop
        },
{
}

/// A request that comes has an outbound stream asked for at once. Where nobody can ask
/// any more the driver stops, and where nobody asks it sleeps.
pub proof fn lemma_driver_takes_requests<S, R, E>(state: DriverState<R>, request: R)
    ensures
        state.stage is Requests && state.pending is None ==> {
            let came = DriverEvent::<S, R, E>::Request(Polled::Ready(Some(request)));
            let over = DriverEvent::<S, R, E>::Request(Polled::Ready(None));
            let nothing = DriverEvent::<S, R, E>::Request(Polled::Pending);
            &&& state.can_take(came)
            &&& state.can_take(over)
            &&& state.can_take(nothing)
            &&& driver_step(state, came).0.pending is None
            &&& driver_step(state, came).0.stage == (DriverStage::NewOutbound { request })
            &&& driver_step(state, came).1 is PollOutbound
            &&& driver_step(state, over).0.stage is Stopped
            &&& driver_step(state, over).1 is Stop
            &&& driver_step(state, nothing).0.pending is None
            &&& driver_step(state, nothing).0.stage is Idle
            &&& driver_step(state, nothing).1 is Suspend
        },
{
}

} // verus!
