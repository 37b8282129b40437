//! The client: when it connects, to which address, and what it starts on a
//! connection.

use vstd::prelude::*;
use crate::config::{ClientConfig, Rule, TlsConfig, Transport};
use crate::wire::Command;
#[allow(unused_imports)]
use crate::config::{lemma_transport_names, transport_named};
#[allow(unused_imports)]
use crate::wire::command_of;

verus! {

/// Why the client gives up.
#[derive(Debug, Clone, Copy, PartialEq, Eq, Structural)]
pub enum ClientError {
    /// As many attempts as are allowed were made.
    MaxReconnectAttempts,
    /// The server has no address of the family asked for.
    CannotConnect,
    /// The name that the server's certificate is checked for is no server name.
    InvalidServerName,
}

impl ClientError {
    /// The error in words.
    pub fn message(self) -> (text: &'static str)
        ensures
            text@ == match self {
                ClientError::MaxReconnectAttempts => "Max reconnect attempts reached"@,
                ClientError::CannotConnect => "Can not connect to server"@,
                ClientError::InvalidServerName => "Invalid server name"@,
            },
    {
        match self {
            ClientError::MaxReconnectAttempts => "Max reconnect attempts reached",
            ClientError::CannotConnect => "Can not connect to server",
            ClientError::InvalidServerName => "Invalid server name",
        }
    }
}

/// A client with its settings.
pub struct SnpClient {
    pub bind: String,
    pub server_addr: String,
    pub server_ip_version: String,
    pub tlsconfig: TlsConfig,
    pub rules: Vec<Rule>,
    pub transport: String,
    pub reconnect_interval: u64,
    pub max_reconnect_attempts: u32,
}

/// Where the client stands between its connections.
#[derive(Debug, Clone, Copy, PartialEq, Eq, Structural)]
pub enum RunPhase {
    /// It looks whether it is to stop.
    Checking,
    /// It pauses before the next attempt.
    Pausing,
    /// A session is under way.
    InSession,
    /// It is over.
    Ended,
}

/// The phase, and how many sessions have ended.
#[derive(Debug, Clone, Copy, PartialEq, Eq, Structural)]
pub struct RunState {
    pub attempt: u32,
    pub phase: RunPhase,
}

/// What happened. Failures of a session are of type `E`.
pub enum RunEvent<E> {
    /// The look whether the client is to stop.
    Checked { cancelled: bool },
    /// The pause is over.
    Paused,
    /// The session ended; `cancelled` says whether the client is to stop.
    SessionEnded { result: Result<(), E>, cancelled: bool },
}

/// Why the client's run failed.
pub enum RunFailure<E> {
    Session(E),
    Client(ClientError),
}

/// What to do next.
pub enum RunAction<E> {
    /// Look whether the client is to stop.
    Check,
    /// Pause for so many seconds.
    Pause(u64),
    /// Connect over the transport and run a session.
    StartSession(Transport),
    /// It is over.
    Finish,
    /// It is over, for this reason.
    Fail(RunFailure<E>),
}

impl RunState {
    /// Whether the event can happen in this state. The sessions are counted in 32 bits.
    pub open spec fn can_take<E>(self, event: RunEvent<E>) -> bool {
        match (self.phase, event) {
            (RunPhase::Checking, RunEvent::Checked { .. }) => true,
            (RunPhase::Pausing, RunEvent::Paused) => true,
            (RunPhase::InSession, RunEvent::SessionEnded { cancelled, .. }) => !cancelled ==> self.attempt
                < u32::MAX,
            _ => false,
        }
    }

    /// Whether the event can happen in this state.
    pub fn takes<E>(self, event: &RunEvent<E>) -> (yes: bool)
        ensures
            yes == self.can_take(*event),
    {
        match (self.phase, event) {
            (RunPhase::Checking, RunEvent::Checked { .. }) => true,
            (RunPhase::Pausing, RunEvent::Paused) => true,
            (RunPhase::InSession, RunEvent::SessionEnded { cancelled, .. }) => *cancelled
                || self.attempt < u32::MAX,
            _ => false,
        }
    }
}

/// What an event leads to.
pub open spec fn run_step<E>(client: SnpClient, state: RunState, event: RunEvent<E>) -> (
    RunState,
    RunAction<E>,
) {
    let max = client.max_reconnect_attempts;
    let session = (
        RunState { attempt: state.attempt, phase: RunPhase::InSession },
        RunAction::<E>::StartSession(transport_named(client.transport@)),
    );
    let ended = RunState { attempt: state.attempt, phase: RunPhase::Ended };
    match event {
        RunEvent::Checked { cancelled } => if cancelled {
            (ended, RunAction::Finish)
        } else if max > 0 && state.attempt >= max {
            (ended, RunAction::Fail(RunFailure::Client(ClientError::MaxReconnectAttempts)))
        } else if state.attempt > 0 {
            (
                RunState { attempt: state.attempt, phase: RunPhase::Pausing },
                RunAction::Pause(client.reconnect_interval),
            )
        } else {
            session
        },
        RunEvent::Paused => session,
        RunEvent::SessionEnded { result, cancelled } => if !cancelled {
            (
                RunState { attempt: (state.attempt + 1) as u32, phase: RunPhase::Checking },
                RunAction::Check,
            )
        } else {
            match result {
                Ok(_) => (ended, RunAction::Finish),
                Err(e) => (ended, RunAction::Fail(RunFailure::Session(e))),
            }
        },
    }
}

/// The family of an address.
#[derive(Debug, Clone, Copy, PartialEq, Eq, Structural)]
pub enum IpFamily {
    V4,
    V6,
}

/// Whether an address of the family is one that the setting asks for.
pub open spec fn family_wanted(version: Seq<char>, family: IpFamily) -> bool {
    ||| version == "ipv4"@ && family == IpFamily::V4
    ||| version == "ipv6"@ && family == IpFamily::V6
}

/// Whether an address is the first of the family that the setting asks for.
pub open spec fn first_wanted(version: Seq<char>, addresses: Seq<IpFamily>, i: int) -> bool {
    &&& 0 <= i < addresses.len()
    &&& family_wanted(version, addresses[i])
    &&& forall|j: int| 0 <= j < i ==> !family_wanted(version, #[trigger] addresses[j])
}

/// Whether no address is of the family that the setting asks for.
pub open spec fn none_wanted(version: Seq<char>, addresses: Seq<IpFamily>) -> bool {
    forall|j: int|
        0 <= j < addresses.len() ==> !family_wanted(version, #[trigger] addresses[j])
}

/// What is started on a connection for one rule.
pub enum RuleTask {
    /// Listen on `bind` and forward to `forward`.
    ForwardClient { bind: String, forward: String },
    /// Listen on `bind` for SOCKS5.
    Socks5Client { bind: String },
    /// Ask the server to listen on `bind` for `forward`.
    ReverseForward { bind: String, forward: String },
    /// Ask the server to listen on `bind` for SOCKS5.
    ReverseSocks5 { bind: String },
}

/// The task of a rule.
pub open spec fn task_for(rule: Rule) -> RuleTask {
    match rule {
        Rule::ClientToServerForward { bind, forward } => RuleTask::ForwardClient { bind, forward },
        Rule::ClientToServerSocks5 { bind } => RuleTask::Socks5Client { bind },
        Rule::ServerToClientForward { bind, forward } => RuleTask::ReverseForward { bind, forward },
        Rule::ServerToClientSocks5 { bind } => RuleTask::ReverseSocks5 { bind },
    }
}

/// The tasks of all rules, in order.
pub open spec fn tasks_for(rules: Seq<Rule>) -> Seq<RuleTask> {
    Seq::new(rules.len(), |i: int| task_for(rules[i]))
}

/// What happened on a connection.
#[derive(Debug, Clone, Copy, PartialEq, Eq, Structural)]
pub enum SessionEvent {
    /// It is established.
    Established,
    /// The client is to stop.
    Cancelled,
    /// It is closed.
    Closed,
}

/// What a session does next.
pub enum SessionAction {
    /// Start these tasks and then the reverse server, and wait for the end.
    Start { tasks: Vec<RuleTask> },
    /// End the session; `cancel` says whether its tasks are still to be told.
    Finish { cancel: bool },
}

impl SnpClient {
    /// A client with the settings of a configuration.
    pub fn new(config: ClientConfig) -> (client: Result<SnpClient, ClientError>)
        ensures
            client matches Ok(c) && c == (SnpClient {
                bind: config.bind,
                server_addr: config.server,
                server_ip_version: config.server_ip_version,
                tlsconfig: config.tls,
                rules: config.rules,
                transport: config.transport,
                reconnect_interval: config.reconnect_interval,
                max_reconnect_attempts: config.max_reconnect_attempts,
            }),
    {
        Ok(
            SnpClient {
                bind: config.bind,
                server_addr: config.server,
                server_ip_version: config.server_ip_version,
                tlsconfig: config.tls,
                rules: config.rules,
                transport: config.transport,
                reconnect_interval: config.reconnect_interval,
                max_reconnect_attempts: config.max_reconnect_attempts,
            },
        )
    }

    /// Begins the run.
    pub fn start<E>() -> (r: (RunState, RunAction<E>))
        ensures
            r.0 == (RunState { attempt: 0, phase: RunPhase::Checking }),
            r.1 == RunAction::<E>::Check,
    {
        (RunState { attempt: 0, phase: RunPhase::Checking }, RunAction::Check)
    }

    /// One step of the run: sessions follow one another, with a pause before each but
    /// the first, until the client is to stop or the attempts are used up.
    pub fn run<E>(&self, state: RunState, event: RunEvent<E>) -> (r: (RunState, RunAction<E>))
        requires
            state.can_take(event),
        ensures
            r == run_step(*self, state, event),
    {
        let attempt: u32 = state.attempt;
        let ended = RunState { attempt, phase: RunPhase::Ended };
        match event {
            RunEvent::Checked { cancelled } => {
                if cancelled {
                    (ended, RunAction::Finish)
                } else if self.max_reconnect_attempts > 0 && attempt
                    >= self.max_reconnect_attempts {
                    (ended, RunAction::Fail(RunFailure::Client(ClientError::MaxReconnectAttempts)))
                } else if attempt > 0 {
                    (
                        RunState { attempt, phase: RunPhase::Pausing },
                        RunAction::Pause(self.reconnect_interval),
                    )
                } else {
                    (
                        RunState { attempt, phase: RunPhase::InSession },
                        RunAction::StartSession(Transport::from_name(&self.transport)),
                    )
                }
            },
            RunEvent::Paused => (
                RunState { attempt, phase: RunPhase::InSession },
                RunAction::StartSession(Transport::from_name(&self.transport)),
            ),
            RunEvent::SessionEnded { result, cancelled } => {
                if !cancelled {
                    (
                        RunState { attempt: attempt + 1, phase: RunPhase::Checking },
                        RunAction::Check,
                    )
                } else {
                    match result {
                        Ok(_) => (ended, RunAction::Finish),
                        Err(e) => (ended, RunAction::Fail(RunFailure::Session(e))),
                    }
                }
            },
        }
    }

    /// The address to connect to, out of those that the server resolved to: the first
    /// of the family asked for. No other is tried.
    pub fn choose_address(&self, addresses: &Vec<IpFamily>) -> (chosen: Result<usize, ClientError>)
        ensures
            match chosen {
                Ok(i) => first_wanted(self.server_ip_version@, addresses@, i as int),
                Err(e) => {
                    &&& e == ClientError::CannotConnect
                    &&& none_wanted(self.server_ip_version@, addresses@)
                },
            },
    {
        let v4: bool = self.server_ip_version == "ipv4".to_string();
        let v6: bool = self.server_ip_version == "ipv6".to_string();
        let mut i: usize = 0;
        while i < addresses.len()
            invariant
                i <= addresses@.len(),
                v4 == (self.server_ip_version@ == "ipv4"@),
                v6 == (self.server_ip_version@ == "ipv6"@),
                forall|j: int|
                    0 <= j < i ==> !family_wanted(
                        self.server_ip_version@,
                        #[trigger] addresses@[j],
                    ),
            decreases addresses@.len() - i,
        {
            let wanted = match addresses[i] {
                IpFamily::V4 => v4,
                IpFamily::V6 => v6,
            };
            if wanted {
                return Ok(i);
            }
            i = i + 1;
        }
        Err(ClientError::CannotConnect)
    }

    /// The tasks to start on a connection, one for each rule.
    pub fn start_rules(&self) -> (tasks: Vec<RuleTask>)
        ensures
            tasks@ == tasks_for(self.rules@),
            tasks@.len() == self.rules@.len(),
    {
        let mut tasks: Vec<RuleTask> = Vec::new();
        let mut i: usize = 0;
        while i < self.rules.len()
            invariant
                i <= self.rules@.len(),
                tasks@ == tasks_for(self.rules@).take(i as int),
            decreases self.rules@.len() - i,
        {
            let task = match &self.rules[i] {
                Rule::ClientToServerForward { bind, forward } => RuleTask::ForwardClient {
                    bind: bind.clone(),
                    forward: forward.clone(),
                },
                Rule::ClientToServerSocks5 { bind } => RuleTask::Socks5Client {
                    bind: bind.clone(),
                },
                Rule::ServerToClientForward { bind, forward } => RuleTask::ReverseForward {
                    bind: bind.clone(),
                    forward: forward.clone(),
                },
                Rule::ServerToClientSocks5 { bind } => RuleTask::ReverseSocks5 {
                    bind: bind.clone(),
                },
            };
            tasks.push(task);
            i = i + 1;
            assert(tasks@ =~= tasks_for(self.rules@).take(i as int));
        }
        assert(tasks@ =~= tasks_for(self.rules@));
        tasks
    }

    /// One step of a session on an established connection. When the connection closes
    /// by itself, the session's tasks are told to stop; when the client is to stop,
    /// they have been told already.
    pub fn run_session(&self, event: SessionEvent) -> (action: SessionAction)
        ensures
            match event {
                SessionEvent::Established => action matches SessionAction::Start { tasks }
                    && tasks@ == tasks_for(self.rules@),
                SessionEvent::Cancelled => action == (SessionAction::Finish { cancel: false }),
                SessionEvent::Closed => action == (SessionAction::Finish { cancel: true }),
            },
    {
        match event {
            SessionEvent::Established => SessionAction::Start { tasks: self.start_rules() },
            SessionEvent::Cancelled => SessionAction::Finish { cancel: false },
            SessionEvent::Closed => SessionAction::Finish { cancel: true },
        }
    }
}

/// What happened to the client's side of the streams that the server opens. Streams
/// are of type `S`, failures of type `E`.
pub enum ReverseEvent<S, E> {
    /// The session is to stop.
    Cancelled,
    /// The connection is closed.
    ConnectionClosed,
    /// A stream came in.
    Accepted(S),
    /// No stream will come any more.
    AcceptEnded,
    /// Accepting failed.
    AcceptFailed(E),
    /// The command byte of a stream was read.
    CommandRead { stream: S, code: u8 },
    /// The command byte could not be read.
    CommandFailed(E),
}

/// What to do next.
pub enum ReverseAction<S, E> {
    /// Read one byte from the stream.
    ReadCommand(S),
    /// Hand the stream to a handler that forwards it, and accept the next.
    Forward(S),
    /// Drop the stream and accept the next.
    Ignore(S),
    /// It is over.
    Finish,
    /// It is over, for this reason; `cancel` says whether the session is to stop.
    Fail { error: E, cancel: bool },
}

/// What an event leads to: the client forwards, and serves nothing else.
pub open spec fn reverse_step<S, E>(event: ReverseEvent<S, E>) -> ReverseAction<S, E> {
    match event {
        ReverseEvent::Cancelled => ReverseAction::Finish,
        ReverseEvent::ConnectionClosed => ReverseAction::Finish,
        ReverseEvent::Accepted(stream) => ReverseAction::ReadCommand(stream),
        ReverseEvent::AcceptEnded => ReverseAction::Finish,
        ReverseEvent::AcceptFailed(error) => ReverseAction::Fail { error, cancel: true },
        ReverseEvent::CommandRead { stream, code } => if command_of(code) == Some(Command::Forward) {
            ReverseAction::Forward(stream)
        } else {
            ReverseAction::Ignore(stream)
        },
        ReverseEvent::CommandFailed(error) => ReverseAction::Fail { error, cancel: false },
    }
}

/// One step of the client's reverse server.
pub fn start_reverse_server<S, E>(event: ReverseEvent<S, E>) -> (action: ReverseAction<S, E>)
    ensures
        action == reverse_step(event),
{
    match event {
        ReverseEvent::Cancelled => ReverseAction::Finish,
        ReverseEvent::ConnectionClosed => ReverseAction::Finish,
        ReverseEvent::Accepted(stream) => ReverseAction::ReadCommand(stream),
        ReverseEvent::AcceptEnded => ReverseAction::Finish,
        ReverseEvent::AcceptFailed(error) => ReverseAction::Fail { error, cancel: true },
        ReverseEvent::CommandRead { stream, code } => match Command::from_code(code) {
            Some(Command::Forward) => ReverseAction::Forward(stream),
            _ => ReverseAction::Ignore(stream),
        },
        ReverseEvent::CommandFailed(error) => ReverseAction::Fail { error, cancel: false },
    }
}

/// A row of steps of the run, each from the state that the one before it led to.
pub open spec fn run_trace<E>(
    client: SnpClient,
    states: Seq<RunState>,
    events: Seq<RunEvent<E>>,
    actions: Seq<RunAction<E>>,
) -> bool {
    &&& states.len() == events.len() + 1
    &&& actions.len() == events.len()
    &&& forall|i: int|
        0 <= i < events.len() ==> {
            &&& (#[trigger] states[i]).can_take(events[i])
            &&& (states[i + 1], actions[i]) == run_step(client, states[i], events[i])
        }
}

/// How many sessions were started.
pub open spec fn sessions_started<E>(actions: Seq<RunAction<E>>) -> nat
    decreases actions.len(),
{
    if actions.len() == 0 {
        0
    } else {
        sessions_started(actions.drop_last()) + (if actions.last() is StartSession {
            1nat
        } else {
            0nat
        })
    }
}

/// How many pauses were made.
pub open spec fn pauses_made<E>(actions: Seq<RunAction<E>>) -> nat
    decreases actions.len(),
{
    if actions.len() == 0 {
        0
    } else {
        pauses_made(actions.drop_last()) + (if actions.last() is Pause {
            1nat
        } else {
            0nat
        })
    }
}

proof fn lemma_run_prefix<E>(
    client: SnpClient,
    states: Seq<RunState>,
    events: Seq<RunEvent<E>>,
    actions: Seq<RunAction<E>>,
)
    requires
        run_trace(client, states, events, actions),
        events.len() > 0,
    ensures
        run_trace(client, states.drop_last(), events.drop_last(), actions.drop_last()),
{
    let early_states = states.drop_last();
    let early_events = events.drop_last();
    let early_actions = actions.drop_last();
    assert forall|i: int| 0 <= i < early_events.len() implies {
        &&& (#[trigger] early_states[i]).can_take(early_events[i])
        &&& (early_states[i + 1], early_actions[i]) == run_step(
            client,
            early_states[i],
            early_events[i],
        )
    } by {
        assert(states[i].can_take(events[i]));
    }
}

proof fn lemma_run_counts<E>(
    client: SnpClient,
    states: Seq<RunState>,
    events: Seq<RunEvent<E>>,
    actions: Seq<RunAction<E>>,
)
    requires
        run_trace(client, states, events, actions),
        states[0] == (RunState { attempt: 0, phase: RunPhase::Checking }),
    ensures
        ({
            let state = states.last();
            let max = client.max_reconnect_attempts;
            let sessions = sessions_started(actions);
            let pauses = pauses_made(actions);
            let between = if sessions > 0 {
                (sessions - 1) as nat
            } else {
                0nat
            };
            &&& state.phase == RunPhase::Checking ==> sessions == state.attempt && pauses == between
            &&& state.phase == RunPhase::Pausing ==> sessions == state.attempt && sessions > 0
                && pauses == sessions
            &&& state.phase == RunPhase::InSession ==> sessions == state.attempt + 1 && pauses
                == between
            &&& state.phase == RunPhase::Ended ==> pauses == between
            &&& max > 0 ==> sessions <= max
            &&& max > 0 && state.phase == RunPhase::Pausing ==> sessions < max
        }),
    decreases events.len(),
{
    if events.len() > 0 {
        let n = events.len() - 1;
        assert(states[n].can_take(events[n]));
        lemma_run_prefix(client, states, events, actions);
        lemma_run_counts(client, states.drop_last(), events.drop_last(), actions.drop_last());
        assert(states.drop_last().last() == states[n]);
    }
}

/// The limit on attempts is kept: where there is one, no more sessions are started,
/// and the run fails for this reason only when all of them were. Where the limit is
/// 0 the run never fails for it.
pub proof fn lemma_run_keeps_attempt_limit<E>(
    client: SnpClient,
    states: Seq<RunState>,
    events: Seq<RunEvent<E>>,
    actions: Seq<RunAction<E>>,
)
    requires
        run_trace(client, states, events, actions),
        states[0] == (RunState { attempt: 0, phase: RunPhase::Checking }),
    ensures
        client.max_reconnect_attempts > 0 ==> sessions_started(actions)
            <= client.max_reconnect_attempts,
        actions.len() > 0 && actions.last() == RunAction::<E>::Fail(
            RunFailure::Client(ClientError::MaxReconnectAttempts),
        ) ==> {
            &&& client.max_reconnect_attempts > 0
            &&& sessions_started(actions) == client.max_reconnect_attempts
        },
{
    lemma_run_counts(client, states, events, actions);
    if events.len() > 0 {
        let n = events.len() - 1;
        assert(states[n].can_take(events[n]));
        lemma_run_prefix(client, states, events, actions);
        lemma_run_counts(client, states.drop_last(), events.drop_last(), actions.drop_last());
        assert(states.drop_last().last() == states[n]);
    }
}

/// There is one pause between any two sessions, of the length that is set, and none
/// before the first: outside a pause, the pauses are one fewer than the sessions.
pub proof fn lemma_run_pauses_between_sessions<E>(
    client: SnpClient,
    states: Seq<RunState>,
    events: Seq<RunEvent<E>>,
    actions: Seq<RunAction<E>>,
)
    requires
        run_trace(client, states, events, actions),
        states[0] == (RunState { attempt: 0, phase: RunPhase::Checking }),
    ensures
        states.last().phase != RunPhase::Pausing && sessions_started(actions) > 0 ==> pauses_made(
            actions,
        ) == sessions_started(actions) - 1,
        sessions_started(actions) == 0 ==> pauses_made(actions) == 0,
        forall|i: int|
            0 <= i < actions.len() ==> (#[trigger] actions[i] matches RunAction::Pause(secs) ==> secs
                == client.reconnect_interval),
{
    lemma_run_counts(client, states, events, actions);
    assert forall|i: int| 0 <= i < actions.len() implies (#[trigger] actions[i] matches RunAction::Pause(
        secs,
    ) ==> secs == client.reconnect_interval) by {
        assert(states[i].can_take(events[i]));
    }
}

/// The client stops of itself only at the limit: a run in which nobody asks it to stop
/// goes on, and where it is over, it failed for the attempts. Without a limit it is
/// never over.
pub proof fn lemma_run_goes_on<E>(
    client: SnpClient,
    states: Seq<RunState>,
    events: Seq<RunEvent<E>>,
    actions: Seq<RunAction<E>>,
)
    requires
        run_trace(client, states, events, actions),
        states[0] == (RunState { attempt: 0, phase: RunPhase::Checking }),
        forall|i: int|
            0 <= i < events.len() ==> match #[trigger] events[i] {
                RunEvent::Checked { cancelled } => !cancelled,
                RunEvent::Paused => true,
                RunEvent::SessionEnded { cancelled, .. } => !cancelled,
            },
        states.last().phase == RunPhase::Ended,
    ensures
        actions.last() == RunAction::<E>::Fail(
            RunFailure::Client(ClientError::MaxReconnectAttempts),
        ),
        client.max_reconnect_attempts > 0,
        sessions_started(actions) == client.max_reconnect_attempts,
{
    let n = events.len() - 1;
    assert(states[n].can_take(events[n]));
    lemma_run_keeps_attempt_limit(client, states, events, actions);
}

/// An order to stop is obeyed at once, whatever the limit on attempts: after a check, or
/// a session that ended well, the run is over; after one that failed it is over with
/// that failure. The event can always be taken.
pub proof fn lemma_run_obeys_stop<E>(client: SnpClient, state: RunState, e: E)
    ensures
        state.phase == RunPhase::Checking ==> {
            let told = RunEvent::<E>::Checked { cancelled: true };
            &&& state.can_take(told)
            &&& run_step(client, state, told).0.phase == RunPhase::Ended
            &&& run_step(client, state, told).1 == RunAction::<E>::Finish
        },
        state.phase == RunPhase::InSession ==> {
            let well = RunEvent::<E>::SessionEnded { result: Ok(()), cancelled: true };
            let failed = RunEvent::<E>::SessionEnded { result: Err(e), cancelled: true };
            &&& state.can_take(well)
            &&& state.can_take(failed)
            &&& run_step(client, state, well).0.phase == RunPhase::Ended
            &&& run_step(client, state, well).1 == RunAction::<E>::Finish
            &&& run_step(client, state, failed).0.phase == RunPhase::Ended
            &&& run_step(client, state, failed).1 == RunAction::Fail(RunFailure::Session(e))
        },
{
}

/// Whether an event says that the client is to stop.
pub open spec fn told_to_stop<E>(event: RunEvent<E>) -> bool {
    match event {
        RunEvent::Checked { cancelled } => cancelled,
        RunEvent::Paused => false,
        RunEvent::SessionEnded { cancelled, .. } => cancelled,
    }
}

/// Nothing comes after an order to stop: it is the last event of a run, and no session
/// and no pause is started by it or after it.
pub proof fn lemma_run_ends_when_told<E>(
    client: SnpClient,
    states: Seq<RunState>,
    events: Seq<RunEvent<E>>,
    actions: Seq<RunAction<E>>,
    i: int,
)
    requires
        run_trace(client, states, events, actions),
        0 <= i < events.len(),
        told_to_stop(events[i]),
    ensures
        i == events.len() - 1,
        states.last().phase == RunPhase::Ended,
        forall|j: int|
            i <= j < actions.len() ==> !(#[trigger] actions[j] is StartSession) && !(actions[j] is Pause),
{
    assert(states[i].can_take(events[i]));
    if i + 1 < events.len() {
        assert(states[i + 1].can_take(events[i + 1]));
    }
}

/// A client that is not told to stop goes on. At a check it fails only if there is a
/// limit and as many sessions have ended; else it pauses for the interval that is set if
/// a session has ended, and connects at once if none has. After a pause it connects, over
/// TCP if the transport is `tcp` and over QUIC else. A session that ends, well or not,
/// counts as one more, and a check follows.
pub proof fn lemma_run_course<E>(client: SnpClient, state: RunState, result: Result<(), E>)
    ensures
        ({
            let max = client.max_reconnect_attempts;
            let checked = RunEvent::<E>::Checked { cancelled: false };
            let session = RunAction::<E>::StartSession(
                if client.transport@ == seq!['t', 'c', 'p'] {
                    Transport::Tcp
                } else {
                    Transport::Quic
                },
            );
            let ended = RunEvent::SessionEnded { result, cancelled: false };
            &&& state.phase == RunPhase::Checking ==> state.can_take(checked)
            &&& run_step(client, state, checked).0.attempt == state.attempt
            &&& max > 0 && state.attempt >= max ==> {
                &&& run_step(client, state, checked).0.phase == RunPhase::Ended
                &&& run_step(client, state, checked).1 == RunAction::<E>::Fail(
                    RunFailure::Client(ClientError::MaxReconnectAttempts),
                )
            }
            &&& state.attempt > 0 && (max == 0 || state.attempt < max) ==> {
                &&& run_step(client, state, checked).0.phase == RunPhase::Pausing
                &&& run_step(client, state, checked).1 == RunAction::<E>::Pause(
                    client.reconnect_interval,
                )
            }
            &&& state.attempt == 0 ==> {
                &&& run_step(client, state, checked).0.phase == RunPhase::InSession
                &&& run_step(client, state, checked).1 == session
            }
            &&& state.phase == RunPhase::Pausing ==> state.can_take(RunEvent::<E>::Paused)
            &&& run_step(client, state, RunEvent::<E>::Paused).0.attempt == state.attempt
            &&& run_step(client, state, RunEvent::<E>::Paused).0.phase == RunPhase::InSession
            &&& run_step(client, state, RunEvent::<E>::Paused).1 == session
            &&& state.phase == RunPhase::InSession && state.attempt < u32::MAX ==> {
                &&& state.can_take(ended)
                &&& run_step(client, state, ended).0.attempt == state.attempt + 1
                &&& run_step(client, state, ended).0.phase == RunPhase::Checking
                &&& run_step(client, state, ended).1 == RunAction::<E>::Check
            }
        }),
{
    lemma_transport_names(client.transport@);
}

/// The address that is chosen is the first that the setting asks for: one of IPv4 for
/// `ipv4` and one of IPv6 for `ipv6`. One is chosen whenever there is such an address,
/// and none for any other setting.
pub proof fn lemma_address_choice(version: Seq<char>, addresses: Seq<IpFamily>, i: int, k: int)
    ensures
        none_wanted(version, addresses) && 0 <= k < addresses.len() ==> {
            &&& version == seq!['i', 'p', 'v', '4'] ==> addresses[k] == IpFamily::V6
            &&& version == seq!['i', 'p', 'v', '6'] ==> addresses[k] == IpFamily::V4
        },
        first_wanted(version, addresses, i) ==> {
            &&& 0 <= i < addresses.len()
            &&& version == seq!['i', 'p', 'v', '4'] || version == seq!['i', 'p', 'v', '6']
            &&& version == seq!['i', 'p', 'v', '4'] ==> addresses[i] == IpFamily::V4
            &&& version == seq!['i', 'p', 'v', '6'] ==> addresses[i] == IpFamily::V6
            &&& 0 <= k < i ==> addresses[k] != addresses[i]
        },
        version != seq!['i', 'p', 'v', '4'] && version != seq!['i', 'p', 'v', '6'] ==> none_wanted(
            version,
            addresses,
        ),
        none_wanted(version, addresses) ==> !first_wanted(version, addresses, i),
{
    reveal_strlit("ipv4");
    reveal_strlit("ipv6");
    assert("ipv4"@ =~= seq!['i', 'p', 'v', '4']);
    assert("ipv6"@ =~= seq!['i', 'p', 'v', '6']);
    assert(seq!['i', 'p', 'v', '4'][3] != seq!['i', 'p', 'v', '6'][3]);
}

/// Every rule has its task: there are as many tasks as rules, and each is of the kind of
/// the rule in its place and has the rule's addresses.
pub proof fn lemma_every_rule_has_its_task(rules: Seq<Rule>, tasks: Seq<RuleTask>)
    requires
        tasks == tasks_for(rules),
    ensures
        tasks.len() == rules.len(),
        forall|i: int|
            0 <= i < rules.len() ==> match rules[i] {
                Rule::ClientToServerForward { bind, forward } => {
                    #[trigger] tasks[i] == (RuleTask::ForwardClient { bind, forward })
                },
                Rule::ClientToServerSocks5 { bind } => {
                    tasks[i] == (RuleTask::Socks5Client { bind })
                },
                Rule::ServerToClientForward { bind, forward } => {
                    tasks[i] == (RuleTask::ReverseForward { bind, forward })
                },
                Rule::ServerToClientSocks5 { bind } => {
                    tasks[i] == (RuleTask::ReverseSocks5 { bind })
                },
            },
{
}

/// The client reads the command of every stream that the server opens, forwards those
/// that begin with 10 and drops all others. It ends when it is told to or nothing more
/// comes, and a failure to accept stops the session.
pub proof fn lemma_reverse_server_course<S, E>(stream: S, code: u8, error: E)
    ensures
        reverse_step(ReverseEvent::<S, E>::Cancelled) == ReverseAction::<S, E>::Finish,
        reverse_step(ReverseEvent::<S, E>::ConnectionClosed) == ReverseAction::<S, E>::Finish,
        reverse_step(ReverseEvent::<S, E>::AcceptEnded) == ReverseAction::<S, E>::Finish,
        reverse_step(ReverseEvent::<S, E>::Accepted(stream)) == ReverseAction::<S, E>::ReadCommand(
            stream,
        ),
        reverse_step(ReverseEvent::<S, E>::AcceptFailed(error)) == (ReverseAction::<S, E>::Fail {
            error,
            cancel: true,
        }),
        reverse_step(ReverseEvent::<S, E>::CommandFailed(error)) == (ReverseAction::<S, E>::Fail {
            error,
            cancel: false,
        }),
        code == 10 ==> reverse_step((ReverseEvent::<S, E>::CommandRead { stream, code }))
            == ReverseAction::<S, E>::Forward(stream),
        code != 10 ==> reverse_step((ReverseEvent::<S, E>::CommandRead { stream, code }))
            == ReverseAction::<S, E>::Ignore(stream),
{
}

} // verus!
