//! How the client comes to an authenticated connection.
//!
//! Over QUIC the client binds an endpoint, loads its TLS settings, resolves the
//! server's name and connects. Over TCP it loads its TLS settings, resolves,
//! connects, and then makes the TLS handshake.

use vstd::prelude::*;
use crate::certificate::{expected_server_name, SERVER_NAME};
use crate::client::{ClientError, IpFamily, SnpClient};
use crate::config::Transport;
use crate::tls::{client_tls_config, has_client_root, load_rustls_client_config, TlsError};
use quinn::ClientConfig as QuinnClientConfig;
use rustls::ClientConfig as RustlsClientConfig;
#[allow(unused_imports)]
use crate::certificate::server_name_text;
#[allow(unused_imports)]
use crate::client::{first_wanted, lemma_address_choice, none_wanted};
#[allow(unused_imports)]
use crate::config::transport_named;
#[allow(unused_imports)]
use crate::tls::{client_error, client_outcome, client_root_present, quic_client_outcome};

verus! {

/// The TLS settings for a session, as its transport takes them.
pub enum SessionTls {
    Quic(QuinnClientConfig),
    Tcp(RustlsClientConfig),
}

/// Where a session stands.
#[derive(Debug, Clone, Copy, PartialEq, Eq, Structural)]
pub enum SetupState {
    /// The endpoint is being bound.
    Binding,
    /// The TLS settings are being loaded.
    LoadingTls,
    /// The server's name is being resolved.
    Resolving,
    /// The connection is being made.
    Connecting,
    /// The TLS handshake is being made.
    Handshaking,
    /// The session is under way.
    Running,
    /// It is over.
    Ended,
}

/// What happened. TLS settings are of type `C`, failures of type `E`.
pub enum SetupEvent<C, E> {
    /// The endpoint is bound.
    Bound,
    /// The TLS settings, or why there are none.
    TlsLoaded(Result<C, TlsError>),
    /// The server's name resolved to addresses of these families, in this order.
    Resolved(Vec<IpFamily>),
    /// The connection is made.
    Connected,
    /// The handshake is made.
    HandshakeDone,
    /// The session is over.
    SessionEnded,
    /// Binding, resolving, connecting or the handshake failed.
    Failed(E),
}

/// Why there is no session.
pub enum SetupFailure<E> {
    Io(E),
    Tls(TlsError),
    Client(ClientError),
}

/// What to do next.
pub enum SetupAction<C, E> {
    /// Bind the endpoint.
    Bind,
    /// Load the TLS settings.
    LoadTls,
    /// Resolve the server's name; the connection is to use these settings.
    Resolve { tls: C },
    /// Connect over QUIC to the address of this index, and check the server for the
    /// name.
    ConnectQuic { index: usize, name: &'static str },
    /// Connect over TCP to the address of this index.
    ConnectTcp { index: usize },
    /// Make the TLS handshake, and check the server for the name.
    Handshake { name: rustls::pki_types::ServerName<'static> },
    /// Run the session on the connection.
    RunSession,
    /// It is over.
    Finish,
    /// It is over, for this reason.
    Fail(SetupFailure<E>),
}

impl SetupState {
    /// Whether the event can happen in this state, over QUIC.
    pub open spec fn can_take_quic<C, E>(self, event: SetupEvent<C, E>) -> bool {
        match self {
            SetupState::Binding => event is Bound || event is Failed,
            SetupState::LoadingTls => event is TlsLoaded,
            SetupState::Resolving => event is Resolved || event is Failed,
            SetupState::Connecting => event is Connected || event is Failed,
            SetupState::Running => event is SessionEnded,
            _ => false,
        }
    }

    /// Whether the event can happen in this state, over TCP.
    pub open spec fn can_take_mux<C, E>(self, event: SetupEvent<C, E>) -> bool {
        match self {
            SetupState::LoadingTls => event is TlsLoaded,
            SetupState::Resolving => event is Resolved || event is Failed,
            SetupState::Connecting => event is Connected || event is Failed,
            SetupState::Handshaking => event is HandshakeDone || event is Failed,
            SetupState::Running => event is SessionEnded,
            _ => false,
        }
    }

    /// Whether the event can happen in this state, over the transport.
    pub fn takes<C, E>(self, transport: Transport, event: &SetupEvent<C, E>) -> (yes: bool)
        ensures
            yes == match transport {
                Transport::Quic => self.can_take_quic(*event),
                Transport::Tcp => self.can_take_mux(*event),
            },
    {
        match (transport, self, event) {
            (Transport::Quic, SetupState::Binding, SetupEvent::Bound) => true,
            (Transport::Quic, SetupState::Binding, SetupEvent::Failed(_)) => true,
            (_, SetupState::LoadingTls, SetupEvent::TlsLoaded(_)) => true,
            (_, SetupState::Resolving, SetupEvent::Resolved(_)) => true,
            (_, SetupState::Resolving, SetupEvent::Failed(_)) => true,
            (_, SetupState::Connecting, SetupEvent::Connected) => true,
            (_, SetupState::Connecting, SetupEvent::Failed(_)) => true,
            (Transport::Tcp, SetupState::Handshaking, SetupEvent::HandshakeDone) => true,
            (Transport::Tcp, SetupState::Handshaking, SetupEvent::Failed(_)) => true,
            (_, SetupState::Running, SetupEvent::SessionEnded) => true,
            _ => false,
        }
    }
}

/// What an event leads to that both transports treat alike.
pub open spec fn common_step<C, E>(
    event: SetupEvent<C, E>,
    next: SetupState,
    action: SetupAction<C, E>,
) -> bool {
    match event {
        SetupEvent::TlsLoaded(Ok(tls)) => {
            &&& next is Resolving
            &&& action == (SetupAction::<C, E>::Resolve { tls })
        },
        SetupEvent::TlsLoaded(Err(e)) => {
            &&& next is Ended
            &&& action == SetupAction::<C, E>::Fail(SetupFailure::Tls(e))
        },
        SetupEvent::Failed(e) => {
            &&& next is Ended
            &&& action == SetupAction::<C, E>::Fail(SetupFailure::Io(e))
        },
        SetupEvent::SessionEnded => {
            &&& next is Ended
            &&& action == SetupAction::<C, E>::Finish
        },
        _ => false,
    }
}

/// What comes of addresses of which none is of the family that the client wants.
pub open spec fn no_address_step<C, E>(next: SetupState, action: SetupAction<C, E>) -> bool {
    &&& next is Ended
    &&& action == SetupAction::<C, E>::Fail(SetupFailure::Client(ClientError::CannotConnect))
}

/// What an event leads to over QUIC.
pub open spec fn quic_setup_step<C, E>(
    client: SnpClient,
    state: SetupState,
    event: SetupEvent<C, E>,
    next: SetupState,
    action: SetupAction<C, E>,
) -> bool {
    let version = client.server_ip_version@;
    &&& state.can_take_quic(event)
    &&& match event {
        SetupEvent::Bound => {
            &&& next is LoadingTls
            &&& action is LoadTls
        },
        SetupEvent::Resolved(addresses) => if none_wanted(version, addresses@) {
            no_address_step(next, action)
        } else {
            &&& next is Connecting
            &&& action matches SetupAction::ConnectQuic { index, name } && first_wanted(
                version,
                addresses@,
                index as int,
            ) && name@ == SERVER_NAME@
        },
        SetupEvent::Connected => {
            &&& next is Running
            &&& action is RunSession
        },
        _ => common_step(event, next, action),
    }
}

/// What an event leads to over TCP.
pub open spec fn mux_setup_step<C, E>(
    client: SnpClient,
    state: SetupState,
    event: SetupEvent<C, E>,
    next: SetupState,
    action: SetupAction<C, E>,
) -> bool {
    let version = client.server_ip_version@;
    &&& state.can_take_mux(event)
    &&& match event {
        SetupEvent::Resolved(addresses) => if none_wanted(version, addresses@) {
            no_address_step(next, action)
        } else {
            &&& next is Connecting
            &&& action matches SetupAction::ConnectTcp { index } && first_wanted(
                version,
                addresses@,
                index as int,
            )
        },
        SetupEvent::Connected => {
            &&& next is Handshaking
            &&& action matches SetupAction::Handshake { name } && server_name_text(name)
                == SERVER_NAME@
        },
        SetupEvent::HandshakeDone => {
            &&& next is Running
            &&& action is RunSession
        },
        _ => common_step(event, next, action),
    }
}

impl SnpClient {
    /// The TLS settings for a session over the configured transport. `None` where the
    /// PEM text of the certificate cannot be read or holds none.
    pub fn session_tls(&self) -> (tls: Option<Result<SessionTls, TlsError>>)
        ensures
            match tls {
                None => !client_root_present(self.tlsconfig),
                Some(Ok(SessionTls::Quic(config))) => {
                    &&& client_root_present(self.tlsconfig)
                    &&& transport_named(self.transport@) == Transport::Quic
                    &&& quic_client_outcome(self.tlsconfig, Ok(config))
                },
                Some(Ok(SessionTls::Tcp(config))) => {
                    &&& client_root_present(self.tlsconfig)
                    &&& transport_named(self.transport@) == Transport::Tcp
                    &&& client_outcome(self.tlsconfig, Ok(config))
                },
                Some(Err(e)) => {
                    &&& client_root_present(self.tlsconfig)
                    &&& client_error(self.tlsconfig, e)
                },
            },
    {
        if !has_client_root(&self.tlsconfig) {
            return None;
        }
        match Transport::from_name(&self.transport) {
            Transport::Quic => match client_tls_config(&self.tlsconfig) {
                Ok(config) => Some(Ok(SessionTls::Quic(config))),
                Err(e) => Some(Err(e)),
            },
            Transport::Tcp => match load_rustls_client_config(&self.tlsconfig) {
                Ok(config) => Some(Ok(SessionTls::Tcp(config))),
                Err(e) => Some(Err(e)),
            },
        }
    }

    /// Begins a session over the transport.
    pub fn start_session<C, E>(&self, transport: Transport) -> (r: (SetupState, SetupAction<C, E>))
        ensures
            match transport {
                Transport::Quic => r.0 is Binding && r.1 is Bind,
                Transport::Tcp => r.0 is LoadingTls && r.1 is LoadTls,
            },
    {
        match transport {
            Transport::Quic => (SetupState::Binding, SetupAction::Bind),
            Transport::Tcp => (SetupState::LoadingTls, SetupAction::LoadTls),
        }
    }

    /// One step of a session over QUIC.
    pub fn run_quic_session<C, E>(&self, state: SetupState, event: SetupEvent<C, E>) -> (r: (
        SetupState,
        SetupAction<C, E>,
    ))
        requires
            state.can_take_quic(event),
        ensures
            quic_setup_step(*self, state, event, r.0, r.1),
    {
        match event {
            SetupEvent::Bound => (SetupState::LoadingTls, SetupAction::LoadTls),
            SetupEvent::Resolved(addresses) => match self.choose_address(&addresses) {
                Ok(index) => (
                    SetupState::Connecting,
                    SetupAction::ConnectQuic { index, name: SERVER_NAME },
                ),
                Err(e) => (SetupState::Ended, SetupAction::Fail(SetupFailure::Client(e))),
            },
            SetupEvent::Connected => (SetupState::Running, SetupAction::RunSession),
            event => common(event),
        }
    }

    /// One step of a session over TCP.
    pub fn run_mux_session<C, E>(&self, state: SetupState, event: SetupEvent<C, E>) -> (r: (
        SetupState,
        SetupAction<C, E>,
    ))
        requires
            state.can_take_mux(event),
        ensures
            mux_setup_step(*self, state, event, r.0, r.1),
    {
        match event {
            SetupEvent::Resolved(addresses) => match self.choose_address(&addresses) {
                Ok(index) => (SetupState::Connecting, SetupAction::ConnectTcp { index }),
                Err(e) => (SetupState::Ended, SetupAction::Fail(SetupFailure::Client(e))),
            },
            SetupEvent::Connected => match expected_server_name() {
                Ok(name) => (SetupState::Handshaking, SetupAction::Handshake { name }),
                Err(e) => (SetupState::Ended, SetupAction::Fail(SetupFailure::Client(e))),
            },
            SetupEvent::HandshakeDone => (SetupState::Running, SetupAction::RunSession),
            event => common(event),
        }
    }
}

fn common<C, E>(event: SetupEvent<C, E>) -> (r: (SetupState, SetupAction<C, E>))
    requires
        event is TlsLoaded || event is Failed || event is SessionEnded,
    ensures
        common_step(event, r.0, r.1),
{
    match event {
        SetupEvent::TlsLoaded(Ok(tls)) => (SetupState::Resolving, SetupAction::Resolve { tls }),
        SetupEvent::TlsLoaded(Err(e)) => (
            SetupState::Ended,
            SetupAction::Fail(SetupFailure::Tls(e)),
        ),
        SetupEvent::Failed(e) => (SetupState::Ended, SetupAction::Fail(SetupFailure::Io(e))),
        _ => (SetupState::Ended, SetupAction::Finish),
    }
}

/// The stream that a QUIC connection accepted. Whatever ends the connection, it is
/// taken as the end of the streams and not as a failure.
pub fn accept_bi<S, E>(accepted: Result<S, E>) -> (stream: Option<S>)
    ensures
        stream == match accepted {
            Ok(s) => Some(s),
            Err(_) => None::<S>,
        },
{
    match accepted {
        Ok(s) => Some(s),
        Err(_) => None,
    }
}

/// No session runs over TCP before the server was checked: what comes just before is
/// the handshake with a server of the expected name, and before that the connection to
/// an address that the client chose.
pub proof fn lemma_mux_session_is_checked<C, E>(
    client: SnpClient,
    states: Seq<SetupState>,
    events: Seq<SetupEvent<C, E>>,
    actions: Seq<SetupAction<C, E>>,
    i: int,
)
    requires
        states.len() == events.len() + 1,
        actions.len() == events.len(),
        states[0] is LoadingTls,
        forall|k: int|
            0 <= k < events.len() ==> mux_setup_step(
                client,
                #[trigger] states[k],
                events[k],
                states[k + 1],
                actions[k],
            ),
        0 <= i < actions.len(),
        actions[i] is RunSession,
    ensures
        i == 3,
        events[0] matches SetupEvent::TlsLoaded(Ok(tls)) && actions[0] == (SetupAction::<C, E>::Resolve {
            tls,
        }),
        events[1] matches SetupEvent::Resolved(addresses)
            && actions[1] matches SetupAction::ConnectTcp { index } && first_wanted(
            client.server_ip_version@,
            addresses@,
            index as int,
        ),
        actions[2] matches SetupAction::Handshake { name } && server_name_text(name) == SERVER_NAME@,
        events[3] is HandshakeDone,
{
    assert(states[i] is Handshaking);
    assert(states[i - 1] is Connecting);
    assert(states[i - 2] is Resolving);
    assert(states[i - 3] is LoadingTls);
    if i > 3 {
        // No step leads to `LoadingTls`.
        assert(!mux_setup_step(client, states[i - 4], events[i - 4], states[i - 3], actions[i - 4]));
    }
}

/// No session runs over QUIC before the server was checked: what comes just before is
/// the connection, to an address that the client chose, to a server of the expected
/// name.
pub proof fn lemma_quic_session_is_checked<C, E>(
    client: SnpClient,
    states: Seq<SetupState>,
    events: Seq<SetupEvent<C, E>>,
    actions: Seq<SetupAction<C, E>>,
    i: int,
)
    requires
        states.len() == events.len() + 1,
        actions.len() == events.len(),
        states[0] is Binding,
        forall|k: int|
            0 <= k < events.len() ==> quic_setup_step(
                client,
                #[trigger] states[k],
                events[k],
                states[k + 1],
                actions[k],
            ),
        0 <= i < actions.len(),
        actions[i] is RunSession,
    ensures
        i == 3,
        events[1] matches SetupEvent::TlsLoaded(Ok(tls)) && actions[1] == (SetupAction::<C, E>::Resolve {
            tls,
        }),
        events[2] matches SetupEvent::Resolved(addresses)
            && actions[2] matches SetupAction::ConnectQuic { index, name } && first_wanted(
            client.server_ip_version@,
            addresses@,
            index as int,
        ) && name@ == SERVER_NAME@,
        events[3] is Connected,
{
    assert(states[i] is Connecting);
    assert(states[i - 1] is Resolving);
    assert(states[i - 2] is LoadingTls);
    assert(states[i - 3] is Binding);
    if i > 3 {
        // No step leads to `Binding`.
        assert(!quic_setup_step(client, states[i - 4], events[i - 4], states[i - 3], actions[i - 4]));
    }
}

/// The client connects whenever the server has an address of the family asked for, and
/// then to the first of them; over QUIC it checks the server for the name `snp` in
/// doing so.
pub proof fn lemma_resolved_address_is_used<C, E>(
    client: SnpClient,
    addresses: Vec<IpFamily>,
    wanted: IpFamily,
    k: int,
    next: SetupState,
    action: SetupAction<C, E>,
)
    requires
        client.server_ip_version@ == (if wanted == IpFamily::V4 {
            seq!['i', 'p', 'v', '4']
        } else {
            seq!['i', 'p', 'v', '6']
        }),
        0 <= k < addresses@.len(),
        addresses@[k] == wanted,
        forall|j: int| 0 <= j < k ==> #[trigger] addresses@[j] != wanted,
    ensures
        SetupState::Resolving.can_take_quic(SetupEvent::<C, E>::Resolved(addresses)),
        SetupState::Resolving.can_take_mux(SetupEvent::<C, E>::Resolved(addresses)),
        quic_setup_step(
            client,
            SetupState::Resolving,
            SetupEvent::Resolved(addresses),
            next,
            action,
        ) ==> {
            &&& next is Connecting
            &&& action matches SetupAction::ConnectQuic { index, name }
            &&& index == k
            &&& name@ == seq!['s', 'n', 'p']
        },
        mux_setup_step(
            client,
            SetupState::Resolving,
            SetupEvent::Resolved(addresses),
            next,
            action,
        ) ==> {
            &&& next is Connecting
            &&& action matches SetupAction::ConnectTcp { index }
            &&& index == k
        },
{
    reveal_strlit("snp");
    assert("snp"@ =~= seq!['s', 'n', 'p']);
    let version = client.server_ip_version@;
    lemma_address_choice(version, addresses@, k, k);
    if let SetupAction::ConnectQuic { index, name } = action {
        lemma_address_choice(version, addresses@, index as int, k);
        if 0 <= index < k {
            assert(addresses@[index as int] != wanted);
        }
    }
    if let SetupAction::ConnectTcp { index } = action {
        lemma_address_choice(version, addresses@, index as int, k);
        if 0 <= index < k {
            assert(addresses@[index as int] != wanted);
        }
    }
}

/// The session fails for want of an address where the server has none of the family
/// asked for, over either transport.
pub proof fn lemma_no_address_fails<C, E>(
    client: SnpClient,
    addresses: Vec<IpFamily>,
    next: SetupState,
    action: SetupAction<C, E>,
)
    requires
        forall|j: int|
            0 <= j < addresses@.len() ==> client.server_ip_version@ != (if #[trigger] addresses@[j]
                == IpFamily::V4 {
                seq!['i', 'p', 'v', '4']
            } else {
                seq!['i', 'p', 'v', '6']
            }),
        quic_setup_step(
            client,
            SetupState::Resolving,
            SetupEvent::Resolved(addresses),
            next,
            action,
        ) || mux_setup_step(
            client,
            SetupState::Resolving,
            SetupEvent::Resolved(addresses),
            next,
            action,
        ),
    ensures
        next is Ended,
        action == SetupAction::<C, E>::Fail(SetupFailure::Client(ClientError::CannotConnect)),
{
    let version = client.server_ip_version@;
    if let SetupAction::ConnectQuic { index, name } = action {
        lemma_address_choice(version, addresses@, index as int, index as int);
    }
    if let SetupAction::ConnectTcp { index } = action {
        lemma_address_choice(version, addresses@, index as int, index as int);
    }
}

/// Over QUIC the endpoint is bound, the TLS settings are loaded and used, and the session
/// runs once the connection is made.
pub proof fn lemma_quic_setup_course<C, E>(
    client: SnpClient,
    tls: C,
    refused: TlsError,
    next: SetupState,
    action: SetupAction<C, E>,
)
    ensures
        SetupState::Binding.can_take_quic(SetupEvent::<C, E>::Bound),
        quic_setup_step(client, SetupState::Binding, SetupEvent::Bound, next, action) ==> {
            &&& next is LoadingTls
            &&& action is LoadTls
        },
        SetupState::LoadingTls.can_take_quic(SetupEvent::<C, E>::TlsLoaded(Ok(tls))),
        quic_setup_step(
            client,
            SetupState::LoadingTls,
            SetupEvent::TlsLoaded(Ok(tls)),
            next,
            action,
        ) ==> {
            &&& next is Resolving
            &&& action == (SetupAction::<C, E>::Resolve { tls })
        },
        SetupState::LoadingTls.can_take_quic(SetupEvent::<C, E>::TlsLoaded(Err(refused))),
        quic_setup_step(
            client,
            SetupState::LoadingTls,
            SetupEvent::TlsLoaded(Err(refused)),
            next,
            action,
        ) ==> {
            &&& next is Ended
            &&& action == SetupAction::<C, E>::Fail(SetupFailure::Tls(refused))
        },
        SetupState::Connecting.can_take_quic(SetupEvent::<C, E>::Connected),
        quic_setup_step(client, SetupState::Connecting, SetupEvent::Connected, next, action) ==> {
            &&& next is Running
            &&& action is RunSession
        },
        SetupState::Running.can_take_quic(SetupEvent::<C, E>::SessionEnded),
        quic_setup_step(client, SetupState::Running, SetupEvent::SessionEnded, next, action) ==> {
            &&& next is Ended
            &&& action is Finish
        },
{
}

/// Over TCP the TLS settings are loaded and used, a connection that is made is followed
/// by the handshake with a server of the name `snp`, and the session runs once that is
/// done.
pub proof fn lemma_mux_setup_course<C, E>(
    client: SnpClient,
    tls: C,
    refused: TlsError,
    next: SetupState,
    action: SetupAction<C, E>,
)
    ensures
        SetupState::LoadingTls.can_take_mux(SetupEvent::<C, E>::TlsLoaded(Ok(tls))),
        mux_setup_step(
            client,
            SetupState::LoadingTls,
            SetupEvent::TlsLoaded(Ok(tls)),
            next,
            action,
        ) ==> {
            &&& next is Resolving
            &&& action == (SetupAction::<C, E>::Resolve { tls })
        },
        SetupState::LoadingTls.can_take_mux(SetupEvent::<C, E>::TlsLoaded(Err(refused))),
        mux_setup_step(
            client,
            SetupState::LoadingTls,
            SetupEvent::TlsLoaded(Err(refused)),
            next,
            action,
        ) ==> {
            &&& next is Ended
            &&& action == SetupAction::<C, E>::Fail(SetupFailure::Tls(refused))
        },
        SetupState::Connecting.can_take_mux(SetupEvent::<C, E>::Connected),
        mux_setup_step(client, SetupState::Connecting, SetupEvent::Connected, next, action) ==> {
            &&& next is Handshaking
            &&& action matches SetupAction::Handshake { name }
            &&& server_name_text(name) == seq!['s', 'n', 'p']
        },
        SetupState::Handshaking.can_take_mux(SetupEvent::<C, E>::HandshakeDone),
        mux_setup_step(
            client,
            SetupState::Handshaking,
            SetupEvent::HandshakeDone,
            next,
            action,
        ) ==> {
            &&& next is Running
            &&& action is RunSession
        },
        SetupState::Running.can_take_mux(SetupEvent::<C, E>::SessionEnded),
        mux_setup_step(client, SetupState::Running, SetupEvent::SessionEnded, next, action) ==> {
            &&& next is Ended
            &&& action is Finish
        },
{
    reveal_strlit("snp");
    assert("snp"@ =~= seq!['s', 'n', 'p']);
}

/// A failure on the way to a session ends it with that failure.
pub proof fn lemma_setup_failure<C, E>(
    client: SnpClient,
    state: SetupState,
    e: E,
    next: SetupState,
    action: SetupAction<C, E>,
)
    ensures
        state.can_take_quic(SetupEvent::<C, E>::Failed(e)) <==> {
            ||| state is Binding
            ||| state is Resolving
            ||| state is Connecting
        },
        state.can_take_mux(SetupEvent::<C, E>::Failed(e)) <==> {
            ||| state is Resolving
            ||| state is Connecting
            ||| state is Handshaking
        },
        quic_setup_step(client, state, SetupEvent::Failed(e), next, action) || mux_setup_step(
            client,
            state,
            SetupEvent::Failed(e),
            next,
            action,
        ) ==> {
            &&& next is Ended
            &&& action == SetupAction::<C, E>::Fail(SetupFailure::Io(e))
        },
{
}

} // verus!
