//! The server: how it starts, and what it does with a client's streams.

use vstd::prelude::*;
use crate::config::{ServerConfig, Transport};
use crate::tls::{has_server_key, load_rustls_server_config, quinn_server_config, TlsError};
use crate::wire::Command;
use quinn::ServerConfig as QuinnServerConfig;
use rustls::ServerConfig as RustlsServerConfig;
#[allow(unused_imports)]
use crate::client::{reverse_step, ReverseAction, ReverseEvent};
#[allow(unused_imports)]
use crate::config::transport_named;
#[allow(unused_imports)]
use crate::tls::{quic_outcome, server_key_present, server_outcome};
#[allow(unused_imports)]
use crate::wire::{command_of, request_bytes, RequestView};

verus! {

/// A server with its settings.
pub struct SnpServer {
    pub bind: String,
    pub tls_config: RustlsServerConfig,
    pub transport: String,
}

/// What to do with what the server's socket brought. Incoming connections are of type
/// `T`, failures of type `E`.
pub enum IncomingAction<T, E> {
    /// Serve the connection, and accept the next beside it.
    Serve(T),
    /// It is over.
    Finish,
    /// It is over, for this reason.
    Fail(E),
}

impl SnpServer {
    /// A server with the settings of a configuration, and TLS settings made for it.
    pub fn with_tls(
        config: ServerConfig,
        tls_config: Result<RustlsServerConfig, TlsError>,
    ) -> (server: Result<SnpServer, TlsError>)
        ensures
            match tls_config {
                Ok(tls) => server == Ok::<SnpServer, TlsError>(
                    (SnpServer { bind: config.bind, tls_config: tls, transport: config.transport }),
                ),
                Err(e) => server == Err::<SnpServer, TlsError>(e),
            },
    {
        match tls_config {
            Ok(tls) => Ok(
                SnpServer { bind: config.bind, tls_config: tls, transport: config.transport },
            ),
            Err(e) => Err(e),
        }
    }

    /// A server with the settings of a configuration. Whether TLS settings can be made
    /// of material that can be read rests with the cryptography provider of the process.
    pub fn new(config: ServerConfig) -> (server: Result<SnpServer, TlsError>)
        requires
            server_key_present(config.tls),
        ensures
            match server {
                Ok(s) => {
                    &&& s.bind == config.bind
                    &&& s.transport == config.transport
                    &&& server_outcome(config.tls, Ok(s.tls_config))
                },
                Err(e) => server_outcome(config.tls, Err(e)),
            },
    {
        let tls_config = load_rustls_server_config(&config.tls);
        SnpServer::with_tls(config, tls_config)
    }

    /// [`SnpServer::new`] for any configuration: `None` where both PEM texts can be read
    /// and there is no private key.
    pub fn try_new(config: ServerConfig) -> (server: Option<Result<SnpServer, TlsError>>)
        ensures
            match server {
                None => !server_key_present(config.tls),
                Some(Ok(s)) => {
                    &&& server_key_present(config.tls)
                    &&& s.bind == config.bind
                    &&& s.transport == config.transport
                    &&& server_outcome(config.tls, Ok(s.tls_config))
                },
                Some(Err(e)) => {
                    &&& server_key_present(config.tls)
                    &&& server_outcome(config.tls, Err(e))
                },
            },
    {
        if has_server_key(&config.tls) {
            Some(SnpServer::new(config))
        } else {
            None
        }
    }

    /// The transport to listen on.
    pub fn run(&self) -> (transport: Transport)
        ensures
            transport == transport_named(self.transport@),
    {
        Transport::from_name(&self.transport)
    }

    /// The settings of the QUIC endpoint to listen on.
    pub fn quic_config(&self) -> (config: Result<QuinnServerConfig, TlsError>)
        ensures
            quic_outcome(self.tls_config, config),
    {
        quinn_server_config(&self.tls_config)
    }

    /// What to do with what the QUIC endpoint brought: it ends by running dry, and never
    /// fails.
    pub fn run_quic<T, E>(&self, incoming: Option<T>) -> (action: IncomingAction<T, E>)
        ensures
            action == match incoming {
                Some(connection) => IncomingAction::<T, E>::Serve(connection),
                None => IncomingAction::<T, E>::Finish,
            },
    {
        match incoming {
            Some(connection) => IncomingAction::Serve(connection),
            None => IncomingAction::Finish,
        }
    }

    /// What to do with what the TCP listener brought: the first failure ends it.
    pub fn run_mux<T, E>(&self, incoming: Result<T, E>) -> (action: IncomingAction<T, E>)
        ensures
            action == match incoming {
                Ok(connection) => IncomingAction::<T, E>::Serve(connection),
                Err(e) => IncomingAction::<T, E>::Fail(e),
            },
    {
        match incoming {
            Ok(connection) => IncomingAction::Serve(connection),
            Err(e) => IncomingAction::Fail(e),
        }
    }
}

/// What happened on a client's connection. Streams are of type `S`, failures of type
/// `E`.
pub enum ConnectionEvent<S, E> {
    /// A stream came in.
    Accepted(S),
    /// No stream will come any more.
    AcceptEnded,
    /// Accepting failed.
    AcceptFailed(E),
    /// The command byte of a stream was read.
    CommandRead { stream: S, code: u8 },
    /// The command byte could not be read.
    CommandFailed(E),
}

/// What to do next.
pub enum ConnectionAction<S, E> {
    /// Read one byte from the stream.
    ReadCommand(S),
    /// Hand the stream to the handler of the command, and accept the next.
    Serve { command: Command, stream: S },
    /// Drop the stream and accept the next.
    Ignore(S),
    /// It is over; `cancel` says whether the handlers are to stop.
    Finish { cancel: bool },
    /// It is over, for this reason; `cancel` says whether the handlers are to stop.
    Fail { error: E, cancel: bool },
}

/// What an event leads to.
pub open spec fn connection_step<S, E>(event: ConnectionEvent<S, E>) -> ConnectionAction<S, E> {
    match event {
        ConnectionEvent::Accepted(stream) => ConnectionAction::ReadCommand(stream),
        ConnectionEvent::AcceptEnded => ConnectionAction::Finish { cancel: true },
        ConnectionEvent::AcceptFailed(error) => ConnectionAction::Fail { error, cancel: true },
        ConnectionEvent::CommandRead { stream, code } => match command_of(code) {
            Some(command) => ConnectionAction::Serve { command, stream },
            None => ConnectionAction::Ignore(stream),
        },
        ConnectionEvent::CommandFailed(error) => ConnectionAction::Fail { error, cancel: false },
    }
}

/// One step of serving a client's connection.
pub fn handle_connection<S, E>(event: ConnectionEvent<S, E>) -> (action: ConnectionAction<S, E>)
    ensures
        action == connection_step(event),
{
    match event {
        ConnectionEvent::Accepted(stream) => ConnectionAction::ReadCommand(stream),
        ConnectionEvent::AcceptEnded => ConnectionAction::Finish { cancel: true },
        ConnectionEvent::AcceptFailed(error) => ConnectionAction::Fail { error, cancel: true },
        ConnectionEvent::CommandRead { stream, code } => match Command::from_code(code) {
            Some(command) => ConnectionAction::Serve { command, stream },
            None => ConnectionAction::Ignore(stream),
        },
        ConnectionEvent::CommandFailed(error) => ConnectionAction::Fail { error, cancel: false },
    }
}

/// The server hands every request that can be sent to the handler of its command.
pub proof fn lemma_server_serves_every_request<S, E>(request: RequestView, stream: S)
    ensures
        connection_step(
            ConnectionEvent::<S, E>::CommandRead { stream, code: request_bytes(request)[0] },
        ) == (ConnectionAction::<S, E>::Serve { command: request.command, stream }),
{
}

/// The client serves only requests to forward: any other is dropped, whoever sends it.
pub proof fn lemma_client_serves_only_forwards<S, E>(request: RequestView, stream: S)
    ensures
        reverse_step(
            ReverseEvent::<S, E>::CommandRead { stream, code: request_bytes(request)[0] },
        ) == if request.command == Command::Forward {
            ReverseAction::<S, E>::Forward(stream)
        } else {
            ReverseAction::<S, E>::Ignore(stream)
        },
{
}

/// The server reads the command of every stream, and hands the stream to the handler of
/// 10, of 20 or of 21; a stream with any other command is dropped and the next accepted.
/// When no stream will come any more the handlers are told to stop, and so they are when
/// accepting fails.
pub proof fn lemma_connection_course<S, E>(stream: S, code: u8, error: E)
    ensures
        connection_step(ConnectionEvent::<S, E>::Accepted(stream)) == ConnectionAction::<
            S,
            E,
        >::ReadCommand(stream),
        connection_step(ConnectionEvent::<S, E>::AcceptEnded) == (ConnectionAction::<S, E>::Finish {
            cancel: true,
        }),
        connection_step(ConnectionEvent::<S, E>::AcceptFailed(error)) == (ConnectionAction::<
            S,
            E,
        >::Fail { error, cancel: true }),
        connection_step(ConnectionEvent::<S, E>::CommandFailed(error)) == (ConnectionAction::<
            S,
            E,
        >::Fail { error, cancel: false }),
        connection_step((ConnectionEvent::<S, E>::CommandRead { stream, code })) == (if code == 10 {
            (ConnectionAction::<S, E>::Serve { command: Command::Forward, stream })
        } else if code == 20 {
            (ConnectionAction::<S, E>::Serve { command: Command::ReverseForward, stream })
        } else if code == 21 {
            (ConnectionAction::<S, E>::Serve { command: Command::ReverseSocks5, stream })
        } else {
            ConnectionAction::<S, E>::Ignore(stream)
        }),
{
}

} // verus!
