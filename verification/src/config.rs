//! The configuration of a tunnel and the values of the settings left out.

use vstd::prelude::*;

verus! {

/// What one process runs: a server, a client, or both.
#[derive(Debug, Clone)]
pub struct Config {
    pub server: Option<ServerConfig>,
    pub client: Option<ClientConfig>,
}

/// The settings of a server.
#[derive(Debug, Clone)]
pub struct ServerConfig {
    pub bind: String,
    pub tls: TlsConfig,
    /// `quic` or `tcp`.
    pub transport: String,
}

/// The settings of a client.
#[derive(Debug, Clone)]
pub struct ClientConfig {
    pub bind: String,
    /// `ipv4` or `ipv6`.
    pub server_ip_version: String,
    pub server: String,
    pub tls: TlsConfig,
    pub rules: Vec<Rule>,
    /// `quic` or `tcp`.
    pub transport: String,
    /// Seconds between two connection attempts.
    pub reconnect_interval: u64,
    /// How many attempts are made; 0 for no limit.
    pub max_reconnect_attempts: u32,
}

/// A certificate, and the private key that belongs to it, both in PEM.
#[derive(Debug, Clone)]
pub struct TlsConfig {
    pub key: Option<String>,
    pub cert: String,
}

/// One port that is carried through the tunnel.
#[derive(Debug, Clone)]
pub enum Rule {
    /// The client listens on `bind`, the server connects to `forward`.
    ClientToServerForward { bind: String, forward: String },
    /// The client listens on `bind` and speaks SOCKS5 there.
    ClientToServerSocks5 { bind: String },
    /// The server listens on `bind`, the client connects to `forward`.
    ServerToClientForward { bind: String, forward: String },
    /// The server listens on `bind` and speaks SOCKS5 there.
    ServerToClientSocks5 { bind: String },
}

/// The transport of a configuration that names none.
pub fn default_transport() -> (name: String)
    ensures
        name@ == "quic"@,
{
    "quic".to_string()
}

/// The address family of a client configuration that names none.
pub fn default_ipv4() -> (name: String)
    ensures
        name@ == "ipv4"@,
{
    "ipv4".to_string()
}

/// The pause between two connection attempts, in seconds.
pub fn default_reconnect_interval() -> (secs: u64)
    ensures
        secs == 5,
{
    5
}

/// The limit on connection attempts: none.
pub fn default_max_reconnect_attempts() -> (attempts: u32)
    ensures
        attempts == 0,
{
    0
}

/// How the tunnel's connection is carried.
#[derive(Debug, Clone, Copy, PartialEq, Eq, Structural)]
pub enum Transport {
    /// QUIC, whose streams are the tunnel's streams.
    Quic,
    /// TLS over TCP, with streams multiplexed on top.
    Tcp,
}

/// The transport that a configured name stands for: every name but `tcp` means QUIC.
pub open spec fn transport_named(name: Seq<char>) -> Transport {
    if name == "tcp"@ {
        Transport::Tcp
    } else {
        Transport::Quic
    }
}

impl Transport {
    /// Reads the `transport` setting.
    pub fn from_name(name: &String) -> (transport: Transport)
        ensures
            transport == transport_named(name@),
    {
        if *name == "tcp".to_string() {
            Transport::Tcp
        } else {
            Transport::Quic
        }
    }
}

/// The name `tcp` stands for TCP, and every other name for QUIC.
pub proof fn lemma_transport_names(name: Seq<char>)
    ensures
        transport_named(name) == Transport::Tcp <==> name == seq!['t', 'c', 'p'],
        transport_named(name) == Transport::Quic <==> name != seq!['t', 'c', 'p'],
{
    reveal_strlit("tcp");
    assert("tcp"@ =~= seq!['t', 'c', 'p']);
}

} // verus!
