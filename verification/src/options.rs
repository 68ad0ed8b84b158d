//! Options of a connection.

use crate::error::Error;
use vstd::prelude::*;

verus! {

/// Port of the gateway where the URL names none.
pub const DEFAULT_PORT: u16 = 5035;

/// Default of `server_keep_alive`, in milliseconds.
pub const DEFAULT_SERVER_KEEP_ALIVE_MS: u64 = 30_000;

/// Default of `client_keep_alive`, in milliseconds.
pub const DEFAULT_CLIENT_KEEP_ALIVE_MS: u64 = 10_000;

/// Default of `max_packet_len`: 1 MiB.
pub const DEFAULT_MAX_PACKET_LEN: usize = 1_048_576;

/// Default of `io_timeout`, in milliseconds.
pub const DEFAULT_IO_TIMEOUT_MS: u64 = 5_000;

/// Default of `connect_timeout`, in milliseconds.
pub const DEFAULT_CONNECT_TIMEOUT_MS: u64 = 10_000;

/// Default of `connect_retry_delay`, in milliseconds.
pub const DEFAULT_CONNECT_RETRY_DELAY_MS: u64 = 5_000;

/// The parts of the server's URL that the client reads.
#[derive(Debug, Clone, PartialEq, Eq)]
pub struct ServerUrl {
    pub scheme: String,
    pub host: Option<String>,
    pub port: Option<u16>,
}

/// Mathematical value of a [`ServerUrl`].
pub struct UrlView {
    pub scheme: Seq<char>,
    pub host: Option<Seq<char>>,
    pub port: Option<u16>,
}

impl View for ServerUrl {
    type V = UrlView;

    open spec fn view(&self) -> UrlView {
        UrlView {
            scheme: self.scheme@,
            host: match self.host {
                Some(h) => Some(h@),
                None => None,
            },
            port: self.port,
        }
    }
}

/// How the client connects to the broker. Only TLS is supported; the TLS
/// configuration itself stays with the code that opens the socket.
#[derive(Debug, Clone, Copy, PartialEq, Eq, Structural)]
pub enum ConnectionMode {
    Tls,
}

/// Options of a connection. Durations are in milliseconds.
#[derive(Debug, Clone, PartialEq, Eq)]
pub struct IoOptions {
    /// The TLS endpoint.
    pub url: ServerUrl,
    pub connection_mode: ConnectionMode,
    /// Period of the watchdog on the server's heartbeat.
    pub server_keep_alive: u64,
    /// Period of the client's own heartbeat.
    pub client_keep_alive: u64,
    /// Hard cap on the size of a frame body.
    pub max_packet_len: usize,
    /// Deadline of one request/response round trip; zero for none.
    pub io_timeout: u64,
    /// Deadline of one connect attempt.
    pub connect_timeout: u64,
    /// Whether to reconnect after a transient failure.
    pub automatic_connect: bool,
    /// Pause between two connect attempts.
    pub connect_retry_delay: u64,
}

impl ServerUrl {
    /// A copy of the URL.
    pub fn duplicate(&self) -> (c: ServerUrl)
        ensures
            c == *self,
    {
        ServerUrl {
            scheme: self.scheme.clone(),
            host: match &self.host {
                Some(h) => Some(h.clone()),
                None => None,
            },
            port: self.port,
        }
    }
}

impl IoOptions {
    /// A copy of the options.
    pub fn duplicate(&self) -> (c: IoOptions)
        ensures
            c == *self,
    {
        IoOptions {
            url: self.url.duplicate(),
            connection_mode: self.connection_mode,
            server_keep_alive: self.server_keep_alive,
            client_keep_alive: self.client_keep_alive,
            max_packet_len: self.max_packet_len,
            io_timeout: self.io_timeout,
            connect_timeout: self.connect_timeout,
            automatic_connect: self.automatic_connect,
            connect_retry_delay: self.connect_retry_delay,
        }
    }
}

/// Host and port to dial.
#[derive(Debug, Clone, PartialEq, Eq)]
pub struct ConnectTarget {
    pub host: String,
    pub port: u16,
}

/// What keeps a host from naming a TLS server: the message of the check,
/// or `None` for a DNS name or an IP address. Defined by
/// `rustls::ServerName::try_from`.
pub uninterp spec fn server_name_fault(host: Seq<char>) -> Option<Seq<char>>;

/// Checks that a host can name a TLS server.
///
/// Trusted: calls `rustls::ServerName::try_from` and gives the message of
/// its error, if it fails. The contract names the result.
#[verifier::external_body]
fn check_server_name(host: &str) -> (r: Option<String>)
    ensures
        server_name_fault(host@) == (match r {
            Some(msg) => Some(msg@),
            None => None,
        }),
{
    rustls::ServerName::try_from(host).err().map(|e| e.to_string())
}

/// Text of the error of a URL without host.
pub open spec fn missing_host_text() -> Seq<char> {
    "Missing host"@
}

/// Where to connect, given the URL's host and port and what the check of
/// the host as a server name found: the host and the port, or 5035 where
/// the URL names none. A URL without host is refused, and so is a host
/// that cannot name a TLS server.
pub open spec fn target_of(url: UrlView, fault: Option<Seq<char>>) -> Result<
    (Seq<char>, u16),
    crate::error::ErrorView,
> {
    match url.host {
        None => Err(crate::error::ErrorView::String(missing_host_text())),
        Some(h) => match fault {
            Some(msg) => Err(crate::error::ErrorView::DNSName(msg)),
            None => Ok(
                (
                    h,
                    match url.port {
                        Some(p) => p,
                        None => DEFAULT_PORT,
                    },
                ),
            ),
        },
    }
}

/// The view of a connect target or of the error in its place.
pub open spec fn target_view(r: Result<ConnectTarget, Error>) -> Result<
    (Seq<char>, u16),
    crate::error::ErrorView,
> {
    match r {
        Ok(t) => Ok((t.host@, t.port)),
        Err(e) => Err(e@),
    }
}

/// Where to connect, with the outcome of the host's check given: see [`target_of`].
pub fn target_for(url: &ServerUrl, fault: Option<String>) -> (r: Result<ConnectTarget, Error>)
    ensures
        target_view(r) == target_of(
            url@,
            match fault {
                Some(msg) => Some(msg@),
                None => None,
            },
        ),
{
    match &url.host {
        None => Err(Error::String("Missing host".to_string())),
        Some(h) => match fault {
            Some(msg) => Err(Error::DNSName(msg)),
            None => {
                let port = match url.port {
                    Some(p) => p,
                    None => DEFAULT_PORT,
                };
                Ok(ConnectTarget { host: h.clone(), port })
            },
        },
    }
}

/// Where to connect: the host of the URL, checked as a server name, and
/// its port. See [`target_of`].
pub fn connect_target(opts: &IoOptions) -> (r: Result<ConnectTarget, Error>)
    ensures
        target_view(r) == target_of(
            opts.url@,
            match opts.url.host {
                Some(h) => server_name_fault(h@),
                None => None,
            },
        ),
{
    let fault = match &opts.url.host {
        Some(h) => check_server_name(h.as_str()),
        None => None,
    };
    target_for(&opts.url, fault)
}

} // verus!
