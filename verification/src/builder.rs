//! Builder of a session.

use crate::client::{Session, SessionPhase, SessionView};
use crate::connection::ConnectionView;
use crate::client::marketdata::SubscriptionsView;
use crate::credentials::{AccountCredentials, ApplicationCredentials};
use crate::error::{Error, ErrorView};
use crate::options::{
    ConnectionMode, IoOptions, ServerUrl, UrlView, DEFAULT_CLIENT_KEEP_ALIVE_MS,
    DEFAULT_CONNECT_RETRY_DELAY_MS, DEFAULT_CONNECT_TIMEOUT_MS, DEFAULT_IO_TIMEOUT_MS,
    DEFAULT_MAX_PACKET_LEN, DEFAULT_SERVER_KEEP_ALIVE_MS,
};
use crate::util::symbol_store::empty_store;
use vstd::prelude::*;

verus! {

/// What a text is as a URL: scheme, host and port, or the parser's message
/// where it is none. Defined by `url::Url::parse`.
pub uninterp spec fn parsed_url(text: Seq<char>) -> Result<UrlView, Seq<char>>;

/// Parses a URL.
///
/// Trusted: calls `url::Url::parse` and reads scheme, host and explicit
/// port off the result; a failure is given by its message. The contract
/// names the result.
#[verifier::external_body]
fn parse_url(text: &str) -> (r: Result<ServerUrl, String>)
    ensures
        parsed_url(text@) == (match r {
            Ok(u) => Ok::<UrlView, Seq<char>>(u@),
            Err(msg) => Err::<UrlView, Seq<char>>(msg@),
        }),
{
    match url::Url::parse(text) {
        Ok(u) => Ok(
            ServerUrl {
                scheme: u.scheme().to_string(),
                host: u.host_str().map(str::to_string),
                port: u.port(),
            },
        ),
        Err(e) => Err(e.to_string()),
    }
}

/// A fluent builder of a [`Session`]. URL and both credentials must be set
/// before `build`; every other option has a default. Durations are in
/// milliseconds.
pub struct ClientBuilder {
    pub url: Option<ServerUrl>,
    pub server_keep_alive: Option<u64>,
    pub client_keep_alive: Option<u64>,
    pub max_packet_len: Option<usize>,
    pub io_timeout: Option<u64>,
    pub connect_timeout: Option<u64>,
    pub connection_mode: ConnectionMode,
    pub automatic_connect: Option<bool>,
    pub connect_retry_delay: Option<u64>,
    pub application_credentials: Option<ApplicationCredentials>,
    pub account_credentials: Option<AccountCredentials>,
}

/// Text of the error of a build without URL.
pub open spec fn missing_url_text() -> Seq<char> {
    "You must set a url for the client"@
}

/// Text of the error of a build without application credentials.
pub open spec fn missing_application_text() -> Seq<char> {
    "You must set a application credentials for the client"@
}

/// Text of the error of a build without account credentials.
pub open spec fn missing_account_text() -> Seq<char> {
    "You must set a account credential for the client"@
}

/// `value`, or `default` where none was set.
pub open spec fn or_default<T>(value: Option<T>, default: T) -> T {
    match value {
        Some(v) => v,
        None => default,
    }
}

/// The options that a builder stands for, given its URL.
pub open spec fn built_options(b: ClientBuilder, url: ServerUrl) -> IoOptions {
    IoOptions {
        url,
        connection_mode: b.connection_mode,
        server_keep_alive: or_default(b.server_keep_alive, DEFAULT_SERVER_KEEP_ALIVE_MS),
        client_keep_alive: or_default(b.client_keep_alive, DEFAULT_CLIENT_KEEP_ALIVE_MS),
        max_packet_len: or_default(b.max_packet_len, DEFAULT_MAX_PACKET_LEN),
        io_timeout: or_default(b.io_timeout, DEFAULT_IO_TIMEOUT_MS),
        connect_timeout: or_default(b.connect_timeout, DEFAULT_CONNECT_TIMEOUT_MS),
        automatic_connect: or_default(b.automatic_connect, true),
        connect_retry_delay: or_default(b.connect_retry_delay, DEFAULT_CONNECT_RETRY_DELAY_MS),
    }
}

/// What `build` returns: a configured session with the builder's options
/// and credentials, or the error of the first of URL, application
/// credentials and account credentials that is missing.
pub open spec fn built(b: ClientBuilder) -> Result<SessionView, ErrorView> {
    match (b.url, b.application_credentials, b.account_credentials) {
        (None, _, _) => Err(ErrorView::String(missing_url_text())),
        (Some(_), None, _) => Err(ErrorView::String(missing_application_text())),
        (Some(_), Some(_), None) => Err(ErrorView::String(missing_account_text())),
        (Some(url), Some(application), Some(account)) => Ok(
            SessionView {
                application: application@,
                account: account@,
                version: 0,
                connection: ConnectionView { options: built_options(b, url), has_task: false },
                subscriptions: SubscriptionsView {
                    spots: Seq::empty(),
                    bars: Seq::empty(),
                    depths: Seq::empty(),
                },
                store: empty_store(),
                phase: SessionPhase::Configured,
            },
        ),
    }
}

/// The view of what `build` returns.
pub open spec fn session_result_view(r: Result<Session, Error>) -> Result<SessionView, ErrorView> {
    match r {
        Ok(s) => Ok(s@),
        Err(e) => Err(e@),
    }
}

impl Default for ClientBuilder {
    fn default() -> (b: ClientBuilder)
        ensures
            b == ClientBuilder::unset(),
    {
        ClientBuilder {
            url: None,
            server_keep_alive: None,
            client_keep_alive: None,
            max_packet_len: None,
            io_timeout: None,
            connect_timeout: None,
            connection_mode: ConnectionMode::Tls,
            automatic_connect: None,
            connect_retry_delay: None,
            application_credentials: None,
            account_credentials: None,
        }
    }
}

impl ClientBuilder {
    /// The builder with nothing set.
    pub open spec fn unset() -> ClientBuilder {
        ClientBuilder {
            url: None,
            server_keep_alive: None,
            client_keep_alive: None,
            max_packet_len: None,
            io_timeout: None,
            connect_timeout: None,
            connection_mode: ConnectionMode::Tls,
            automatic_connect: None,
            connect_retry_delay: None,
            application_credentials: None,
            account_credentials: None,
        }
    }

    /// Builds a session with this configuration: see [`built`].
    pub fn build(&mut self) -> (r: Result<Session, Error>)
        ensures
            *final(self) == *old(self),
            session_result_view(r) == built(*old(self)),
    {
        let url = match &self.url {
            Some(u) => u.duplicate(),
            None => {
                return Err(Error::String("You must set a url for the client".to_string()));
            },
        };
        let opts = IoOptions {
            url,
            server_keep_alive: match self.server_keep_alive {
                Some(v) => v,
                None => DEFAULT_SERVER_KEEP_ALIVE_MS,
            },
            client_keep_alive: match self.client_keep_alive {
                Some(v) => v,
                None => DEFAULT_CLIENT_KEEP_ALIVE_MS,
            },
            max_packet_len: match self.max_packet_len {
                Some(v) => v,
                None => DEFAULT_MAX_PACKET_LEN,
            },
            io_timeout: match self.io_timeout {
                Some(v) => v,
                None => DEFAULT_IO_TIMEOUT_MS,
            },
            connect_timeout: match self.connect_timeout {
                Some(v) => v,
                None => DEFAULT_CONNECT_TIMEOUT_MS,
            },
            connection_mode: self.connection_mode,
            automatic_connect: match self.automatic_connect {
                Some(v) => v,
                None => true,
            },
            connect_retry_delay: match self.connect_retry_delay {
                Some(v) => v,
                None => DEFAULT_CONNECT_RETRY_DELAY_MS,
            },
        };
        let app = match &self.application_credentials {
            Some(a) => a.duplicate(),
            None => {
                return Err(
                    Error::String(
                        "You must set a application credentials for the client".to_string(),
                    ),
                );
            },
        };
        let account = match &self.account_credentials {
            Some(a) => a.duplicate(),
            None => {
                return Err(
                    Error::String("You must set a account credential for the client".to_string()),
                );
            },
        };
        Ok(Session::new(app, account, opts))
    }

    /// Sets the URL from its text. A text that is no URL is refused with
    /// the parser's message, and the builder stays as it was.
    pub fn set_url_string(&mut self, url: &str) -> (r: Result<&mut Self, Error>)
        ensures
            match r {
                Ok(b) => {
                    &&& b.url.is_some()
                    &&& parsed_url(url@) == Ok::<UrlView, Seq<char>>(b.url.unwrap()@)
                    &&& *b == (ClientBuilder {
                        url: b.url,
                        connection_mode: ConnectionMode::Tls,
                        ..*old(self)
                    })
                    &&& *final(self) == *final(b)
                },
                Err(e) => {
                    &&& e matches Error::String(msg)
                    &&& parsed_url(url@) == Err::<UrlView, Seq<char>>(msg@)
                    &&& *final(self) == *old(self)
                },
            },
    {
        match parse_url(url) {
            Ok(u) => self.set_url(u),
            Err(msg) => Err(Error::String(msg)),
        }
    }

    /// Sets the URL. Only TLS is spoken, whatever scheme the URL names.
    pub fn set_url(&mut self, url: ServerUrl) -> (r: Result<&mut Self, Error>)
        ensures
            match r {
                Ok(b) => {
                    &&& *b == (ClientBuilder {
                        url: Some(url),
                        connection_mode: ConnectionMode::Tls,
                        ..*old(self)
                    })
                    &&& *final(self) == *final(b)
                },
                Err(_) => false,
            },
    {
        self.connection_mode = ConnectionMode::Tls;
        self.url = Some(url);
        Ok(self)
    }

    /// Whether a URL names the scheme that the client speaks.
    pub fn is_tls_scheme(url: &ServerUrl) -> (r: bool)
        ensures
            r == (url.scheme@ == "tls"@),
    {
        let tls = "tls".to_string();
        url.scheme == tls
    }

    /// Sets the application credentials.
    pub fn set_application_credentials(&mut self, app_cert: ApplicationCredentials) -> (r: &mut Self)
        ensures
            *r == (ClientBuilder {
                application_credentials: Some(app_cert),
                ..*old(self)
            }),
            *final(self) == *final(r),
    {
        self.application_credentials = Some(app_cert);
        self
    }

    /// Sets the account credentials.
    pub fn set_account_credentials(&mut self, account_cert: AccountCredentials) -> (r: &mut Self)
        ensures
            *r == (ClientBuilder { account_credentials: Some(account_cert), ..*old(self) }),
            *final(self) == *final(r),
    {
        self.account_credentials = Some(account_cert);
        self
    }

    /// Sets the period of the watchdog on the server's heartbeat. The default is 30 s.
    pub fn set_server_keep_alive(&mut self, keep_alive: u64) -> (r: &mut Self)
        ensures
            *r == (ClientBuilder { server_keep_alive: Some(keep_alive), ..*old(self) }),
            *final(self) == *final(r),
    {
        self.server_keep_alive = Some(keep_alive);
        self
    }

    /// Sets the period of the client's heartbeat. The default is 10 s.
    pub fn set_client_keep_alive(&mut self, keep_alive: u64) -> (r: &mut Self)
        ensures
            *r == (ClientBuilder { client_keep_alive: Some(keep_alive), ..*old(self) }),
            *final(self) == *final(r),
    {
        self.client_keep_alive = Some(keep_alive);
        self
    }

    /// Sets the maximum packet length. The default is 1024 * 1024 bytes.
    pub fn set_max_packet_len(&mut self, max_packet_len: usize) -> (r: &mut Self)
        ensures
            *r == (ClientBuilder { max_packet_len: Some(max_packet_len), ..*old(self) }),
            *final(self) == *final(r),
    {
        self.max_packet_len = Some(max_packet_len);
        self
    }

    /// Sets the deadline of a round trip. The default is 5 s.
    pub fn set_io_timeout(&mut self, io_timeout: u64) -> (r: &mut Self)
        ensures
            *r == (ClientBuilder { io_timeout: Some(io_timeout), ..*old(self) }),
            *final(self) == *final(r),
    {
        self.io_timeout = Some(io_timeout);
        self
    }

    /// Sets the deadline of a connect attempt. The default is 10 s.
    pub fn set_connect_timeout(&mut self, connect_timeout: u64) -> (r: &mut Self)
        ensures
            *r == (ClientBuilder { connect_timeout: Some(connect_timeout), ..*old(self) }),
            *final(self) == *final(r),
    {
        self.connect_timeout = Some(connect_timeout);
        self
    }

    /// Sets whether to connect again after a failure. The default is true.
    pub fn set_automatic_connect(&mut self, automatic_connect: bool) -> (r: &mut Self)
        ensures
            *r == (ClientBuilder {
                automatic_connect: Some(automatic_connect),
                ..*old(self)
            }),
            *final(self) == *final(r),
    {
        self.automatic_connect = Some(automatic_connect);
        self
    }

    /// Sets the pause between connect attempts. The default is 5 s.
    pub fn set_connect_retry_delay(&mut self, connect_retry_delay: u64) -> (r: &mut Self)
        ensures
            *r == (ClientBuilder {
                connect_retry_delay: Some(connect_retry_delay),
                ..*old(self)
            }),
            *final(self) == *final(r),
    {
        self.connect_retry_delay = Some(connect_retry_delay);
        self
    }
}

} // verus!
