//! The session: authentication, token refresh and subscriptions on top of
//! a connection.
//!
//! The session decides and its driver talks to the server: a call returns
//! the request to send, and the answer comes back with the next call.

pub mod event;
pub mod historical;
pub mod marketdata;
pub mod request;

use crate::client::event::{classify, dispatched, NotifyEvent, NotifyView, ACCOUNTS_TOKEN_INVALIDATED_EVENT};
use crate::client::marketdata::{
    replay, with_entries, with_entry, without_entries, without_entry, Subscriptions,
    SubscriptionsView,
};
use crate::client::request::{request_views, ApiRequest, ApiRequestView};
use crate::connection::{Connection, ConnectionView};
use crate::credentials::{
    AccountCredentials, AccountView, ApplicationCredentials, ApplicationView, RefreshedTokens,
};
use crate::error::{Error, ErrorView};
use crate::message::ProtoMessage;
use crate::options::IoOptions;
use crate::types::ConnectionState;
use crate::util::symbol_info::SpotwareSymbolInfo;
use crate::util::symbol_store::{empty_store, info_views, with_infos, SymbolStore, SymbolStoreView};
use vstd::prelude::*;

verus! {

/// The version of the server that the library is written for; an older
/// server is refused.
pub const LIBRARY_IMPL_FOR_SERVER_VERSION: u32 = 88;

/// Value of a run of decimal digits.
pub open spec fn digits_value(s: Seq<char>) -> nat
    decreases s.len(),
{
    if s.len() == 0 {
        0
    } else {
        digits_value(s.drop_last()) * 10 + ((s.last() as u32) - ('0' as u32)) as nat
    }
}

/// Whether every character is a decimal digit.
pub open spec fn all_digits(s: Seq<char>) -> bool {
    forall|i: int| 0 <= i < s.len() ==> '0' <= #[trigger] s[i] <= '9'
}

/// The number that a text denotes in decimal: an optional plus sign, then
/// at least one digit and digits only, with a value of at most `u32::MAX`.
pub open spec fn parsed_u32(text: Seq<char>) -> Option<u32> {
    let digits = if text.len() > 0 && text[0] == '+' {
        text.drop_first()
    } else {
        text
    };
    if digits.len() > 0 && all_digits(digits) && digits_value(digits) <= u32::MAX {
        Some(digits_value(digits) as u32)
    } else {
        None
    }
}

/// Reads a decimal number.
///
/// Trusted: calls `str::parse::<u32>`, which accepts an optional plus sign
/// followed by decimal digits only and fails on an empty text, on any other
/// character and on overflow.
#[verifier::external_body]
fn parse_u32(text: &str) -> (r: Option<u32>)
    ensures
        r == parsed_u32(text@),
{
    text.parse::<u32>().ok()
}

/// The version that a server reports, checked: the text must be a number,
/// and the number at least the library's baseline.
pub open spec fn checked_version(text: Seq<char>) -> Result<u32, ErrorView> {
    match parsed_u32(text) {
        None => Err(ErrorView::ParseVersionError(text)),
        Some(v) => if v < LIBRARY_IMPL_FOR_SERVER_VERSION {
            Err(ErrorView::SpotwareVersionError(LIBRARY_IMPL_FOR_SERVER_VERSION, v))
        } else {
            Ok(v)
        },
    }
}

/// Where in its life a session is.
#[derive(Debug, Clone, Copy, PartialEq, Eq, Structural)]
pub enum SessionPhase {
    /// Built, not yet connected.
    Configured,
    /// Connecting: waiting for the answer of this step.
    Authenticating(AuthStep),
    /// Authenticated on a live transport.
    Ready,
    /// The transport dropped; the I/O task is reconnecting.
    Reconnecting,
    /// Shut down, or failed while connecting.
    Terminated,
}

/// The steps of `connect`, in their order.
#[derive(Debug, Clone, Copy, PartialEq, Eq, Structural)]
pub enum AuthStep {
    Transport,
    Version,
    Application,
    Account,
    Symbols,
}

/// The answer to the step of `connect` that was asked for last.
#[derive(Debug)]
pub enum ConnectReply {
    /// `connect` was called.
    Start,
    /// The transport came up, or did not.
    Transport(Result<(), Error>),
    /// The server's version, as text.
    Version(Result<String, Error>),
    /// The application was authorized, or was not.
    Application(Result<(), Error>),
    /// The account was authorized, or was not.
    Account(Result<(), Error>),
    /// The symbols of the account.
    Symbols(Result<Vec<SpotwareSymbolInfo>, Error>),
}

/// What `connect` asks for next.
#[derive(Debug)]
pub enum ConnectStep {
    /// Spawn the I/O task and wait for its first connect.
    OpenTransport,
    /// Send this request and come back with the answer.
    Send(ApiRequest),
    /// Load the symbols of the account and come back with them.
    LoadSymbols,
    /// The session is ready.
    Done,
    /// `connect` failed.
    Failed(Error),
}

/// Mathematical value of a [`ConnectStep`].
pub enum ConnectStepView {
    OpenTransport,
    Send(ApiRequestView),
    LoadSymbols,
    Done,
    Failed(ErrorView),
}

impl View for ConnectStep {
    type V = ConnectStepView;

    open spec fn view(&self) -> ConnectStepView {
        match *self {
            ConnectStep::OpenTransport => ConnectStepView::OpenTransport,
            ConnectStep::Send(r) => ConnectStepView::Send(r@),
            ConnectStep::LoadSymbols => ConnectStepView::LoadSymbols,
            ConnectStep::Done => ConnectStepView::Done,
            ConnectStep::Failed(e) => ConnectStepView::Failed(e@),
        }
    }
}

/// What the answer of a step says, with its texts and symbols as values.
pub enum ReplyView {
    Start,
    Transport(Result<(), ErrorView>),
    Version(Result<Seq<char>, ErrorView>),
    Application(Result<(), ErrorView>),
    Account(Result<(), ErrorView>),
    Symbols(Result<Seq<crate::util::symbol_info::SymbolInfoView>, ErrorView>),
}

impl View for ConnectReply {
    type V = ReplyView;

    open spec fn view(&self) -> ReplyView {
        match *self {
            ConnectReply::Start => ReplyView::Start,
            ConnectReply::Transport(r) => ReplyView::Transport(
                match r {
                    Ok(()) => Ok(()),
                    Err(e) => Err(e@),
                },
            ),
            ConnectReply::Version(r) => ReplyView::Version(
                match r {
                    Ok(text) => Ok(text@),
                    Err(e) => Err(e@),
                },
            ),
            ConnectReply::Application(r) => ReplyView::Application(
                match r {
                    Ok(()) => Ok(()),
                    Err(e) => Err(e@),
                },
            ),
            ConnectReply::Account(r) => ReplyView::Account(
                match r {
                    Ok(()) => Ok(()),
                    Err(e) => Err(e@),
                },
            ),
            ConnectReply::Symbols(r) => ReplyView::Symbols(
                match r {
                    Ok(infos) => Ok(info_views(infos@)),
                    Err(e) => Err(e@),
                },
            ),
        }
    }
}

/// Mathematical value of a [`Session`].
pub struct SessionView {
    pub application: ApplicationView,
    pub account: AccountView,
    pub version: u32,
    pub connection: ConnectionView,
    pub subscriptions: SubscriptionsView,
    pub store: SymbolStoreView,
    pub phase: SessionPhase,
}

/// Text of the error of an answer that the session did not wait for.
pub open spec fn unexpected_reply_text() -> Seq<char> {
    "Unexpected reply for the state of the session"@
}

/// The request that authorizes the application.
pub open spec fn application_auth(v: SessionView) -> ApiRequestView {
    ApiRequestView::ApplicationAuth {
        client_id: v.application.client_id,
        client_secret: v.application.client_secret,
    }
}

/// The request that authorizes the account with its current access token.
pub open spec fn account_auth(v: SessionView) -> ApiRequestView {
    ApiRequestView::AccountAuth {
        account_id: v.account.account_id,
        access_token: v.account.access_token,
    }
}

/// A session that failed while connecting.
pub open spec fn failed(v: SessionView, e: ErrorView) -> (SessionView, ConnectStepView) {
    (SessionView { phase: SessionPhase::Terminated, ..v }, ConnectStepView::Failed(e))
}

/// One step of `connect`: establish the transport, ask for the server's
/// version and check it, authorize the application, authorize the account,
/// load the symbols. A failed step ends the session; the transport is left
/// as it is. An answer that does not belong to the step that is open is
/// refused and changes nothing.
pub open spec fn spec_connect(v: SessionView, reply: ReplyView) -> (SessionView, ConnectStepView) {
    match (v.phase, reply) {
        (SessionPhase::Configured, ReplyView::Start) => (
            SessionView { phase: SessionPhase::Authenticating(AuthStep::Transport), ..v },
            ConnectStepView::OpenTransport,
        ),
        (SessionPhase::Authenticating(AuthStep::Transport), ReplyView::Transport(r)) => match r {
            Ok(()) => (
                SessionView { phase: SessionPhase::Authenticating(AuthStep::Version), ..v },
                ConnectStepView::Send(ApiRequestView::Version),
            ),
            Err(e) => failed(v, e),
        },
        (SessionPhase::Authenticating(AuthStep::Version), ReplyView::Version(r)) => match r {
            Ok(text) => match checked_version(text) {
                Ok(version) => (
                    SessionView {
                        version,
                        phase: SessionPhase::Authenticating(AuthStep::Application),
                        ..v
                    },
                    ConnectStepView::Send(application_auth(v)),
                ),
                Err(e) => failed(v, e),
            },
            Err(e) => failed(v, e),
        },
        (
            SessionPhase::Authenticating(AuthStep::Application),
            ReplyView::Application(r),
        ) => match r {
            Ok(()) => (
                SessionView { phase: SessionPhase::Authenticating(AuthStep::Account), ..v },
                ConnectStepView::Send(account_auth(v)),
            ),
            Err(e) => failed(v, e),
        },
        (SessionPhase::Authenticating(AuthStep::Account), ReplyView::Account(r)) => match r {
            Ok(()) => (
                SessionView { phase: SessionPhase::Authenticating(AuthStep::Symbols), ..v },
                ConnectStepView::LoadSymbols,
            ),
            Err(e) => failed(v, e),
        },
        (SessionPhase::Authenticating(AuthStep::Symbols), ReplyView::Symbols(r)) => match r {
            Ok(infos) => (
                SessionView { store: with_infos(v.store, infos), phase: SessionPhase::Ready, ..v },
                ConnectStepView::Done,
            ),
            Err(e) => failed(v, e),
        },
        _ => (v, ConnectStepView::Failed(ErrorView::String(unexpected_reply_text()))),
    }
}

/// The session after a control event of the connection, and what it
/// sends: when the transport drops a ready session waits for the
/// reconnect; when the transport is back it authorizes application and
/// account again and replays its subscriptions.
pub open spec fn spec_on_control(v: SessionView, state: ConnectionState) -> (
    SessionView,
    Seq<ApiRequestView>,
) {
    match (v.phase, state) {
        (SessionPhase::Ready, ConnectionState::Disconnect) => (
            SessionView { phase: SessionPhase::Reconnecting, ..v },
            Seq::empty(),
        ),
        (SessionPhase::Reconnecting, ConnectionState::Connected) => (
            SessionView { phase: SessionPhase::Ready, ..v },
            seq![application_auth(v), account_auth(v)] + replay(
                v.account.account_id,
                v.subscriptions,
            ),
        ),
        _ => (v, Seq::empty()),
    }
}

/// The session after `shutdown`: terminated, its connection without task.
pub open spec fn spec_shutdown(v: SessionView) -> SessionView {
    SessionView {
        connection: crate::connection::after_shutdown(v.connection),
        phase: SessionPhase::Terminated,
        ..v
    }
}

/// What `shutdown` returns: the error of the logout where it failed; else
/// `Disconnected` where there was no I/O task to give up; else success.
pub open spec fn shutdown_result(v: SessionView, logout: Result<(), ErrorView>) -> Result<
    (),
    ErrorView,
> {
    match logout {
        Err(e) => Err(e),
        Ok(()) => if v.connection.has_task {
            Ok(())
        } else {
            Err(ErrorView::Disconnected)
        },
    }
}

/// The subscriptions after the server acknowledged `request`: a
/// subscription is recorded, an unsubscription is taken out, any other
/// request leaves them as they are.
pub open spec fn acknowledged(v: SubscriptionsView, request: ApiRequestView) -> SubscriptionsView {
    match request {
        ApiRequestView::SubscribeSpots { symbol_ids, .. } => SubscriptionsView {
            spots: with_entries(v.spots, symbol_ids),
            ..v
        },
        ApiRequestView::UnsubscribeSpots { symbol_ids, .. } => SubscriptionsView {
            spots: without_entries(v.spots, symbol_ids),
            ..v
        },
        ApiRequestView::SubscribeDepthQuotes { symbol_ids, .. } => SubscriptionsView {
            depths: with_entries(v.depths, symbol_ids),
            ..v
        },
        ApiRequestView::UnsubscribeDepthQuotes { symbol_ids, .. } => SubscriptionsView {
            depths: without_entries(v.depths, symbol_ids),
            ..v
        },
        ApiRequestView::SubscribeLiveTrendbar { period, symbol_id, .. } => SubscriptionsView {
            bars: with_entry(v.bars, (period, symbol_id)),
            ..v
        },
        ApiRequestView::UnsubscribeLiveTrendbar { period, symbol_id, .. } => SubscriptionsView {
            bars: without_entry(v.bars, (period, symbol_id)),
            ..v
        },
        _ => v,
    }
}

/// One authenticated association with the broker.
pub struct Session {
    pub application: ApplicationCredentials,
    pub account: AccountCredentials,
    pub version: u32,
    connection: Connection,
    subscriptions: Subscriptions,
    pub store: SymbolStore,
    phase: SessionPhase,
}

impl View for Session {
    type V = SessionView;

    closed spec fn view(&self) -> SessionView {
        SessionView {
            application: self.application@,
            account: self.account@,
            version: self.version,
            connection: self.connection@,
            subscriptions: self.subscriptions@,
            store: self.store@,
            phase: self.phase,
        }
    }
}

impl Session {
    /// A builder with nothing set.
    pub fn builder() -> (b: crate::builder::ClientBuilder)
        ensures
            b == crate::builder::ClientBuilder::unset(),
    {
        crate::builder::ClientBuilder::default()
    }

    /// A session that is configured and not yet connected.
    pub fn new(application: ApplicationCredentials, account: AccountCredentials, opts: IoOptions) -> (s:
        Self)
        ensures
            s@ == (SessionView {
                application: application@,
                account: account@,
                version: 0,
                connection: ConnectionView { options: opts, has_task: false },
                subscriptions: SubscriptionsView {
                    spots: Seq::empty(),
                    bars: Seq::empty(),
                    depths: Seq::empty(),
                },
                store: empty_store(),
                phase: SessionPhase::Configured,
            }),
    {
        Self {
            application,
            account,
            version: 0,
            connection: Connection::new(opts),
            subscriptions: Subscriptions::new(),
            store: SymbolStore::new(),
            phase: SessionPhase::Configured,
        }
    }

    /// The version that the server reported.
    pub fn server_version(&self) -> (v: u32)
        ensures
            v == self@.version,
    {
        self.version
    }

    /// The credentials of the application.
    pub fn application(&self) -> (a: &ApplicationCredentials)
        ensures
            a@ == self@.application,
    {
        &self.application
    }

    /// The credentials of the account, with its current tokens.
    pub fn account(&self) -> (a: &AccountCredentials)
        ensures
            a@ == self@.account,
    {
        &self.account
    }

    /// The symbols of the account.
    pub fn store(&self) -> (s: &SymbolStore)
        ensures
            s@ == self@.store,
    {
        &self.store
    }

    /// Where in its life the session is.
    pub fn phase(&self) -> (p: SessionPhase)
        ensures
            p == self@.phase,
    {
        self.phase
    }

    /// The connection of the session.
    pub fn connection(&self) -> (c: &Connection)
        ensures
            c@ == self@.connection,
    {
        &self.connection
    }

    /// The subscriptions of the session.
    pub fn subscriptions(&self) -> (s: &Subscriptions)
        ensures
            s@ == self@.subscriptions,
    {
        &self.subscriptions
    }

    /// Spawns the I/O task on the session's connection: see
    /// [`Connection::connect`].
    pub fn open_transport<S>(&mut self, now: u64) -> (r: Result<crate::io_task::IoTask<S>, Error>)
        ensures
            final(self)@ == (SessionView {
                connection: crate::connection::after_spawn(old(self)@.connection),
                ..old(self)@
            }),
            crate::connection::task_result_view(r) == crate::connection::spawned::<S>(
                old(self)@.connection,
                now,
            ),
    {
        self.connection.connect(now)
    }

    /// The server's version from its text: see [`checked_version`].
    pub fn get_server_version(text: String) -> (r: Result<u32, Error>)
        ensures
            match checked_version(text@) {
                Ok(v) => r == Ok::<u32, Error>(v),
                Err(e) => r.is_err() && r.unwrap_err()@ == e,
            },
    {
        match parse_u32(text.as_str()) {
            None => Err(Error::ParseVersionError(text)),
            Some(v) => {
                if v < LIBRARY_IMPL_FOR_SERVER_VERSION {
                    Err(Error::SpotwareVersionError(LIBRARY_IMPL_FOR_SERVER_VERSION, v))
                } else {
                    Ok(v)
                }
            },
        }
    }

    /// The request that authorizes the application.
    pub fn auth_application(&self) -> (r: ApiRequest)
        ensures
            r@ == application_auth(self@),
    {
        ApiRequest::ApplicationAuth {
            client_id: self.application.client_id.clone(),
            client_secret: self.application.client_secret.clone(),
        }
    }

    /// The request that authorizes the account with its current access token.
    pub fn auth_account(&self) -> (r: ApiRequest)
        ensures
            r@ == account_auth(self@),
    {
        ApiRequest::AccountAuth {
            account_id: self.account.account_id,
            access_token: self.account.access_token.clone(),
        }
    }

    /// The request that logs the account out.
    pub fn account_logout_req(&self) -> (r: ApiRequest)
        ensures
            r@ == (ApiRequestView::AccountLogout { account_id: self@.account.account_id }),
    {
        ApiRequest::AccountLogout { account_id: self.account.account_id }
    }

    /// The request that exchanges `refresh_token` for new tokens.
    pub fn refresh_token_req(&self, refresh_token: &str) -> (r: ApiRequest)
        ensures
            r@ == (ApiRequestView::RefreshToken { refresh_token: refresh_token@ }),
    {
        ApiRequest::RefreshToken { refresh_token: refresh_token.to_owned() }
    }

    /// Takes the answer to a token refresh. On success the four token
    /// fields of the account are replaced at once and the request that
    /// authorizes the account with the new access token comes back. On
    /// failure the error comes back and the account stays as it is.
    pub fn refresh_token_and_reauth(&mut self, reply: Result<RefreshedTokens, Error>) -> (r: Result<
        ApiRequest,
        Error,
    >)
        ensures
            match reply {
                Ok(tokens) => {
                    &&& final(self)@ == (SessionView {
                        account: AccountCredentials::refreshed(old(self)@.account, tokens),
                        ..old(self)@
                    })
                    &&& r.is_ok()
                    &&& r.unwrap()@ == account_auth(final(self)@)
                },
                Err(e) => final(self)@ == old(self)@ && r.is_err() && r.unwrap_err()@ == e@,
            },
    {
        match reply {
            Err(err) => Err(err),
            Ok(res) => {
                self.account.apply_refresh(res);
                Ok(self.auth_account())
            },
        }
    }

    /// One step of `connect`: see [`spec_connect`].
    pub fn connect(&mut self, reply: ConnectReply) -> (step: ConnectStep)
        ensures
            (final(self)@, step@) == spec_connect(old(self)@, reply@),
    {
        match (self.phase, reply) {
            (SessionPhase::Configured, ConnectReply::Start) => {
                self.phase = SessionPhase::Authenticating(AuthStep::Transport);
                ConnectStep::OpenTransport
            },
            (SessionPhase::Authenticating(AuthStep::Transport), ConnectReply::Transport(r)) => {
                match r {
                    Ok(()) => {
                        self.phase = SessionPhase::Authenticating(AuthStep::Version);
                        ConnectStep::Send(ApiRequest::Version)
                    },
                    Err(e) => self.fail(e),
                }
            },
            (SessionPhase::Authenticating(AuthStep::Version), ConnectReply::Version(r)) => {
                match r {
                    Ok(text) => match Self::get_server_version(text) {
                        Ok(version) => {
                            let request = self.auth_application();
                            self.version = version;
                            self.phase = SessionPhase::Authenticating(AuthStep::Application);
                            ConnectStep::Send(request)
                        },
                        Err(e) => self.fail(e),
                    },
                    Err(e) => self.fail(e),
                }
            },
            (
                SessionPhase::Authenticating(AuthStep::Application),
                ConnectReply::Application(r),
            ) => {
                match r {
                    Ok(()) => {
                        self.phase = SessionPhase::Authenticating(AuthStep::Account);
                        ConnectStep::Send(self.auth_account())
                    },
                    Err(e) => self.fail(e),
                }
            },
            (SessionPhase::Authenticating(AuthStep::Account), ConnectReply::Account(r)) => {
                match r {
                    Ok(()) => {
                        self.phase = SessionPhase::Authenticating(AuthStep::Symbols);
                        ConnectStep::LoadSymbols
                    },
                    Err(e) => self.fail(e),
                }
            },
            (SessionPhase::Authenticating(AuthStep::Symbols), ConnectReply::Symbols(r)) => {
                match r {
                    Ok(infos) => {
                        self.store.from_symbol_infos(&infos);
                        self.phase = SessionPhase::Ready;
                        ConnectStep::Done
                    },
                    Err(e) => self.fail(e),
                }
            },
            _ => ConnectStep::Failed(
                Error::String("Unexpected reply for the state of the session".to_string()),
            ),
        }
    }

    fn fail(&mut self, e: Error) -> (step: ConnectStep)
        ensures
            (final(self)@, step@) == failed(old(self)@, e@),
    {
        self.phase = SessionPhase::Terminated;
        ConnectStep::Failed(e)
    }

    /// Ends the session, with the answer to the logout request: whatever
    /// the answer, the I/O task is given up and the session is terminated.
    /// See [`spec_shutdown`].
    pub fn shutdown(&mut self, logout: Result<(), Error>) -> (r: Result<(), Error>)
        ensures
            final(self)@ == spec_shutdown(old(self)@),
            crate::connection::unit_result_view(r) == shutdown_result(
                old(self)@,
                crate::connection::unit_result_view(logout),
            ),
    {
        self.phase = SessionPhase::Terminated;
        let closed = self.connection.shutdown();
        match logout {
            Err(e) => Err(e),
            Ok(()) => closed,
        }
    }

    /// Takes a control event of the connection: see [`spec_on_control`].
    pub fn on_control(&mut self, state: ConnectionState) -> (requests: Vec<ApiRequest>)
        ensures
            (final(self)@, request_views(requests@)) == spec_on_control(old(self)@, state),
    {
        let mut requests: Vec<ApiRequest> = Vec::new();
        match (self.phase, state) {
            (SessionPhase::Ready, ConnectionState::Disconnect) => {
                self.phase = SessionPhase::Reconnecting;
                assert(request_views(requests@) =~= Seq::empty());
            },
            (SessionPhase::Reconnecting, ConnectionState::Connected) => {
                self.phase = SessionPhase::Ready;
                requests.push(self.auth_application());
                requests.push(self.auth_account());
                let ghost head = request_views(requests@);
                assert(head =~= seq![application_auth(old(self)@), account_auth(old(self)@)]);
                let mut rest = self.resume_subscribe();
                let ghost tail = request_views(rest@);
                let ghost a = requests@;
                let ghost b = rest@;
                requests.append(&mut rest);
                assert(requests@ == a + b);
                assert(request_views(requests@) =~= head + tail);
            },
            _ => {
                assert(request_views(requests@) =~= Seq::empty());
            },
        }
        requests
    }

    /// The requests that restore the subscriptions: see [`replay`].
    pub fn resume_subscribe(&self) -> (requests: Vec<ApiRequest>)
        ensures
            request_views(requests@) == replay(self@.account.account_id, self@.subscriptions),
    {
        self.subscriptions.resume_subscribe(self.account.account_id)
    }

    /// The request that subscribes to spot events of `symbol_ids`, with timestamps.
    pub fn subscribe_spot(&self, symbol_ids: Vec<i64>) -> (r: ApiRequest)
        ensures
            r@ == (ApiRequestView::SubscribeSpots {
                account_id: self@.account.account_id,
                symbol_ids: symbol_ids@,
                with_timestamp: true,
            }),
    {
        ApiRequest::SubscribeSpots {
            account_id: self.account.account_id,
            symbol_ids,
            with_timestamp: true,
        }
    }

    /// The request that unsubscribes from spot events of `symbol_ids`.
    pub fn unsubscribe_spot(&self, symbol_ids: Vec<i64>) -> (r: ApiRequest)
        ensures
            r@ == (ApiRequestView::UnsubscribeSpots {
                account_id: self@.account.account_id,
                symbol_ids: symbol_ids@,
            }),
    {
        ApiRequest::UnsubscribeSpots { account_id: self.account.account_id, symbol_ids }
    }

    /// The request that subscribes to live bars of one period and symbol.
    pub fn subscribe_live_bar(&self, period: i32, symbol_id: i64) -> (r: ApiRequest)
        ensures
            r@ == (ApiRequestView::SubscribeLiveTrendbar {
                account_id: self@.account.account_id,
                period,
                symbol_id,
            }),
    {
        ApiRequest::SubscribeLiveTrendbar { account_id: self.account.account_id, period, symbol_id }
    }

    /// The request that unsubscribes from live bars of one period and symbol.
    pub fn unsubscribe_live_bar(&self, period: i32, symbol_id: i64) -> (r: ApiRequest)
        ensures
            r@ == (ApiRequestView::UnsubscribeLiveTrendbar {
                account_id: self@.account.account_id,
                period,
                symbol_id,
            }),
    {
        ApiRequest::UnsubscribeLiveTrendbar {
            account_id: self.account.account_id,
            period,
            symbol_id,
        }
    }

    /// The request that subscribes to the depth of market of `symbol_ids`.
    pub fn subscribe_depth_quotes(&self, symbol_ids: Vec<i64>) -> (r: ApiRequest)
        ensures
            r@ == (ApiRequestView::SubscribeDepthQuotes {
                account_id: self@.account.account_id,
                symbol_ids: symbol_ids@,
            }),
    {
        ApiRequest::SubscribeDepthQuotes { account_id: self.account.account_id, symbol_ids }
    }

    /// The request that unsubscribes from the depth of market of `symbol_ids`.
    pub fn unsubscribe_depth_quotes(&self, symbol_ids: Vec<i64>) -> (r: ApiRequest)
        ensures
            r@ == (ApiRequestView::UnsubscribeDepthQuotes {
                account_id: self@.account.account_id,
                symbol_ids: symbol_ids@,
            }),
    {
        ApiRequest::UnsubscribeDepthQuotes { account_id: self.account.account_id, symbol_ids }
    }

    /// Takes the server's answer to a subscription request. Only an
    /// acknowledged request changes the subscriptions: see
    /// [`acknowledged`]. A failure comes back and changes nothing.
    pub fn subscription_answered(&mut self, request: &ApiRequest, answer: Result<(), Error>) -> (r:
        Result<(), Error>)
        ensures
            match answer {
                Ok(()) => r.is_ok() && final(self)@ == (SessionView {
                    subscriptions: acknowledged(old(self)@.subscriptions, request@),
                    ..old(self)@
                }),
                Err(e) => final(self)@ == old(self)@ && r.is_err() && r.unwrap_err()@ == e@,
            },
    {
        match answer {
            Err(e) => Err(e),
            Ok(()) => {
                match request {
                    ApiRequest::SubscribeSpots { symbol_ids, .. } => {
                        self.subscriptions.update_subscribe_spot(symbol_ids, true);
                    },
                    ApiRequest::UnsubscribeSpots { symbol_ids, .. } => {
                        self.subscriptions.update_subscribe_spot(symbol_ids, false);
                    },
                    ApiRequest::SubscribeDepthQuotes { symbol_ids, .. } => {
                        self.subscriptions.update_subscribe_depth(symbol_ids, true);
                    },
                    ApiRequest::UnsubscribeDepthQuotes { symbol_ids, .. } => {
                        self.subscriptions.update_subscribe_depth(symbol_ids, false);
                    },
                    ApiRequest::SubscribeLiveTrendbar { period, symbol_id, .. } => {
                        self.subscriptions.update_subscribe_bar(*period, *symbol_id, true);
                    },
                    ApiRequest::UnsubscribeLiveTrendbar { period, symbol_id, .. } => {
                        self.subscriptions.update_subscribe_bar(*period, *symbol_id, false);
                    },
                    _ => {},
                }
                Ok(())
            },
        }
    }

    /// Takes an unsolicited message: returns the event to rebroadcast and,
    /// where the message says that the account's token was invalidated,
    /// the request that refreshes the token.
    pub fn dispatch_event(&mut self, msg: ProtoMessage) -> (r: (NotifyEvent, Option<ApiRequest>))
        ensures
            final(self)@ == old(self)@,
            r.0@ == dispatched(msg@),
            msg@.payload_type == ACCOUNTS_TOKEN_INVALIDATED_EVENT ==> r.1.is_some() && r.1.unwrap()@
                == (ApiRequestView::RefreshToken { refresh_token: old(self)@.account.refresh_token }),
            msg@.payload_type != ACCOUNTS_TOKEN_INVALIDATED_EVENT ==> r.1.is_none(),
    {
        let refresh = if msg.payload_type == ACCOUNTS_TOKEN_INVALIDATED_EVENT {
            Some(self.refresh_token_req(self.account.refresh_token.as_str()))
        } else {
            None
        };
        (classify(msg), refresh)
    }
}

/// The authentication sequence: a configured session that is answered
/// with success at every step opens the transport, asks for the version,
/// authorizes the application, authorizes the account, loads the symbols
/// and is ready, in this order.
pub proof fn law_connect_sequence(
    v: SessionView,
    version_text: Seq<char>,
    infos: Seq<crate::util::symbol_info::SymbolInfoView>,
)
    requires
        v.phase == SessionPhase::Configured,
        checked_version(version_text) is Ok,
    ensures
        ({
            let s1 = spec_connect(v, ReplyView::Start);
            let s2 = spec_connect(s1.0, ReplyView::Transport(Ok(())));
            let s3 = spec_connect(s2.0, ReplyView::Version(Ok(version_text)));
            let s4 = spec_connect(s3.0, ReplyView::Application(Ok(())));
            let s5 = spec_connect(s4.0, ReplyView::Account(Ok(())));
            let s6 = spec_connect(s5.0, ReplyView::Symbols(Ok(infos)));
            &&& s1.1 == ConnectStepView::OpenTransport
            &&& s2.1 == ConnectStepView::Send(ApiRequestView::Version)
            &&& s3.1 == ConnectStepView::Send(application_auth(v))
            &&& s4.1 == ConnectStepView::Send(account_auth(v))
            &&& s5.1 == ConnectStepView::LoadSymbols
            &&& s6.1 == ConnectStepView::Done
            &&& s6.0 == (SessionView {
                version: checked_version(version_text)->Ok_0,
                store: with_infos(v.store, infos),
                phase: SessionPhase::Ready,
                ..v
            })
        }),
{
}

/// After `shutdown`, whether the logout succeeded or not, the session is
/// terminated and every request on its connection fails with
/// `Disconnected`.
pub proof fn law_shutdown_terminates<S>(
    v: SessionView,
    message: crate::message::MessageView,
    tx: Option<S>,
)
    ensures
        spec_shutdown(v).phase == SessionPhase::Terminated,
        crate::connection::submitted(spec_shutdown(v).connection, message, tx) == Err::<
            crate::types::RequestView<S>,
            ErrorView,
        >(ErrorView::Disconnected),
{
}

} // verus!
