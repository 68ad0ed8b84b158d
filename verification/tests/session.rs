use ctrader_openapi::builder::ClientBuilder;
use ctrader_openapi::client::event::{classify, NotifyEvent};
use ctrader_openapi::client::marketdata::Subscriptions;
use ctrader_openapi::client::request::ApiRequest;
use ctrader_openapi::client::{AuthStep, ConnectReply, ConnectStep, Session, SessionPhase};
use ctrader_openapi::credentials::{AccountCredentials, ApplicationCredentials, RefreshedTokens};
use ctrader_openapi::error::Error;
use ctrader_openapi::io_task::IoTask;
use ctrader_openapi::message::ProtoMessage;
use ctrader_openapi::options::{ConnectionMode, IoOptions, ServerUrl};
use ctrader_openapi::types::ConnectionState;
use ctrader_openapi::util::symbol_info::{SpotwareSymbolInfo, SymbolEntity};

fn application() -> ApplicationCredentials {
    ApplicationCredentials { client_id: "X".to_string(), client_secret: "Y".to_string() }
}

fn account() -> AccountCredentials {
    AccountCredentials {
        account_id: 24419665,
        access_token: "access-1".to_string(),
        token_type: "bearer".to_string(),
        expires_in: 2628000,
        refresh_token: "refresh-1".to_string(),
    }
}

fn builder() -> ClientBuilder {
    let mut b = Session::builder();
    b.set_url_string("tls://demo.ctraderapi.com:5035").unwrap();
    b.set_application_credentials(application()).set_account_credentials(account());
    b
}

fn session() -> Session {
    builder().build().unwrap()
}

fn symbol(name: &str, id: i64) -> SpotwareSymbolInfo {
    SpotwareSymbolInfo {
        name: name.to_string(),
        asset_class: "Forex".to_string(),
        info: SymbolEntity { symbol_id: id, encoded: vec![8, id as u8] },
        base_decimals: 2,
        quote_decimals: 2,
    }
}

fn ready() -> Session {
    let mut s = session();
    assert!(matches!(s.connect(ConnectReply::Start), ConnectStep::OpenTransport));
    let _task: IoTask<u8> = s.open_transport(0).unwrap();
    s.connect(ConnectReply::Transport(Ok(())));
    s.connect(ConnectReply::Version(Ok("88".to_string())));
    s.connect(ConnectReply::Application(Ok(())));
    s.connect(ConnectReply::Account(Ok(())));
    assert!(matches!(s.connect(ConnectReply::Symbols(Ok(vec![symbol("EURUSD", 1)]))), ConnectStep::Done));
    assert_eq!(s.phase(), SessionPhase::Ready);
    s
}

fn step(s: ConnectStep) -> String {
    format!("{:?}", s)
}

#[test]
fn builder_defaults() {
    let s = session();
    let expected = IoOptions {
        url: ServerUrl { scheme: "tls".to_string(), host: Some("demo.ctraderapi.com".to_string()), port: Some(5035) },
        connection_mode: ConnectionMode::Tls,
        server_keep_alive: 30_000,
        client_keep_alive: 10_000,
        max_packet_len: 1024 * 1024,
        io_timeout: 5_000,
        connect_timeout: 10_000,
        automatic_connect: true,
        connect_retry_delay: 5_000,
    };
    assert_eq!(s.connection().options(), &expected);
    assert_eq!(s.application, application());
    assert_eq!(s.account, account());
    assert_eq!(s.application(), &application());
    assert_eq!(s.account(), &account());
    assert!(s.store().get_ids().is_empty());
    assert_eq!(s.server_version(), 0);
    assert_eq!(s.phase(), SessionPhase::Configured);
    assert!(s.store.get_ids().is_empty());
}

#[test]
fn builder_takes_every_option() {
    let mut b = builder();
    b.set_server_keep_alive(5_000)
        .set_client_keep_alive(3_000)
        .set_max_packet_len(4096)
        .set_io_timeout(500)
        .set_connect_timeout(1_000)
        .set_automatic_connect(false)
        .set_connect_retry_delay(250);
    let s = b.build().unwrap();
    let o = s.connection().options();
    assert_eq!(
        (o.server_keep_alive, o.client_keep_alive, o.max_packet_len, o.io_timeout, o.connect_timeout, o.automatic_connect, o.connect_retry_delay),
        (5_000, 3_000, 4096, 500, 1_000, false, 250)
    );
}

#[test]
fn builder_requires_url_and_credentials() {
    let mut b = ClientBuilder::default();
    assert_eq!(b.build().err(), Some(Error::String("You must set a url for the client".to_string())));
    b.set_url_string("tls://demo.ctraderapi.com:5035").unwrap();
    assert_eq!(b.build().err(), Some(Error::String("You must set a application credentials for the client".to_string())));
    b.set_application_credentials(application());
    assert_eq!(b.build().err(), Some(Error::String("You must set a account credential for the client".to_string())));
    b.set_account_credentials(account());
    assert!(b.build().is_ok());
}

#[test]
fn builder_parses_urls() {
    let mut b = ClientBuilder::default();
    b.set_url_string("tls://live.ctraderapi.com").unwrap();
    assert_eq!(b.url, Some(ServerUrl { scheme: "tls".to_string(), host: Some("live.ctraderapi.com".to_string()), port: None }));
    assert!(ClientBuilder::is_tls_scheme(b.url.as_ref().unwrap()));
    b.set_url_string("tcp://10.0.0.1:99").unwrap();
    assert_eq!(b.url, Some(ServerUrl { scheme: "tcp".to_string(), host: Some("10.0.0.1".to_string()), port: Some(99) }));
    assert!(!ClientBuilder::is_tls_scheme(b.url.as_ref().unwrap()));
    assert_eq!(b.connection_mode, ConnectionMode::Tls);
    match b.set_url_string("not a url") {
        Err(Error::String(msg)) => assert_eq!(msg, "relative URL without a base"),
        other => panic!("unexpected {:?}", other.map(|_| ())),
    }
    assert_eq!(b.url.as_ref().unwrap().scheme, "tcp");
}

#[test]
fn connect_runs_the_authentication_sequence() {
    let mut s = session();
    assert_eq!(step(s.connect(ConnectReply::Start)), "OpenTransport");
    assert_eq!(s.phase(), SessionPhase::Authenticating(AuthStep::Transport));
    let _task: IoTask<u8> = s.open_transport(0).unwrap();
    assert_eq!(step(s.connect(ConnectReply::Transport(Ok(())))), "Send(Version)");
    assert_eq!(
        step(s.connect(ConnectReply::Version(Ok("91".to_string())))),
        step(ConnectStep::Send(ApiRequest::ApplicationAuth { client_id: "X".to_string(), client_secret: "Y".to_string() }))
    );
    assert_eq!(s.server_version(), 91);
    assert_eq!(
        step(s.connect(ConnectReply::Application(Ok(())))),
        step(ConnectStep::Send(ApiRequest::AccountAuth { account_id: 24419665, access_token: "access-1".to_string() }))
    );
    assert_eq!(step(s.connect(ConnectReply::Account(Ok(())))), "LoadSymbols");
    assert_eq!(s.phase(), SessionPhase::Authenticating(AuthStep::Symbols));
    assert_eq!(step(s.connect(ConnectReply::Symbols(Ok(vec![symbol("EURUSD", 1), symbol("GBPUSD", 2)])))), "Done");
    assert_eq!(s.phase(), SessionPhase::Ready);
    assert_eq!(s.store.get_id_by_name("GBPUSD"), Some(2));
}

#[test]
fn connect_failure_terminates() {
    let mut s = session();
    s.connect(ConnectReply::Start);
    assert_eq!(step(s.connect(ConnectReply::Transport(Err(Error::Disconnected)))), "Failed(Disconnected)");
    assert_eq!(s.phase(), SessionPhase::Terminated);
    assert_eq!(
        step(s.connect(ConnectReply::Start)),
        step(ConnectStep::Failed(Error::String("Unexpected reply for the state of the session".to_string())))
    );
}

#[test]
fn old_server_is_refused_and_transport_left_alone() {
    let mut s = session();
    s.connect(ConnectReply::Start);
    let _task: IoTask<u8> = s.open_transport(0).unwrap();
    s.connect(ConnectReply::Transport(Ok(())));
    assert_eq!(step(s.connect(ConnectReply::Version(Ok("87".to_string())))), "Failed(SpotwareVersionError(88, 87))");
    assert_eq!(s.phase(), SessionPhase::Terminated);
    // the connection still has its task
    assert!(s.connection().post_message::<u8>(ProtoMessage::heartbeat()).is_ok());
}

#[test]
fn version_text_is_checked() {
    assert_eq!(Session::get_server_version("88".to_string()), Ok(88));
    assert_eq!(Session::get_server_version("+90".to_string()), Ok(90));
    assert_eq!(Session::get_server_version("0088".to_string()), Ok(88));
    assert_eq!(Session::get_server_version("4294967295".to_string()), Ok(u32::MAX));
    assert_eq!(Session::get_server_version("87".to_string()), Err(Error::SpotwareVersionError(88, 87)));
    assert_eq!(Session::get_server_version("0".to_string()), Err(Error::SpotwareVersionError(88, 0)));
    for bad in ["", "+", "8.8", " 88", "88 ", "-88", "v88", "4294967296", "８８"] {
        assert_eq!(Session::get_server_version(bad.to_string()), Err(Error::ParseVersionError(bad.to_string())));
    }
}

#[test]
fn out_of_turn_reply_changes_nothing() {
    let mut s = session();
    s.connect(ConnectReply::Start);
    let r = s.connect(ConnectReply::Account(Ok(())));
    assert_eq!(step(r), step(ConnectStep::Failed(Error::String("Unexpected reply for the state of the session".to_string()))));
    assert_eq!(s.phase(), SessionPhase::Authenticating(AuthStep::Transport));
}

#[test]
fn auth_requests() {
    let s = session();
    assert_eq!(s.auth_application(), ApiRequest::ApplicationAuth { client_id: "X".to_string(), client_secret: "Y".to_string() });
    assert_eq!(s.auth_account(), ApiRequest::AccountAuth { account_id: 24419665, access_token: "access-1".to_string() });
    assert_eq!(s.account_logout_req(), ApiRequest::AccountLogout { account_id: 24419665 });
    assert_eq!(s.refresh_token_req("r"), ApiRequest::RefreshToken { refresh_token: "r".to_string() });
}

#[test]
fn token_invalidation_refreshes_and_reauthorizes() {
    let mut s = ready();
    let event = ProtoMessage { payload_type: 2147, payload: Some(vec![]), client_msg_id: None };
    let (notify, refresh) = s.dispatch_event(event.clone());
    assert_eq!(notify, NotifyEvent::AccountsTokenInvalidatedEvent(event));
    assert_eq!(refresh, Some(ApiRequest::RefreshToken { refresh_token: "refresh-1".to_string() }));
    let next = s.refresh_token_and_reauth(Ok(RefreshedTokens {
        access_token: "access-2".to_string(),
        token_type: "bearer2".to_string(),
        expires_in: 99,
        refresh_token: "refresh-2".to_string(),
    }));
    assert_eq!(next, Ok(ApiRequest::AccountAuth { account_id: 24419665, access_token: "access-2".to_string() }));
    assert_eq!(
        s.account,
        AccountCredentials {
            account_id: 24419665,
            access_token: "access-2".to_string(),
            token_type: "bearer2".to_string(),
            expires_in: 99,
            refresh_token: "refresh-2".to_string(),
        }
    );
    assert_eq!(s.phase(), SessionPhase::Ready);
}

#[test]
fn failed_refresh_is_surfaced_and_keeps_the_tokens() {
    let mut s = ready();
    assert_eq!(s.refresh_token_and_reauth(Err(Error::TimeoutError(5000))), Err(Error::TimeoutError(5000)));
    assert_eq!(s.account, account());
}

#[test]
fn events_are_classified_by_payload_type() {
    let m = |t: u32| ProtoMessage { payload_type: t, payload: Some(vec![9]), client_msg_id: None };
    assert_eq!(classify(m(2107)), NotifyEvent::TrailingSlChangedEvent(m(2107)));
    assert_eq!(classify(m(2120)), NotifyEvent::SymbolChangedEvent(m(2120)));
    assert_eq!(classify(m(2123)), NotifyEvent::AccoutDataUpdateEvent(m(2123)));
    assert_eq!(classify(m(2126)), NotifyEvent::ExecutionEvent(m(2126)));
    assert_eq!(classify(m(2131)), NotifyEvent::SpotEvent(m(2131)));
    assert_eq!(classify(m(2132)), NotifyEvent::OrderErrorEvent(m(2132)));
    assert_eq!(classify(m(2141)), NotifyEvent::MarginChangedEvent(m(2141)));
    assert_eq!(classify(m(2147)), NotifyEvent::AccountsTokenInvalidatedEvent(m(2147)));
    assert_eq!(classify(m(2155)), NotifyEvent::DepthEvent(m(2155)));
    assert_eq!(classify(m(2171)), NotifyEvent::MarginCallUpdateEvent(m(2171)));
    assert_eq!(classify(m(2172)), NotifyEvent::MarginCallTriggerEvent(m(2172)));
    for t in [0u32, 50, 51, 2142, 2148, 2164, 9999] {
        assert_eq!(classify(m(t)), NotifyEvent::Ignored);
    }
}

#[test]
fn ordinary_event_asks_for_no_refresh() {
    let mut s = ready();
    let m = ProtoMessage { payload_type: 2131, payload: Some(vec![]), client_msg_id: None };
    assert_eq!(s.dispatch_event(m.clone()), (NotifyEvent::SpotEvent(m), None));
}

#[test]
fn subscriptions_change_only_on_acknowledgment() {
    let mut s = ready();
    let req = s.subscribe_spot(vec![3, 1, 2]);
    assert_eq!(req, ApiRequest::SubscribeSpots { account_id: 24419665, symbol_ids: vec![3, 1, 2], with_timestamp: true });
    assert_eq!(s.subscription_answered(&req, Err(Error::TimeoutError(5000))), Err(Error::TimeoutError(5000)));
    assert!(s.subscriptions().spots().is_empty());
    assert_eq!(s.subscription_answered(&req, Ok(())), Ok(()));
    assert_eq!(s.subscriptions().spots(), vec![3, 1, 2]);
}

#[test]
fn subscription_lists_are_ordered_sets() {
    let mut s = ready();
    let sub = |s: &mut Session, r: ApiRequest| s.subscription_answered(&r, Ok(())).unwrap();
    let r = s.subscribe_spot(vec![3, 1, 3, 2]);
    sub(&mut s, r);
    let r = s.subscribe_spot(vec![1, 4]);
    sub(&mut s, r);
    assert_eq!(s.subscriptions().spots(), vec![3, 1, 2, 4]);
    let r = s.unsubscribe_spot(vec![1, 9]);
    sub(&mut s, r);
    assert_eq!(s.subscriptions().spots(), vec![3, 2, 4]);
    let r = s.subscribe_depth_quotes(vec![7, 7, 8]);
    sub(&mut s, r);
    let r = s.unsubscribe_depth_quotes(vec![7]);
    sub(&mut s, r);
    assert_eq!(s.subscriptions().depths(), vec![8]);
    let r = s.subscribe_live_bar(1, 3);
    sub(&mut s, r);
    let r = s.subscribe_live_bar(5, 3);
    sub(&mut s, r);
    let r = s.subscribe_live_bar(1, 3);
    sub(&mut s, r);
    let r = s.subscribe_live_bar(1, 2);
    sub(&mut s, r);
    let r = s.unsubscribe_live_bar(5, 3);
    sub(&mut s, r);
    let r = s.unsubscribe_live_bar(9, 9);
    sub(&mut s, r);
    assert_eq!(s.subscriptions().bars(), vec![(1, 3), (1, 2)]);
    // a request that is no subscription changes nothing
    let r = s.auth_account();
    sub(&mut s, r);
    assert_eq!(s.subscriptions().spots(), vec![3, 2, 4]);
}

#[test]
fn reconnect_replays_in_insertion_order() {
    let mut s = ready();
    for r in [s.subscribe_spot(vec![5, 1, 9]), s.subscribe_depth_quotes(vec![2, 1]), s.subscribe_live_bar(3, 5), s.subscribe_live_bar(1, 9)] {
        s.subscription_answered(&r, Ok(())).unwrap();
    }
    assert!(s.on_control(ConnectionState::Disconnect).is_empty());
    assert_eq!(s.phase(), SessionPhase::Reconnecting);
    let requests = s.on_control(ConnectionState::Connected);
    assert_eq!(
        requests,
        vec![
            ApiRequest::ApplicationAuth { client_id: "X".to_string(), client_secret: "Y".to_string() },
            ApiRequest::AccountAuth { account_id: 24419665, access_token: "access-1".to_string() },
            ApiRequest::SubscribeSpots { account_id: 24419665, symbol_ids: vec![5, 1, 9], with_timestamp: true },
            ApiRequest::SubscribeDepthQuotes { account_id: 24419665, symbol_ids: vec![2, 1] },
            ApiRequest::SubscribeLiveTrendbar { account_id: 24419665, period: 3, symbol_id: 5 },
            ApiRequest::SubscribeLiveTrendbar { account_id: 24419665, period: 1, symbol_id: 9 },
        ]
    );
    assert_eq!(s.phase(), SessionPhase::Ready);
    // the acknowledgments of the replay leave the lists as they are
    for r in &requests {
        s.subscription_answered(r, Ok(())).unwrap();
    }
    assert_eq!(s.subscriptions().spots(), vec![5, 1, 9]);
    assert_eq!(s.subscriptions().depths(), vec![2, 1]);
    assert_eq!(s.subscriptions().bars(), vec![(3, 5), (1, 9)]);
    assert_eq!(s.resume_subscribe(), requests[2..].to_vec());
}

#[test]
fn replay_of_nothing_is_empty() {
    let s = ready();
    assert!(s.resume_subscribe().is_empty());
    assert!(Subscriptions::new().resume_subscribe(1).is_empty());
}

#[test]
fn control_events_out_of_turn_are_ignored() {
    let mut s = ready();
    assert!(s.on_control(ConnectionState::Connected).is_empty());
    assert_eq!(s.phase(), SessionPhase::Ready);
    let mut s = session();
    assert!(s.on_control(ConnectionState::Disconnect).is_empty());
    assert_eq!(s.phase(), SessionPhase::Configured);
}

#[test]
fn shutdown_after_logout() {
    let mut s = ready();
    assert_eq!(s.shutdown(Ok(())), Ok(()));
    assert_eq!(s.phase(), SessionPhase::Terminated);
    assert_eq!(s.connection().send_request(ProtoMessage::heartbeat(), 1u8).err(), Some(Error::Disconnected));
    assert_eq!(s.shutdown(Ok(())), Err(Error::Disconnected));
}

#[test]
fn shutdown_after_failed_logout_still_ends_the_session() {
    let mut s = ready();
    assert!(s.connection().send_request(ProtoMessage::heartbeat(), 1u8).is_ok());
    assert_eq!(s.shutdown(Err(Error::TimeoutError(5000))), Err(Error::TimeoutError(5000)));
    assert_eq!(s.phase(), SessionPhase::Terminated);
    assert_eq!(s.connection().send_request(ProtoMessage::heartbeat(), 1u8).err(), Some(Error::Disconnected));
    assert_eq!(s.connection().post_message::<u8>(ProtoMessage::heartbeat()).err(), Some(Error::Disconnected));
    // without task the error of the logout still comes back
    assert_eq!(s.shutdown(Err(Error::Disconnected)), Err(Error::Disconnected));
    assert_eq!(s.shutdown(Err(Error::TimeoutError(1))), Err(Error::TimeoutError(1)));
}
