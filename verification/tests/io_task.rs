use ctrader_openapi::codec::MsgCodec;
use ctrader_openapi::error::{Error, IoErrorKind};
use ctrader_openapi::io_task::{ConnectAttempt, FrameReader, IoAction, IoEvent, IoTask, Poll};
use ctrader_openapi::message::ProtoMessage;
use ctrader_openapi::options::{ConnectionMode, IoOptions, ServerUrl};
use ctrader_openapi::ratelimit::LaneQuota;
use ctrader_openapi::types::{ConnectionState, Lane, Request, Response};

fn options() -> IoOptions {
    IoOptions {
        url: ServerUrl { scheme: "tls".to_string(), host: Some("demo.example.com".to_string()), port: Some(5035) },
        connection_mode: ConnectionMode::Tls,
        server_keep_alive: 30_000,
        client_keep_alive: 10_000,
        max_packet_len: 1024 * 1024,
        io_timeout: 5_000,
        connect_timeout: 10_000,
        automatic_connect: true,
        connect_retry_delay: 5_000,
    }
}

fn frame(m: &ProtoMessage) -> Vec<u8> {
    let mut buf = Vec::new();
    MsgCodec::new().encode(m, &mut buf).unwrap();
    buf
}

fn unframe(bytes: &[u8]) -> ProtoMessage {
    let mut buf = bytes.to_vec();
    let m = MsgCodec::new().decode(&mut buf).unwrap().unwrap();
    assert!(buf.is_empty());
    m
}

fn connected(opts: IoOptions) -> IoTask<u32> {
    let mut task: IoTask<u32> = IoTask::new(opts, 0);
    let actions = task.run(IoEvent::Connect(ConnectAttempt::Established), 0);
    assert_eq!(actions.len(), 2);
    assert!(matches!(actions[0], IoAction::FirstConnect));
    assert!(matches!(actions[1], IoAction::Control(ConnectionState::Connected)));
    task
}

fn view(actions: &[IoAction<u32>]) -> Vec<String> {
    actions.iter().map(|a| format!("{:?}", a)).collect()
}

#[test]
fn new_task_asks_to_connect() {
    let task: IoTask<u32> = IoTask::new(options(), 0);
    assert_eq!(task.poll(), Poll::Connect { timeout_ms: 10_000 });
    assert!(!task.frame_ready());
}

#[test]
fn connect_failure_sleeps_and_retries_when_automatic() {
    let mut task: IoTask<u32> = IoTask::new(options(), 0);
    let actions = task.run(IoEvent::Connect(ConnectAttempt::Failed(Error::Io(IoErrorKind::Other))), 0);
    assert_eq!(view(&actions), vec!["Sleep(5000)".to_string()]);
    assert_eq!(task.poll(), Poll::Connect { timeout_ms: 10_000 });
    let actions = task.run(IoEvent::Connect(ConnectAttempt::TimedOut), 0);
    assert_eq!(view(&actions), vec!["Sleep(5000)".to_string()]);
}

#[test]
fn connect_failure_halts_without_automatic_connect() {
    let mut opts = options();
    opts.automatic_connect = false;
    let mut task: IoTask<u32> = IoTask::new(opts, 0);
    let actions = task.run(IoEvent::Connect(ConnectAttempt::TimedOut), 0);
    assert!(actions.is_empty());
    assert_eq!(task.poll(), Poll::Stop);
    // a halted task stays halted
    assert!(task.run(IoEvent::Connect(ConnectAttempt::Established), 1).is_empty());
    assert_eq!(task.poll(), Poll::Stop);
}

#[test]
fn try_connect_maps_timeout_to_connect_timeout() {
    let mut task: IoTask<u32> = IoTask::new(options(), 0);
    assert_eq!(task.try_connect(ConnectAttempt::TimedOut), Err(Error::TimeoutError(10_000)));
    assert_eq!(task.try_connect(ConnectAttempt::Failed(Error::DNSName("x".to_string()))), Err(Error::DNSName("x".to_string())));
    assert_eq!(task.try_connect(ConnectAttempt::Established), Ok(()));
    assert_eq!(task.poll(), Poll::Resume);
}

#[test]
fn run_once_without_stream_is_an_error() {
    let mut task: IoTask<u32> = IoTask::new(options(), 0);
    let r = task.run_once(IoEvent::ClientHeartbeat, 0);
    assert_eq!(r.unwrap_err(), Error::String("Not connected to the network".to_string()));
}

#[test]
fn disconnected_task_ignores_select_events() {
    let mut task: IoTask<u32> = IoTask::new(options(), 0);
    assert!(task.run(IoEvent::Cancelled, 0).is_empty());
    assert!(task.run(IoEvent::Received(vec![1, 2, 3]), 0).is_empty());
    assert_eq!(task.poll(), Poll::Connect { timeout_ms: 10_000 });
}

#[test]
fn first_pass_arms_both_timers() {
    let mut task = connected(options());
    assert_eq!(task.poll(), Poll::Resume);
    assert!(task.run(IoEvent::Resume, 100).is_empty());
    assert_eq!(task.poll(), Poll::Select { client_deadline: 100 + 9_000, server_deadline: 100 + 30_000 });
}

#[test]
fn happy_request() {
    let mut task = connected(options());
    let request = ProtoMessage { payload_type: 2100, payload: Some(vec![0x12, 1, b'X', 0x1A, 1, b'Y']), client_msg_id: None };
    let actions = task.run(IoEvent::Submitted(Lane::General, Some(Request { message: request.clone(), tx: Some(9) })), 10);
    assert_eq!(actions.len(), 1);
    let sent = match &actions[0] {
        IoAction::Transmit(bytes) => unframe(bytes),
        other => panic!("unexpected {:?}", other),
    };
    let id = sent.client_msg_id.clone().unwrap();
    assert_eq!(id.len(), 36);
    assert_eq!(sent.payload_type, 2100);
    assert_eq!(sent.payload, request.payload);

    let answer = ProtoMessage { payload_type: 2101, payload: Some(vec![]), client_msg_id: Some(id) };
    let actions = task.run(IoEvent::Received(frame(&answer)), 20);
    assert_eq!(actions.len(), 1);
    match &actions[0] {
        IoAction::Deliver { slot, response } => {
            assert_eq!(*slot, 9);
            assert_eq!(*response, Response { message: answer.clone() });
        }
        other => panic!("unexpected {:?}", other),
    }
    // a second copy of the answer is a stranger
    assert!(task.run(IoEvent::Received(frame(&answer)), 30).is_empty());
}

#[test]
fn request_with_given_id_is_framed_with_it() {
    let mut task = connected(options());
    let request = ProtoMessage { payload_type: 2104, payload: Some(vec![]), client_msg_id: None };
    let actions = task.run_with_id(
        IoEvent::Submitted(Lane::Historical, Some(Request { message: request, tx: Some(1) })),
        "fixed".to_string(),
        10,
    );
    let expected = frame(&ProtoMessage { payload_type: 2104, payload: Some(vec![]), client_msg_id: Some("fixed".to_string()) });
    assert_eq!(view(&actions), vec![format!("Transmit({:?})", expected)]);
}

#[test]
fn fire_and_forget_is_transmitted_unchanged() {
    let mut task = connected(options());
    let m = ProtoMessage { payload_type: 2127, payload: Some(vec![1]), client_msg_id: None };
    let actions = task.run(IoEvent::Submitted(Lane::General, Some(Request { message: m.clone(), tx: None })), 10);
    assert_eq!(view(&actions), vec![format!("Transmit({:?})", frame(&m))]);
}

#[test]
fn a_busy_historical_lane_does_not_hold_the_general_lane() {
    let mut task = connected(options());
    let history = ProtoMessage { payload_type: 2137, payload: Some(vec![1; 64]), client_msg_id: None };
    for k in 0..500u32 {
        let actions = task.run(IoEvent::Submitted(Lane::Historical, Some(Request { message: history.clone(), tx: Some(k) })), 10);
        assert_eq!(actions.len(), 1);
    }
    let m = ProtoMessage { payload_type: 2106, payload: Some(vec![2]), client_msg_id: None };
    let actions = task.run_with_id(IoEvent::Submitted(Lane::General, Some(Request { message: m.clone(), tx: Some(7) })), "g".to_string(), 11);
    let expected = frame(&ProtoMessage { client_msg_id: Some("g".to_string()), ..m });
    assert_eq!(view(&actions), vec![format!("Transmit({:?})", expected)]);
}

#[test]
fn unsolicited_message_is_for_the_listeners() {
    let mut task = connected(options());
    let m = ProtoMessage { payload_type: 2131, payload: Some(vec![5, 6]), client_msg_id: None };
    let actions = task.run(IoEvent::Received(frame(&m)), 10);
    assert_eq!(actions.len(), 1);
    match &actions[0] {
        IoAction::Notify(response) => assert_eq!(response.message, m),
        other => panic!("unexpected {:?}", other),
    }
}

#[test]
fn frames_split_across_reads_and_joined_in_one_read() {
    let mut task = connected(options());
    let a = ProtoMessage { payload_type: 2131, payload: Some(vec![1]), client_msg_id: None };
    let b = ProtoMessage { payload_type: 2155, payload: Some(vec![2]), client_msg_id: None };
    let mut bytes = frame(&a);
    bytes.extend_from_slice(&frame(&b));
    let (head, tail) = bytes.split_at(3);
    assert!(task.run(IoEvent::Received(head.to_vec()), 1).is_empty());
    assert!(!task.frame_ready());
    let actions = task.run(IoEvent::Received(tail.to_vec()), 2);
    assert!(matches!(&actions[0], IoAction::Notify(r) if r.message == a));
    assert!(task.frame_ready());
    assert_eq!(task.poll(), Poll::Resume);
    let actions = task.run(IoEvent::Resume, 3);
    assert!(matches!(&actions[0], IoAction::Notify(r) if r.message == b));
    assert!(!task.frame_ready());
}

#[test]
fn incoming_heartbeat_is_silent() {
    let mut task = connected(options());
    assert!(task.run(IoEvent::Received(frame(&ProtoMessage::heartbeat())), 10).is_empty());
    assert!(matches!(task.poll(), Poll::Select { .. }));
}

fn teardown() -> Vec<String> {
    vec!["Control(Disconnect)".to_string(), "CloseStream".to_string()]
}

#[test]
fn transport_error_response_tears_the_connection_down() {
    let mut task = connected(options());
    let m = ProtoMessage { payload_type: 50, payload: Some(vec![]), client_msg_id: None };
    let actions = task.run(IoEvent::Received(frame(&m)), 10);
    assert_eq!(view(&actions), teardown());
    assert_eq!(task.poll(), Poll::Connect { timeout_ms: 10_000 });
}

#[test]
fn malformed_frame_tears_the_connection_down() {
    let mut task = connected(options());
    let actions = task.run(IoEvent::Received(vec![0, 0, 0, 1, 0xFF]), 10);
    assert_eq!(view(&actions), teardown());
    assert_eq!(task.poll(), Poll::Connect { timeout_ms: 10_000 });
}

#[test]
fn oversized_frame_is_refused_by_its_header() {
    let mut opts = options();
    opts.max_packet_len = 16;
    let mut task = connected(opts.clone());
    let r = task.run_once(IoEvent::Received(vec![0, 0, 0, 17]), 10);
    assert_eq!(r.unwrap_err(), Error::PayloadSizeLimitExceeded(17));
    let mut task = connected(opts.clone());
    assert_eq!(view(&task.run(IoEvent::Received(vec![0, 0, 0, 17, 1]), 10)), teardown());
    // a frame of exactly the limit passes
    let m = ProtoMessage { payload_type: 2131, payload: Some(vec![0; 11]), client_msg_id: None };
    assert_eq!(m.encode_to_vec().len(), 16);
    let mut task = connected(opts);
    assert_eq!(task.run(IoEvent::Received(frame(&m)), 10).len(), 1);
}

#[test]
fn closed_lane_and_io_failures_tear_down() {
    for event in [
        IoEvent::Submitted(Lane::General, None),
        IoEvent::Submitted(Lane::Historical, None),
        IoEvent::TransportFailed(IoErrorKind::ConnectionLost),
        IoEvent::ListenersClosed,
    ] {
        let mut task = connected(options());
        assert_eq!(view(&task.run(event, 10)), teardown());
        assert_eq!(task.poll(), Poll::Connect { timeout_ms: 10_000 });
    }
}

#[test]
fn run_once_reports_the_error_of_each_branch() {
    let mut task = connected(options());
    assert_eq!(task.run_once(IoEvent::Submitted(Lane::General, None), 1).unwrap_err(), Error::RequestsDone);
    assert_eq!(task.run_once(IoEvent::TransportFailed(IoErrorKind::BrokenPipe), 1).unwrap_err(), Error::Io(IoErrorKind::BrokenPipe));
    assert_eq!(task.run_once(IoEvent::ListenersClosed, 1).unwrap_err(), Error::NotifySender);
    assert_eq!(task.run_once(IoEvent::Cancelled, 1).unwrap_err(), Error::Cancel);
    assert!(task.run_once(IoEvent::Connect(ConnectAttempt::Established), 1).unwrap().is_none());
}

#[test]
fn cancel_halts_the_task() {
    let mut task = connected(options());
    assert_eq!(view(&task.run(IoEvent::Cancelled, 10)), teardown());
    assert_eq!(task.poll(), Poll::Stop);
}

#[test]
fn teardown_drops_pending_requests() {
    let mut task = connected(options());
    let request = ProtoMessage { payload_type: 2100, payload: None, client_msg_id: None };
    task.run_with_id(IoEvent::Submitted(Lane::General, Some(Request { message: request, tx: Some(9) })), "id".to_string(), 10);
    task.run(IoEvent::TransportFailed(IoErrorKind::ConnectionLost), 11);
    let actions = task.run(IoEvent::Connect(ConnectAttempt::Established), 12);
    assert_eq!(view(&actions), vec!["Control(Connected)".to_string()]);
    let late = ProtoMessage { payload_type: 2101, payload: None, client_msg_id: Some("id".to_string()) };
    assert!(task.run(IoEvent::Received(frame(&late)), 13).is_empty());
}

#[test]
fn late_response_after_timeout_is_taken_without_harm() {
    let mut task = connected(options());
    let request = ProtoMessage { payload_type: 2100, payload: None, client_msg_id: None };
    task.run_with_id(IoEvent::Submitted(Lane::General, Some(Request { message: request, tx: Some(9) })), "id".to_string(), 10);
    // the caller gave up at 510; the answer comes at 900
    let late = ProtoMessage { payload_type: 2101, payload: None, client_msg_id: Some("id".to_string()) };
    let actions = task.run(IoEvent::Received(frame(&late)), 900);
    assert!(matches!(&actions[0], IoAction::Deliver { slot: 9, .. }));
    assert!(task.run(IoEvent::Received(frame(&late)), 901).is_empty());
    assert!(matches!(task.poll(), Poll::Select { .. }));
}

#[test]
fn heartbeat_every_two_seconds_with_keep_alive_of_three() {
    let mut opts = options();
    opts.client_keep_alive = 3_000;
    let mut task = connected(opts);
    task.run(IoEvent::Resume, 0);
    let beat = frame(&ProtoMessage::heartbeat());
    let mut due = match task.poll() {
        Poll::Select { client_deadline: d, .. } => d,
        other => panic!("unexpected {:?}", other),
    };
    for expected in [2_000u64, 4_000, 6_000] {
        assert_eq!(due, expected);
        let actions = task.run(IoEvent::ClientHeartbeat, due);
        assert_eq!(view(&actions), vec![format!("Transmit({:?})", beat)]);
        due = match task.poll() {
            Poll::Select { client_deadline: d, .. } => d,
            other => panic!("unexpected {:?}", other),
        };
    }
    assert_eq!(due, 8_000);
}

#[test]
fn heartbeat_frame_bytes() {
    assert_eq!(frame(&ProtoMessage::heartbeat()), vec![0, 0, 0, 4, 0x08, 51, 0x12, 0]);
}

#[test]
fn server_silence_reconnects() {
    let mut opts = options();
    opts.server_keep_alive = 5_000;
    let mut task = connected(opts);
    task.run(IoEvent::Resume, 0);
    assert!(matches!(task.poll(), Poll::Select { server_deadline: 5_000, .. }));
    // five seconds of silence: not yet lost, the timer is set again
    assert!(task.run(IoEvent::ServerHeartbeat, 5_000).is_empty());
    assert!(matches!(task.poll(), Poll::Select { server_deadline: 5_000, .. }));
    // exactly keep-alive plus two seconds: still up
    assert!(task.run(IoEvent::ServerHeartbeat, 7_000).is_empty());
    // eight seconds: lost
    assert_eq!(view(&task.run(IoEvent::ServerHeartbeat, 8_000)), teardown());
    assert_eq!(task.poll(), Poll::Connect { timeout_ms: 10_000 });
    let actions = task.run(IoEvent::Connect(ConnectAttempt::Established), 8_100);
    assert_eq!(view(&actions), vec!["Control(Connected)".to_string()]);
    assert_eq!(task.poll(), Poll::Resume);
}

#[test]
fn watchdog_counts_the_keep_alive_in_milliseconds() {
    for (keep_alive, limit) in [(1_500u64, 3_500u64), (999, 2_999), (0, 2_000), (30_000, 32_000)] {
        let mut opts = options();
        opts.server_keep_alive = keep_alive;
        let mut task = connected(opts.clone());
        assert!(task.run(IoEvent::ServerHeartbeat, limit - 300).is_empty());
        assert!(task.run(IoEvent::ServerHeartbeat, limit).is_empty());
        assert!(matches!(task.poll(), Poll::Select { server_deadline, .. } if server_deadline == keep_alive));
        assert_eq!(view(&task.run(IoEvent::ServerHeartbeat, limit + 1)), teardown());
        let mut task = connected(opts);
        assert_eq!(task.run_once(IoEvent::ServerHeartbeat, limit).unwrap().map(|_| ()), None);
        assert_eq!(task.run_once(IoEvent::ServerHeartbeat, limit + 1).unwrap_err(), Error::Disconnected);
    }
}

#[test]
fn resume_is_ignored_without_stream() {
    let mut task: IoTask<u32> = IoTask::new(options(), 0);
    assert!(task.run(IoEvent::Resume, 0).is_empty());
    assert_eq!(task.poll(), Poll::Connect { timeout_ms: 10_000 });
}

#[test]
fn incoming_frame_resets_the_watchdog() {
    let mut opts = options();
    opts.server_keep_alive = 5_000;
    let mut task = connected(opts);
    task.run(IoEvent::Received(frame(&ProtoMessage::heartbeat())), 4_000);
    assert!(task.run(IoEvent::ServerHeartbeat, 9_000).is_empty());
    assert!(matches!(task.poll(), Poll::Select { server_deadline: 9_000, .. }));
    assert!(task.run(IoEvent::ServerHeartbeat, 11_000).is_empty());
    assert_eq!(view(&task.run(IoEvent::ServerHeartbeat, 11_001)), teardown());
}

#[test]
fn shutdown_conn_on_a_disconnected_task_asks_nothing() {
    let mut task: IoTask<u32> = IoTask::new(options(), 0);
    assert!(task.shutdown_conn().is_empty());
    let mut task = connected(options());
    assert_eq!(view(&task.shutdown_conn()), teardown());
    assert!(task.shutdown_conn().is_empty());
}

#[test]
fn frame_reader_refuses_by_header_and_keeps_the_bytes() {
    let mut reader = FrameReader::new();
    reader.feed(&[0, 0, 1, 0, 9]);
    assert!(!reader.frame_ready());
    assert_eq!(reader.next_frame(255), Err(Error::PayloadSizeLimitExceeded(256)));
    assert_eq!(reader.next_frame(256), Ok(None));
}

#[test]
fn lane_quotas() {
    assert_eq!(LaneQuota::for_lane(Lane::General), LaneQuota { per_second: 50, burst: 50 });
    assert_eq!(LaneQuota::for_lane(Lane::Historical), LaneQuota { per_second: 5, burst: 5 });
    let general = LaneQuota::quota_for_lane(Lane::General);
    assert_eq!(general.burst_size().get(), 50);
    assert_eq!(general.replenish_interval(), std::time::Duration::from_millis(20));
    let historical = LaneQuota::quota_for_lane(Lane::Historical);
    assert_eq!(historical.burst_size().get(), 5);
    assert_eq!(historical.replenish_interval(), std::time::Duration::from_millis(200));
}

fn granted(limiter: &governor::RateLimiter<governor::state::NotKeyed, governor::state::InMemoryState, governor::clock::FakeRelativeClock, governor::middleware::NoOpMiddleware<<governor::clock::FakeRelativeClock as governor::clock::Clock>::Instant>>, waiting: &mut u32) -> u32 {
    let mut count = 0;
    while *waiting > 0 && limiter.check().is_ok() {
        *waiting -= 1;
        count += 1;
    }
    count
}

#[test]
fn general_lane_gates_two_hundred_requests() {
    let quota = LaneQuota::quota_for_lane(Lane::General);
    let clock = governor::clock::FakeRelativeClock::default();
    let limiter = governor::RateLimiter::direct_with_clock(quota, &clock);
    let mut waiting = 200;
    // the burst leaves at once
    assert_eq!(granted(&limiter, &mut waiting), 50);
    // then fifty more with every second
    let mut seconds = 0;
    while waiting > 0 {
        clock.advance(std::time::Duration::from_secs(1));
        seconds += 1;
        assert_eq!(granted(&limiter, &mut waiting), 50);
    }
    assert_eq!(seconds, 3);
}

#[test]
fn historical_lane_gates_at_five_per_second() {
    let quota = LaneQuota::quota_for_lane(Lane::Historical);
    let clock = governor::clock::FakeRelativeClock::default();
    let limiter = governor::RateLimiter::direct_with_clock(quota, &clock);
    let mut waiting = 100;
    assert_eq!(granted(&limiter, &mut waiting), 5);
    clock.advance(std::time::Duration::from_millis(200));
    assert_eq!(granted(&limiter, &mut waiting), 1);
    clock.advance(std::time::Duration::from_millis(199));
    assert_eq!(granted(&limiter, &mut waiting), 0);
    clock.advance(std::time::Duration::from_millis(1));
    assert_eq!(granted(&limiter, &mut waiting), 1);
}
