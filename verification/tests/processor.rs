use ctrader_openapi::error::Error;
use ctrader_openapi::message::ProtoMessage;
use ctrader_openapi::pending::PendingTable;
use ctrader_openapi::processor::{Incoming, MessageProcessor};
use ctrader_openapi::types::{ConnectionState, Request, Response};

fn message(payload_type: u32, id: Option<&str>) -> ProtoMessage {
    ProtoMessage { payload_type, payload: Some(vec![1, 2, 3]), client_msg_id: id.map(|s| s.to_string()) }
}

#[test]
fn new_processor_has_both_clocks_at_now_and_interval_30() {
    let p: MessageProcessor<u32> = MessageProcessor::new(1234);
    assert_eq!(p.last_incoming(), 1234);
    assert_eq!(p.last_outgoing(), 1234);
    assert_eq!(p.heartbeat_interval_secs(), 30);
    assert!(p.is_idle());
}

#[test]
fn pending_table_insert_remove() {
    let mut t: PendingTable<u32> = PendingTable::new();
    assert!(t.is_empty());
    assert_eq!(t.insert("a".to_string(), 1), None);
    assert_eq!(t.insert("b".to_string(), 2), None);
    assert!(t.contains(&"a".to_string()));
    assert_eq!(t.insert("a".to_string(), 3), Some(1));
    assert_eq!(t.remove(&"a".to_string()), Some(3));
    assert_eq!(t.remove(&"a".to_string()), None);
    assert!(!t.contains(&"a".to_string()));
    assert_eq!(t.remove(&"b".to_string()), Some(2));
    assert!(t.is_empty());
    t.insert("c".to_string(), 9);
    t.clear();
    assert!(t.is_empty());
}

#[test]
fn outgoing_with_slot_is_stamped_and_registered() {
    let mut p: MessageProcessor<u32> = MessageProcessor::new(0);
    let m = p.stamp_outgoing(Request { message: message(2100, None), tx: Some(7) }, "id-1".to_string(), 50);
    assert_eq!(m, message(2100, Some("id-1")));
    assert!(p.is_pending(&"id-1".to_string()));
    assert_eq!(p.last_outgoing(), 50);
    assert_eq!(p.last_incoming(), 0);
}

#[test]
fn outgoing_without_slot_is_left_alone() {
    let mut p: MessageProcessor<u32> = MessageProcessor::new(0);
    let m = p.stamp_outgoing(Request { message: message(2100, Some("mine")), tx: None }, "id-1".to_string(), 50);
    assert_eq!(m, message(2100, Some("mine")));
    assert!(p.is_idle());
    assert_eq!(p.last_outgoing(), 50);
}

#[test]
fn fresh_correlation_ids_are_uuids_and_differ() {
    let mut p: MessageProcessor<u32> = MessageProcessor::new(0);
    let a = p.prepare_outgoing_packet(Request { message: message(1, None), tx: Some(1) }, 1);
    let b = p.prepare_outgoing_packet(Request { message: message(1, None), tx: Some(2) }, 2);
    let ia = a.client_msg_id.unwrap();
    let ib = b.client_msg_id.unwrap();
    assert_eq!(ia.len(), 36);
    assert_eq!(ib.len(), 36);
    assert_ne!(ia, ib);
    assert_eq!(ia.matches('-').count(), 4);
    assert!(p.is_pending(&ia) && p.is_pending(&ib));
}

#[test]
fn fire_and_forget_gets_no_correlation_id() {
    let mut p: MessageProcessor<u32> = MessageProcessor::new(0);
    let m = p.prepare_outgoing_packet(Request { message: message(1, None), tx: None }, 1);
    assert_eq!(m.client_msg_id, None);
    assert!(p.is_idle());
}

#[test]
fn heartbeat_packet_has_no_correlation_id() {
    let mut p: MessageProcessor<u32> = MessageProcessor::new(0);
    let m = p.prepare_heartbeat_packet(77);
    assert_eq!(m, ProtoMessage { payload_type: 51, payload: Some(vec![]), client_msg_id: None });
    assert_eq!(p.last_outgoing(), 77);
}

#[test]
fn incoming_heartbeat_is_absorbed() {
    let mut p: MessageProcessor<u32> = MessageProcessor::new(0);
    let r = p.handle_incoming_packet(message(51, None), 10).unwrap();
    assert!(matches!(r, Incoming::Heartbeat));
    assert_eq!(p.last_incoming(), 10);
}

#[test]
fn incoming_transport_error_fails() {
    let mut p: MessageProcessor<u32> = MessageProcessor::new(0);
    p.stamp_outgoing(Request { message: message(1, None), tx: Some(1) }, "x".to_string(), 1);
    let r = p.handle_incoming_packet(message(50, Some("x")), 10);
    match r {
        Err(Error::ServerErrorRes(m)) => assert_eq!(m, message(50, Some("x"))),
        other => panic!("unexpected {:?}", other),
    }
    assert!(p.is_pending(&"x".to_string()));
    assert_eq!(p.last_incoming(), 10);
}

#[test]
fn incoming_reply_goes_to_its_slot_once() {
    let mut p: MessageProcessor<u32> = MessageProcessor::new(0);
    p.stamp_outgoing(Request { message: message(1, None), tx: Some(41) }, "x".to_string(), 1);
    match p.handle_incoming_packet(message(2101, Some("x")), 5).unwrap() {
        Incoming::Reply { slot, response } => {
            assert_eq!(slot, 41);
            assert_eq!(response, Response { message: message(2101, Some("x")) });
        }
        other => panic!("unexpected {:?}", other),
    }
    assert!(p.is_idle());
    assert!(matches!(p.handle_incoming_packet(message(2101, Some("x")), 6).unwrap(), Incoming::Stranger));
}

#[test]
fn incoming_without_id_is_broadcast() {
    let mut p: MessageProcessor<u32> = MessageProcessor::new(0);
    match p.handle_incoming_packet(message(2131, None), 5).unwrap() {
        Incoming::Broadcast(response) => assert_eq!(response.message, message(2131, None)),
        other => panic!("unexpected {:?}", other),
    }
}

#[test]
fn stranger_does_not_touch_pending_slots() {
    let mut p: MessageProcessor<u32> = MessageProcessor::new(0);
    p.stamp_outgoing(Request { message: message(1, None), tx: Some(1) }, "a".to_string(), 1);
    p.stamp_outgoing(Request { message: message(1, None), tx: Some(2) }, "b".to_string(), 1);
    assert!(matches!(p.handle_incoming_packet(message(2101, Some("zzz")), 2).unwrap(), Incoming::Stranger));
    assert!(p.is_pending(&"a".to_string()));
    assert!(p.is_pending(&"b".to_string()));
}

#[test]
fn batch_is_routed_in_any_permutation() {
    let mut p: MessageProcessor<usize> = MessageProcessor::new(0);
    let n = 6;
    for k in 0..n {
        p.stamp_outgoing(Request { message: message(1, None), tx: Some(k) }, format!("id-{}", k), 1);
    }
    for k in [3usize, 0, 5, 1, 4, 2] {
        let id = format!("id-{}", k);
        match p.handle_incoming_packet(message(2000 + k as u32, Some(&id)), 2).unwrap() {
            Incoming::Reply { slot, response } => {
                assert_eq!(slot, k);
                assert_eq!(response.message.payload_type, 2000 + k as u32);
                assert_eq!(response.message.client_msg_id, Some(id));
            }
            other => panic!("unexpected {:?}", other),
        }
    }
    assert!(p.is_idle());
}

#[test]
fn clocks_do_not_move_backwards() {
    let mut p: MessageProcessor<u32> = MessageProcessor::new(100);
    p.prepare_heartbeat_packet(50);
    assert_eq!(p.last_outgoing(), 100);
    p.handle_incoming_packet(message(51, None), 40).unwrap();
    assert_eq!(p.last_incoming(), 100);
    p.prepare_heartbeat_packet(150);
    assert_eq!(p.last_outgoing(), 150);
}

#[test]
fn control_events() {
    let mut p: MessageProcessor<u32> = MessageProcessor::new(0);
    assert_eq!(p.handle_on_connected(), ConnectionState::Connected);
    assert_eq!(p.handle_on_disconnected(), ConnectionState::Disconnect);
}

#[test]
fn drop_pending_empties_the_table() {
    let mut p: MessageProcessor<u32> = MessageProcessor::new(0);
    p.stamp_outgoing(Request { message: message(1, None), tx: Some(1) }, "a".to_string(), 1);
    p.set_heartbeat_interval_secs(5);
    p.drop_pending();
    assert!(p.is_idle());
    assert_eq!(p.heartbeat_interval_secs(), 5);
}
