use simplerpcrs::application::retry::{ConnectRetry, ConnectStep};
use simplerpcrs::application::{complete_request, Incoming, RpcApplication};
use simplerpcrs::packets::{RpcMessageType, RpcPacket, RpcReturnCode};
use simplerpcrs::peer::PeerAddr;

type App = RpcApplication<&'static str, u32, char>;

fn peer(port: u16) -> PeerAddr {
    PeerAddr::V4 { ip: 0x7f00_0001, port }
}

fn packet(kind: RpcMessageType, method_id: u8, request_id: u8, code: RpcReturnCode, payload: Vec<u8>) -> RpcPacket {
    RpcPacket::new(7, method_id, request_id, kind, code, payload)
}

fn recipients(out: &[(RpcPacket, PeerAddr)]) -> Vec<PeerAddr> {
    let mut v: Vec<PeerAddr> = out.iter().map(|m| m.1).collect();
    v.sort_by_key(|p| match p {
        PeerAddr::V4 { port, .. } => *port,
        PeerAddr::V6 { port, .. } => *port,
    });
    v
}

#[test]
fn offered_method_is_found_and_replaced() {
    let mut app = App::new(1, peer(6969));
    assert!(app.offered_method(1).is_none());
    app.offer_method(1, "first");
    assert_eq!(app.offered_method(1), Some(&"first"));
    app.offer_method(1, "second");
    assert_eq!(app.offered_method(1), Some(&"second"));
    assert!(app.offered_method(2).is_none());
}

#[test]
fn request_reply_echoes_ids() {
    let mut app = App::new(1, peer(6969));
    let todo = app.handle_message(packet(RpcMessageType::Request, 4, 200, RpcReturnCode::Success, vec![1, 2]), peer(1));
    match todo {
        Incoming::Request { reply, payload } => {
            assert_eq!(payload, vec![1, 2]);
            assert_eq!(reply.service_id, 7);
            assert_eq!(reply.method_id, 4);
            assert_eq!(reply.request_id, 200);
            assert_eq!(reply.message_type, RpcMessageType::Response);
            assert_eq!(reply.return_code, RpcReturnCode::Success);
            assert!(reply.payload.is_empty());
        }
        _ => panic!("a request must be answered"),
    }
}

#[test]
fn complete_request_carries_outcome() {
    let reply = packet(RpcMessageType::Response, 4, 9, RpcReturnCode::Success, vec![]);
    let none = complete_request(reply.clone(), None);
    assert_eq!(none.return_code, RpcReturnCode::Success);
    assert!(none.payload.is_empty());
    let ok = complete_request(reply.clone(), Some(Ok(vec![5, 6])));
    assert_eq!(ok.return_code, RpcReturnCode::Success);
    assert_eq!(ok.payload, vec![5, 6]);
    assert_eq!(ok.request_id, 9);
    let err = complete_request(reply, Some(Err(vec![0x92, 1])));
    assert_eq!(err.return_code, RpcReturnCode::Error);
    assert_eq!(err.payload, vec![0x92, 1]);
    assert_eq!(err.method_id, 4);
    assert_eq!(err.message_type, RpcMessageType::Response);
}

#[test]
fn subscription_then_event_reaches_subscriber() {
    let mut app = App::new(0x0102, peer(6969));
    app.offer_event(5);
    assert!(app.call_event(5, vec![1]).is_empty());
    app.handle_message(packet(RpcMessageType::Request, 5, 0, RpcReturnCode::Success, vec![]), peer(10));
    app.handle_message(packet(RpcMessageType::Request, 5, 1, RpcReturnCode::Success, vec![]), peer(11));
    app.handle_message(packet(RpcMessageType::Request, 5, 2, RpcReturnCode::Success, vec![]), peer(10));
    let out = app.call_event(5, vec![3, 4]);
    assert_eq!(recipients(&out), vec![peer(10), peer(11)]);
    for (p, _) in &out {
        assert_eq!(p.service_id, 0x02);
        assert_eq!(p.method_id, 5);
        assert_eq!(p.request_id, 0);
        assert_eq!(p.message_type, RpcMessageType::Notification);
        assert_eq!(p.return_code, RpcReturnCode::Success);
        assert_eq!(p.payload, vec![3, 4]);
    }
}

#[test]
fn event_not_offered_has_no_subscribers() {
    let mut app = App::new(1, peer(6969));
    app.handle_message(packet(RpcMessageType::Request, 5, 0, RpcReturnCode::Success, vec![]), peer(10));
    assert!(app.call_event(5, vec![1]).is_empty());
    app.offer_event(5);
    assert!(app.call_event(5, vec![1]).is_empty());
}

#[test]
fn unsubscribe_ends_subscription() {
    let mut app = App::new(1, peer(6969));
    app.offer_event(5);
    app.handle_message(packet(RpcMessageType::Request, 5, 0, RpcReturnCode::Success, vec![]), peer(10));
    app.handle_message(packet(RpcMessageType::Request, 5, 0, RpcReturnCode::Success, vec![]), peer(11));
    let todo = app.handle_message(packet(RpcMessageType::Unsubscribe, 5, 0, RpcReturnCode::Success, vec![]), peer(10));
    assert!(matches!(todo, Incoming::Unsubscribed));
    assert_eq!(recipients(&app.call_event(5, vec![])), vec![peer(11)]);
}

#[test]
fn offering_an_event_again_drops_its_subscribers() {
    let mut app = App::new(1, peer(6969));
    app.offer_event(5);
    app.handle_message(packet(RpcMessageType::Request, 5, 0, RpcReturnCode::Success, vec![]), peer(10));
    app.offer_event(5);
    assert!(app.call_event(5, vec![]).is_empty());
}

#[test]
fn disconnect_forgets_peer_everywhere() {
    let mut app = App::new(1, peer(6969));
    app.offer_event(5);
    app.offer_event(6);
    app.register_connection(peer(10));
    app.register_connection(peer(11));
    assert!(app.is_connected(&peer(10)));
    for e in [5u8, 6u8] {
        app.handle_message(packet(RpcMessageType::Request, e, 0, RpcReturnCode::Success, vec![]), peer(10));
        app.handle_message(packet(RpcMessageType::Request, e, 0, RpcReturnCode::Success, vec![]), peer(11));
    }
    app.disconnect(&peer(10));
    assert!(!app.is_connected(&peer(10)));
    assert!(app.is_connected(&peer(11)));
    assert_eq!(recipients(&app.call_event(5, vec![])), vec![peer(11)]);
    assert_eq!(recipients(&app.call_event(6, vec![])), vec![peer(11)]);
    app.disconnect(&peer(10));
    assert_eq!(recipients(&app.call_event(6, vec![])), vec![peer(11)]);
}

#[test]
fn ipv4_and_ipv6_peers_differ() {
    let mut app = App::new(1, peer(6969));
    let v6 = PeerAddr::V6 { ip: 0x7f00_0001, port: 10, flowinfo: 0, scope_id: 0 };
    app.register_connection(v6);
    assert!(app.is_connected(&v6));
    assert!(!app.is_connected(&peer(10)));
}

#[test]
fn response_hands_back_its_request_once() {
    let mut app = App::new(3, peer(6969));
    let (request, to) = app.call_method_with_id(peer(20), 1, 42, vec![8], 77);
    assert_eq!(to, peer(20));
    assert_eq!(request.service_id, 3);
    assert_eq!(request.method_id, 1);
    assert_eq!(request.request_id, 42);
    assert_eq!(request.message_type, RpcMessageType::Request);
    assert_eq!(request.return_code, RpcReturnCode::Success);
    assert_eq!(request.payload, vec![8]);
    match app.handle_message(packet(RpcMessageType::Response, 1, 42, RpcReturnCode::Success, vec![4]), peer(20)) {
        Incoming::Response { callback, result } => {
            assert_eq!(callback, Some(77));
            assert_eq!(result, Ok(vec![4]));
        }
        _ => panic!("a response must resolve its request"),
    }
    match app.handle_message(packet(RpcMessageType::Response, 1, 42, RpcReturnCode::Success, vec![4]), peer(20)) {
        Incoming::Response { callback, .. } => assert_eq!(callback, None),
        _ => panic!("a response must resolve its request"),
    }
}

#[test]
fn error_response_carries_encoded_error() {
    let mut app = App::new(3, peer(6969));
    app.call_method_with_id(peer(20), 1, 9, vec![], 5);
    match app.handle_message(packet(RpcMessageType::Response, 1, 9, RpcReturnCode::Error, vec![0x92, 1, 0xa1, 0x78]), peer(20)) {
        Incoming::Response { callback, result } => {
            assert_eq!(callback, Some(5));
            assert_eq!(result, Err(vec![0x92, 1, 0xa1, 0x78]));
        }
        _ => panic!("a response must resolve its request"),
    }
}

#[test]
fn random_request_id_is_registered() {
    let mut app = App::new(3, peer(6969));
    let (request, _) = app.call_method(peer(20), 1, vec![], 11);
    let id = request.request_id;
    match app.handle_message(packet(RpcMessageType::Response, 1, id, RpcReturnCode::Success, vec![]), peer(20)) {
        Incoming::Response { callback, .. } => assert_eq!(callback, Some(11)),
        _ => panic!("a response must resolve its request"),
    }
}

#[test]
fn subscribe_and_unsubscribe_event() {
    let mut app = App::new(0x0203, peer(6969));
    let (sub, to) = app.subscribe_event(peer(30), 2, 'x');
    assert_eq!(to, peer(30));
    assert_eq!(sub.service_id, 0x03);
    assert_eq!(sub.method_id, 2);
    assert_eq!(sub.message_type, RpcMessageType::Request);
    assert!(sub.payload.is_empty());
    assert_eq!(app.subscribed_event(2), Some(&'x'));
    match app.handle_message(packet(RpcMessageType::Notification, 2, 0, RpcReturnCode::Success, vec![6]), peer(30)) {
        Incoming::Notification { event_id, payload } => {
            assert_eq!(event_id, 2);
            assert_eq!(payload, vec![6]);
        }
        _ => panic!("a notification must be delivered"),
    }
    let (unsub, _) = app.unsubscribe_event(peer(30), 2);
    assert_eq!(unsub.message_type, RpcMessageType::Unsubscribe);
    assert_eq!(unsub.method_id, 2);
    assert!(app.subscribed_event(2).is_none());
}

#[test]
fn retries_until_limit() {
    let mut r = ConnectRetry::new(3);
    assert_eq!(r.on_failure(), ConnectStep::Retry);
    assert_eq!(r.on_failure(), ConnectStep::Retry);
    assert_eq!(r.on_failure(), ConnectStep::GiveUp);
    assert_eq!(r.attempts(), 3);
}

#[test]
fn zero_retries_still_tries_once() {
    let mut r = ConnectRetry::new(0);
    assert_eq!(r.on_failure(), ConnectStep::GiveUp);
    assert_eq!(r.attempts(), 1);
}

#[test]
fn waiting_starts_only_for_unconnected_peer() {
    let mut app = App::new(1, peer(6969));
    let retry = app.start_connecting(&peer(10), 4).expect("not connected yet");
    assert_eq!(retry.attempts(), 0);
    app.register_connection(peer(10));
    assert!(app.start_connecting(&peer(10), 4).is_none());
    app.disconnect(&peer(10));
    assert!(app.start_connecting(&peer(10), 4).is_some());
}

#[test]
fn method_table_is_a_snapshot() {
    let mut app = App::new(1, peer(6969));
    app.offer_method(1, "one");
    let table = app.method_table();
    app.offer_method(2, "two");
    assert_eq!(table.len(), 1);
    assert_eq!(table.get(&1), Some(&"one"));
    assert!(table.get(&2).is_none());
    assert_eq!(app.offered_method(2), Some(&"two"));
}

#[test]
fn messages_keep_connections_methods_and_subscriptions() {
    let mut app = App::new(1, peer(6969));
    app.register_connection(peer(10));
    app.offer_method(3, "m");
    app.subscribe_event(peer(10), 4, 'e');
    app.offer_event(4);
    for kind in [RpcMessageType::Request, RpcMessageType::Response, RpcMessageType::Notification, RpcMessageType::Unsubscribe] {
        app.handle_message(packet(kind, 4, 0, RpcReturnCode::Success, vec![]), peer(10));
    }
    assert!(app.is_connected(&peer(10)));
    assert_eq!(app.offered_method(3), Some(&"m"));
    assert_eq!(app.subscribed_event(4), Some(&'e'));
}
