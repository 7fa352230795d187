use simplerpcrs::packets::{RpcMessageType, RpcPacket, RpcReturnCode};

#[test]
fn new_packet_keeps_every_field() {
    let p = RpcPacket::new(1, 2, 3, RpcMessageType::Unsubscribe, RpcReturnCode::Error, vec![9, 8]);
    assert_eq!(p.service_id, 1);
    assert_eq!(p.method_id, 2);
    assert_eq!(p.request_id, 3);
    assert_eq!(p.message_type, RpcMessageType::Unsubscribe);
    assert_eq!(p.return_code, RpcReturnCode::Error);
    assert_eq!(p.payload, vec![9, 8]);
}
