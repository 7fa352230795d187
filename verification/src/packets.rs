use vstd::prelude::*;

verus! {

/// What a packet asks of its receiver.
#[derive(Debug, Clone, Copy, PartialEq, Eq, Structural)]
pub enum RpcMessageType {
    /// Invokes a method, or subscribes to the event with the packet's method id.
    Request,
    /// Carries the payload of an event to a subscriber.
    Notification,
    /// Ends a subscription to the event with the packet's method id.
    Unsubscribe,
    /// Answers a request; it carries the request's id.
    Response,
}

/// Whether the operation that a response answers succeeded.
#[derive(Debug, Clone, Copy, PartialEq, Eq, Structural)]
pub enum RpcReturnCode {
    /// The operation succeeded (on the wire, the variant `Ok`).
    Success,
    /// The operation failed; the payload holds the encoded error.
    Error,
}

/// One message of the protocol.
#[derive(Debug, Clone)]
pub struct RpcPacket {
    /// Defines a service.
    pub service_id: u8,
    /// Defines a method or an event.
    pub method_id: u8,
    /// Defines a request: a response carries the id of the request it answers.
    pub request_id: u8,
    /// Defines the type of message.
    pub message_type: RpcMessageType,
    /// Defines the return code.
    pub return_code: RpcReturnCode,
    /// Contains the actual data.
    pub payload: Vec<u8>,
}

/// The error that a method hands back to the peer that invoked it.
#[derive(Debug, Clone)]
pub struct RpcErrorMessage {
    pub error_code: u8,
    pub error_message: String,
}

/// `p` has exactly the given header fields and payload.
pub open spec fn packet_is(
    p: RpcPacket,
    service_id: u8,
    method_id: u8,
    request_id: u8,
    message_type: RpcMessageType,
    return_code: RpcReturnCode,
    payload: Seq<u8>,
) -> bool {
    &&& p.service_id == service_id
    &&& p.method_id == method_id
    &&& p.request_id == request_id
    &&& p.message_type == message_type
    &&& p.return_code == return_code
    &&& p.payload@ == payload
}

impl RpcPacket {
    /// Builds a packet from its fields.
    pub fn new(
        service_id: u8,
        method_id: u8,
        request_id: u8,
        message_type: RpcMessageType,
        return_code: RpcReturnCode,
        payload: Vec<u8>,
    ) -> (packet: RpcPacket)
        ensures
            packet_is(
                packet,
                service_id,
                method_id,
                request_id,
                message_type,
                return_code,
                payload@,
            ),
    {
        RpcPacket { service_id, method_id, request_id, message_type, return_code, payload }
    }
}

} // verus!
