use std::collections::HashMap;
use vstd::prelude::*;

use crate::packets::{packet_is, RpcMessageType, RpcPacket, RpcReturnCode};
use crate::peer::{PeerAddr, PeerSet};
use self::retry::ConnectRetry;
use self::util::generate_random_request_id;

pub mod retry;
pub mod util;

verus! {

broadcast use vstd::std_specs::hash::group_hash_axioms;

/// Who the application is: its service id and the address it listens on.
pub struct RpcConfig {
    service_id: u16,
    address: PeerAddr,
}

/// What the application has offered, who listens to it, and what it waits for.
///
/// `M` is the handler of an offered method, `R` the callback of a request that
/// waits for its response, `E` the callback of an event this application has
/// subscribed to. The library stores them and hands them back; it never runs them.
pub struct RpcState<M, R, E> {
    connected_sockets: PeerSet,
    offered_methods: HashMap<u8, M>,
    offered_events: HashMap<u8, PeerSet>,
    subscribed_events: HashMap<u8, E>,
    open_requests: HashMap<u8, R>,
}

/// One endpoint of the protocol: it offers methods and events, and calls the
/// methods and subscribes to the events of other peers.
pub struct RpcApplication<M, R, E> {
    config: RpcConfig,
    state: RpcState<M, R, E>,
}

/// The abstract state of an [`RpcApplication`].
#[verifier::ext_equal]
pub struct RpcModel<M, R, E> {
    pub service_id: u16,
    pub address: PeerAddr,
    /// Peers with an open connection.
    pub connected: Set<PeerAddr>,
    /// Offered methods, by method id.
    pub methods: Map<u8, M>,
    /// Offered events, by event id, each with the peers subscribed to it.
    pub events: Map<u8, Set<PeerAddr>>,
    /// Events of other peers this application listens to, by event id.
    pub subscriptions: Map<u8, E>,
    /// Requests that wait for their response, by request id.
    pub requests: Map<u8, R>,
}

/// What an incoming packet asks of the application, once its effect on the
/// state has been applied.
pub enum Incoming<R> {
    /// Run the method with `reply.method_id`, if one is offered, on `payload`,
    /// then send the reply that [`complete_request`] makes to the sender.
    Request { reply: RpcPacket, payload: Vec<u8> },
    /// Hand `result` to `callback`, the callback of the answered request if it
    /// was still open: `Ok` with the payload on success, `Err` with the
    /// encoded error message otherwise.
    Response { callback: Option<R>, result: Result<Vec<u8>, Vec<u8>> },
    /// Hand `payload` to the callback subscribed to `event_id`, if any.
    Notification { event_id: u8, payload: Vec<u8> },
    /// The sender's subscription has been ended; nothing is left to do.
    Unsubscribed,
}

/// `events` with `peer` added to the subscribers of `event_id`, when that event is offered.
pub open spec fn with_subscriber(
    events: Map<u8, Set<PeerAddr>>,
    event_id: u8,
    peer: PeerAddr,
) -> Map<u8, Set<PeerAddr>> {
    if events.contains_key(event_id) {
        events.insert(event_id, events[event_id].insert(peer))
    } else {
        events
    }
}

/// `events` with `peer` taken out of the subscribers of `event_id`, when that event is offered.
pub open spec fn without_subscriber(
    events: Map<u8, Set<PeerAddr>>,
    event_id: u8,
    peer: PeerAddr,
) -> Map<u8, Set<PeerAddr>> {
    if events.contains_key(event_id) {
        events.insert(event_id, events[event_id].remove(peer))
    } else {
        events
    }
}

/// `events` with `peer` taken out of the subscribers of every event.
pub open spec fn without_peer(events: Map<u8, Set<PeerAddr>>, peer: PeerAddr) -> Map<
    u8,
    Set<PeerAddr>,
> {
    events.map_values(|s: Set<PeerAddr>| s.remove(peer))
}

/// The result that a response hands to the callback of its request.
pub open spec fn response_result(return_code: RpcReturnCode, payload: Seq<u8>) -> Result<
    Seq<u8>,
    Seq<u8>,
> {
    match return_code {
        RpcReturnCode::Success => Ok(payload),
        RpcReturnCode::Error => Err(payload),
    }
}

/// An operation that changes the state of an application.
pub enum Operation<M, R, E> {
    /// `offer_method`
    OfferMethod { method_id: u8, callback: M },
    /// `offer_event`
    OfferEvent { event_id: u8 },
    /// `call_method`, under the request id it drew
    CallMethod { request_id: u8, callback: R },
    /// `subscribe_event`
    Subscribe { event_id: u8, callback: E },
    /// `unsubscribe_event`
    Unsubscribe { event_id: u8 },
    /// `register_connection`
    Connect { peer: PeerAddr },
    /// `disconnect`
    Disconnect { peer: PeerAddr },
    /// `handle_message`
    Message { packet: RpcPacket, from: PeerAddr },
}

impl<M, R, E> RpcModel<M, R, E> {
    /// The state after handling `packet` from `from`.
    pub open spec fn after_message(self, packet: RpcPacket, from: PeerAddr) -> Self {
        match packet.message_type {
            RpcMessageType::Request => RpcModel {
                events: with_subscriber(self.events, packet.method_id, from),
                ..self
            },
            RpcMessageType::Response => RpcModel {
                requests: self.requests.remove(packet.request_id),
                ..self
            },
            RpcMessageType::Notification => self,
            RpcMessageType::Unsubscribe => RpcModel {
                events: without_subscriber(self.events, packet.method_id, from),
                ..self
            },
        }
    }

    /// The state after `op`.
    pub open spec fn apply(self, op: Operation<M, R, E>) -> Self {
        match op {
            Operation::OfferMethod { method_id, callback } => RpcModel {
                methods: self.methods.insert(method_id, callback),
                ..self
            },
            Operation::OfferEvent { event_id } => RpcModel {
                events: self.events.insert(event_id, Set::empty()),
                ..self
            },
            Operation::CallMethod { request_id, callback } => RpcModel {
                requests: self.requests.insert(request_id, callback),
                ..self
            },
            Operation::Subscribe { event_id, callback } => RpcModel {
                subscriptions: self.subscriptions.insert(event_id, callback),
                ..self
            },
            Operation::Unsubscribe { event_id } => RpcModel {
                subscriptions: self.subscriptions.remove(event_id),
                ..self
            },
            Operation::Connect { peer } => RpcModel {
                connected: self.connected.insert(peer),
                ..self
            },
            Operation::Disconnect { peer } => RpcModel {
                connected: self.connected.remove(peer),
                events: without_peer(self.events, peer),
                ..self
            },
            Operation::Message { packet, from } => self.after_message(packet, from),
        }
    }

    /// The state after `ops`, in order.
    pub open spec fn apply_all(self, ops: Seq<Operation<M, R, E>>) -> Self
        decreases ops.len(),
    {
        if ops.len() == 0 {
            self
        } else {
            self.apply_all(ops.drop_last()).apply(ops.last())
        }
    }
}

impl<M, R, E> View for RpcApplication<M, R, E> {
    type V = RpcModel<M, R, E>;

    closed spec fn view(&self) -> RpcModel<M, R, E> {
        RpcModel {
            service_id: self.config.service_id,
            address: self.config.address,
            connected: self.state.connected_sockets@,
            methods: self.state.offered_methods@,
            events: self.state.offered_events@.map_values(|s: PeerSet| s@),
            subscriptions: self.state.subscribed_events@,
            requests: self.state.open_requests@,
        }
    }
}

impl<M, R, E> RpcApplication<M, R, E> {
    /// The inner sets hold no peer twice.
    pub closed spec fn wf(&self) -> bool {
        &&& self.state.connected_sockets.wf()
        &&& forall|k: u8| #[trigger]
            self.state.offered_events@.contains_key(k) ==> self.state.offered_events@[k].wf()
    }

    /// A fresh application: nothing offered, nothing subscribed, nothing connected.
    pub fn new(service_id: u16, address: PeerAddr) -> (app: Self)
        ensures
            app.wf(),
            app@ == (RpcModel::<M, R, E> {
                service_id,
                address,
                connected: Set::empty(),
                methods: Map::empty(),
                events: Map::empty(),
                subscriptions: Map::empty(),
                requests: Map::empty(),
            }),
    {
        let app = RpcApplication {
            config: RpcConfig { service_id, address },
            state: RpcState {
                connected_sockets: PeerSet::new(),
                offered_methods: HashMap::new(),
                offered_events: HashMap::new(),
                subscribed_events: HashMap::new(),
                open_requests: HashMap::new(),
            },
        };
        assert(app@.events =~= Map::empty());
        app
    }

    /// The service id as packets carry it: its low byte.
    fn wire_service_id(&self) -> (id: u8)
        ensures
            id == self@.service_id % 256,
    {
        (self.config.service_id % 256) as u8
    }

    /// Applies an incoming `packet` from `from` to the state and says what is left to do.
    ///
    /// A request for an offered event subscribes the sender to it; a response
    /// closes the request it answers; an unsubscribe ends the sender's
    /// subscription; a notification changes nothing.
    pub fn handle_message(&mut self, packet: RpcPacket, from: PeerAddr) -> (todo: Incoming<R>)
        requires
            old(self).wf(),
        ensures
            final(self).wf(),
            final(self)@ == old(self)@.apply((Operation::Message { packet, from })),
            match packet.message_type {
                RpcMessageType::Request => {
                    &&& final(self)@ == (RpcModel {
                        events: with_subscriber(old(self)@.events, packet.method_id, from),
                        ..old(self)@
                    })
                    &&& todo matches Incoming::Request { reply, payload } && payload@ == packet.payload@
                        && packet_is(
                        reply,
                        packet.service_id,
                        packet.method_id,
                        packet.request_id,
                        RpcMessageType::Response,
                        RpcReturnCode::Success,
                        Seq::empty(),
                    )
                },
                RpcMessageType::Response => {
                    &&& final(self)@ == (RpcModel {
                        requests: old(self)@.requests.remove(packet.request_id),
                        ..old(self)@
                    })
                    &&& todo matches Incoming::Response { callback, result } && callback == (
                    if old(self)@.requests.contains_key(packet.request_id) {
                        Some(old(self)@.requests[packet.request_id])
                    } else {
                        None
                    }) && match (result, response_result(packet.return_code, packet.payload@)) {
                        (Ok(v), Ok(w)) => v@ == w,
                        (Err(v), Err(w)) => v@ == w,
                        _ => false,
                    }
                    &&& todo matches Incoming::Response { result, .. } && (packet.return_code
                        == RpcReturnCode::Success ==> (result matches Ok(v) && v@ == packet.payload@))
                        && (packet.return_code == RpcReturnCode::Error ==> (result matches Err(v)
                        && v@ == packet.payload@))
                },
                RpcMessageType::Notification => {
                    &&& final(self)@ == old(self)@
                    &&& todo matches Incoming::Notification { event_id, payload } && event_id
                        == packet.method_id && payload@ == packet.payload@
                },
                RpcMessageType::Unsubscribe => {
                    &&& final(self)@ == (RpcModel {
                        events: without_subscriber(old(self)@.events, packet.method_id, from),
                        ..old(self)@
                    })
                    &&& todo matches Incoming::Unsubscribed
                },
            },
    {
        match packet.message_type {
            RpcMessageType::Request => {
                let reply = RpcPacket {
                    service_id: packet.service_id,
                    method_id: packet.method_id,
                    request_id: packet.request_id,
                    message_type: RpcMessageType::Response,
                    return_code: RpcReturnCode::Success,
                    payload: Vec::new(),
                };
                self.add_subscriber(packet.method_id, from);
                Incoming::Request { reply, payload: packet.payload }
            },
            RpcMessageType::Response => {
                let callback = self.state.open_requests.remove(&packet.request_id);
                assert(self@ =~= RpcModel {
                    requests: old(self)@.requests.remove(packet.request_id),
                    ..old(self)@
                });
                let result = match packet.return_code {
                    RpcReturnCode::Success => Ok(packet.payload),
                    RpcReturnCode::Error => Err(packet.payload),
                };
                Incoming::Response { callback, result }
            },
            RpcMessageType::Notification => {
                Incoming::Notification { event_id: packet.method_id, payload: packet.payload }
            },
            RpcMessageType::Unsubscribe => {
                self.drop_subscriber(packet.method_id, &from);
                Incoming::Unsubscribed
            },
        }
    }

    /// Adds `peer` to the subscribers of `event_id`, if that event is offered.
    fn add_subscriber(&mut self, event_id: u8, peer: PeerAddr)
        requires
            old(self).wf(),
        ensures
            final(self).wf(),
            final(self)@ == (RpcModel {
                events: with_subscriber(old(self)@.events, event_id, peer),
                ..old(self)@
            }),
    {
        if let Some(mut subscribers) = self.state.offered_events.remove(&event_id) {
            subscribers.insert(peer);
            self.state.offered_events.insert(event_id, subscribers);
            assert(self@.events =~= with_subscriber(old(self)@.events, event_id, peer));
        }
        assert(self@ =~= RpcModel {
            events: with_subscriber(old(self)@.events, event_id, peer),
            ..old(self)@
        });
    }

    /// Takes `peer` out of the subscribers of `event_id`, if that event is offered.
    fn drop_subscriber(&mut self, event_id: u8, peer: &PeerAddr)
        requires
            old(self).wf(),
        ensures
            final(self).wf(),
            final(self)@ == (RpcModel {
                events: without_subscriber(old(self)@.events, event_id, *peer),
                ..old(self)@
            }),
    {
        if let Some(mut subscribers) = self.state.offered_events.remove(&event_id) {
            subscribers.remove(peer);
            self.state.offered_events.insert(event_id, subscribers);
            assert(self@.events =~= without_subscriber(old(self)@.events, event_id, *peer));
        }
        assert(self@ =~= RpcModel {
            events: without_subscriber(old(self)@.events, event_id, *peer),
            ..old(self)@
        });
    }

    /// Offers a method under `method_id`; a method offered before under that id is replaced.
    pub fn offer_method(&mut self, method_id: u8, callback: M)
        requires
            old(self).wf(),
        ensures
            final(self).wf(),
            final(self)@ == old(self)@.apply((Operation::OfferMethod { method_id, callback })),
            final(self)@ == (RpcModel {
                methods: old(self)@.methods.insert(method_id, callback),
                ..old(self)@
            }),
    {
        self.state.offered_methods.insert(method_id, callback);
        assert(self@ =~= RpcModel {
            methods: old(self)@.methods.insert(method_id, callback),
            ..old(self)@
        });
    }

    /// The method offered under `method_id`, if any.
    pub fn offered_method(&self, method_id: u8) -> (method: Option<&M>)
        ensures
            match method {
                Some(m) => self@.methods.contains_key(method_id) && *m == self@.methods[method_id],
                None => !self@.methods.contains_key(method_id),
            },
    {
        self.state.offered_methods.get(&method_id)
    }

    /// Offers an event under `event_id`, with no subscribers; an event offered
    /// before under that id loses its subscribers.
    pub fn offer_event(&mut self, event_id: u8)
        requires
            old(self).wf(),
        ensures
            final(self).wf(),
            final(self)@ == old(self)@.apply((Operation::OfferEvent { event_id })),
            final(self)@ == (RpcModel {
                events: old(self)@.events.insert(event_id, Set::empty()),
                ..old(self)@
            }),
    {
        self.state.offered_events.insert(event_id, PeerSet::new());
        assert(self@ =~= RpcModel {
            events: old(self)@.events.insert(event_id, Set::empty()),
            ..old(self)@
        });
    }

    /// The callback of the subscription to `event_id`, if any.
    pub fn subscribed_event(&self, event_id: u8) -> (callback: Option<&E>)
        ensures
            match callback {
                Some(c) => self@.subscriptions.contains_key(event_id) && *c
                    == self@.subscriptions[event_id],
                None => !self@.subscriptions.contains_key(event_id),
            },
    {
        self.state.subscribed_events.get(&event_id)
    }

    /// The notifications of event `event_id` with `payload`: one to each of its
    /// subscribers, none when the event is not offered.
    pub fn call_event(&self, event_id: u8, payload: Vec<u8>) -> (out: Vec<(RpcPacket, PeerAddr)>)
        requires
            self.wf(),
        ensures
            !self@.events.contains_key(event_id) ==> out@.len() == 0,
            self@.events.contains_key(event_id) ==> {
                &&& out@.map_values(|m: (RpcPacket, PeerAddr)| m.1).no_duplicates()
                &&& out@.map_values(|m: (RpcPacket, PeerAddr)| m.1).to_set()
                    == self@.events[event_id]
            },
            forall|i: int|
                0 <= i < out@.len() ==> packet_is(
                    #[trigger] out@[i].0,
                    (self@.service_id % 256) as u8,
                    event_id,
                    0,
                    RpcMessageType::Notification,
                    RpcReturnCode::Success,
                    payload@,
                ),
    {
        let mut out: Vec<(RpcPacket, PeerAddr)> = Vec::new();
        if let Some(subscribers) = self.state.offered_events.get(&event_id) {
            let n = subscribers.len();
            let mut i: usize = 0;
            while i < n
                invariant
                    n == subscribers.members().len(),
                    i <= n,
                    out@.len() == i,
                    forall|j: int| 0 <= j < i ==> #[trigger] out@[j].1 == subscribers.members()[j],
                    forall|j: int|
                        0 <= j < i ==> packet_is(
                            #[trigger] out@[j].0,
                            (self@.service_id % 256) as u8,
                            event_id,
                            0,
                            RpcMessageType::Notification,
                            RpcReturnCode::Success,
                            payload@,
                        ),
                decreases n - i,
            {
                let data = payload.clone();
                assert(data@ =~= payload@);
                let notification = RpcPacket {
                    service_id: self.wire_service_id(),
                    method_id: event_id,
                    request_id: 0,
                    message_type: RpcMessageType::Notification,
                    return_code: RpcReturnCode::Success,
                    payload: data,
                };
                out.push((notification, subscribers.get(i)));
                i = i + 1;
            }
            assert(out@.map_values(|m: (RpcPacket, PeerAddr)| m.1) =~= subscribers.members());
        }
        out
    }

    /// Opens request `request_id` for method `method_id` of `peer`: `callback`
    /// waits for the response, and the request packet goes to `peer`.
    /// A request still open under the same id is replaced.
    pub fn call_method_with_id(
        &mut self,
        peer: PeerAddr,
        method_id: u8,
        request_id: u8,
        payload: Vec<u8>,
        callback: R,
    ) -> (out: (RpcPacket, PeerAddr))
        requires
            old(self).wf(),
        ensures
            final(self).wf(),
            final(self)@ == old(self)@.apply((Operation::CallMethod { request_id, callback })),
            final(self)@ == (RpcModel {
                requests: old(self)@.requests.insert(request_id, callback),
                ..old(self)@
            }),
            out.1 == peer,
            packet_is(
                out.0,
                (old(self)@.service_id % 256) as u8,
                method_id,
                request_id,
                RpcMessageType::Request,
                RpcReturnCode::Success,
                payload@,
            ),
    {
        self.state.open_requests.insert(request_id, callback);
        assert(self@ =~= RpcModel {
            requests: old(self)@.requests.insert(request_id, callback),
            ..old(self)@
        });
        let request = RpcPacket {
            service_id: self.wire_service_id(),
            method_id,
            request_id,
            message_type: RpcMessageType::Request,
            return_code: RpcReturnCode::Success,
            payload,
        };
        (request, peer)
    }

    /// Calls method `method_id` of `peer` under a random request id; `callback`
    /// waits for the response to that id.
    pub fn call_method(&mut self, peer: PeerAddr, method_id: u8, payload: Vec<u8>, callback: R) -> (out: (
        RpcPacket,
        PeerAddr,
    ))
        requires
            old(self).wf(),
        ensures
            final(self).wf(),
            final(self)@ == old(self)@.apply((Operation::CallMethod { request_id: out.0.request_id, callback })),
            final(self)@ == (RpcModel {
                requests: old(self)@.requests.insert(out.0.request_id, callback),
                ..old(self)@
            }),
            out.1 == peer,
            packet_is(
                out.0,
                (old(self)@.service_id % 256) as u8,
                method_id,
                out.0.request_id,
                RpcMessageType::Request,
                RpcReturnCode::Success,
                payload@,
            ),
    {
        let request_id = generate_random_request_id();
        self.call_method_with_id(peer, method_id, request_id, payload, callback)
    }

    /// Subscribes to event `event_id` of `peer`: `callback` receives its
    /// notifications, and a request for the event goes to `peer`.
    pub fn subscribe_event(&mut self, peer: PeerAddr, event_id: u8, callback: E) -> (out: (
        RpcPacket,
        PeerAddr,
    ))
        requires
            old(self).wf(),
        ensures
            final(self).wf(),
            final(self)@ == old(self)@.apply((Operation::Subscribe { event_id, callback })),
            final(self)@ == (RpcModel {
                subscriptions: old(self)@.subscriptions.insert(event_id, callback),
                ..old(self)@
            }),
            out.1 == peer,
            packet_is(
                out.0,
                (old(self)@.service_id % 256) as u8,
                event_id,
                out.0.request_id,
                RpcMessageType::Request,
                RpcReturnCode::Success,
                Seq::empty(),
            ),
    {
        let request_id = generate_random_request_id();
        let request = RpcPacket {
            service_id: self.wire_service_id(),
            method_id: event_id,
            request_id,
            message_type: RpcMessageType::Request,
            return_code: RpcReturnCode::Success,
            payload: Vec::new(),
        };
        self.state.subscribed_events.insert(event_id, callback);
        assert(self@ =~= RpcModel {
            subscriptions: old(self)@.subscriptions.insert(event_id, callback),
            ..old(self)@
        });
        (request, peer)
    }

    /// Ends the subscription to event `event_id` of `peer`: its callback is
    /// dropped, and an unsubscribe for the event goes to `peer`.
    pub fn unsubscribe_event(&mut self, peer: PeerAddr, event_id: u8) -> (out: (RpcPacket, PeerAddr))
        requires
            old(self).wf(),
        ensures
            final(self).wf(),
            final(self)@ == old(self)@.apply((Operation::Unsubscribe { event_id })),
            final(self)@ == (RpcModel {
                subscriptions: old(self)@.subscriptions.remove(event_id),
                ..old(self)@
            }),
            out.1 == peer,
            packet_is(
                out.0,
                (old(self)@.service_id % 256) as u8,
                event_id,
                out.0.request_id,
                RpcMessageType::Unsubscribe,
                RpcReturnCode::Success,
                Seq::empty(),
            ),
    {
        let request_id = generate_random_request_id();
        let request = RpcPacket {
            service_id: self.wire_service_id(),
            method_id: event_id,
            request_id,
            message_type: RpcMessageType::Unsubscribe,
            return_code: RpcReturnCode::Success,
            payload: Vec::new(),
        };
        self.state.subscribed_events.remove(&event_id);
        assert(self@ =~= RpcModel {
            subscriptions: old(self)@.subscriptions.remove(event_id),
            ..old(self)@
        });
        (request, peer)
    }

    /// Whether a connection to `peer` is open.
    pub fn is_connected(&self, peer: &PeerAddr) -> (b: bool)
        ensures
            b == self@.connected.contains(*peer),
    {
        self.state.connected_sockets.contains(peer)
    }

    /// The start of a wait for `peer`: `None` when a connection to it is
    /// already open, else a retry counter that allows `max_retry` failed attempts.
    pub fn start_connecting(&self, peer: &PeerAddr, max_retry: u32) -> (retry: Option<ConnectRetry>)
        ensures
            retry is None <==> self@.connected.contains(*peer),
            retry matches Some(r) ==> r.wf() && r.failures() == 0 && r.limit() == max_retry,
    {
        if self.is_connected(peer) {
            None
        } else {
            Some(ConnectRetry::new(max_retry))
        }
    }

    /// A copy of the table of offered methods, as it stands now.
    pub fn method_table(&self) -> (table: HashMap<u8, M>)
        where
            M: Clone,
        ensures
            table@ == self@.methods,
    {
        self.state.offered_methods.clone()
    }

    /// Records that a connection to `peer` is open.
    pub fn register_connection(&mut self, peer: PeerAddr)
        requires
            old(self).wf(),
        ensures
            final(self).wf(),
            final(self)@ == old(self)@.apply((Operation::Connect { peer })),
            final(self)@ == (RpcModel { connected: old(self)@.connected.insert(peer), ..old(self)@ }),
    {
        self.state.connected_sockets.insert(peer);
        assert(self@ =~= RpcModel { connected: old(self)@.connected.insert(peer), ..old(self)@ });
    }

    /// Forgets `peer` after its connection closed: it is no longer connected,
    /// and no longer subscribed to any event.
    pub fn disconnect(&mut self, peer: &PeerAddr)
        requires
            old(self).wf(),
        ensures
            final(self).wf(),
            final(self)@ == old(self)@.apply((Operation::Disconnect { peer: *peer })),
            final(self)@ == (RpcModel {
                connected: old(self)@.connected.remove(*peer),
                events: without_peer(old(self)@.events, *peer),
                ..old(self)@
            }),
    {
        self.state.connected_sockets.remove(peer);
        let ghost before = self.state.offered_events@;
        let mut key: u16 = 0;
        while key < 256
            invariant
                old(self).wf(),
                before == old(self).state.offered_events@,
                self.state.connected_sockets.wf(),
                self.state.connected_sockets@ == old(self)@.connected.remove(*peer),
                self.config == old(self).config,
                self.state.offered_methods == old(self).state.offered_methods,
                self.state.subscribed_events == old(self).state.subscribed_events,
                self.state.open_requests == old(self).state.open_requests,
                key <= 256,
                self.state.offered_events@.dom() == before.dom(),
                forall|k: u8| #[trigger]
                    self.state.offered_events@.contains_key(k) ==> self.state.offered_events@[k].wf(),
                forall|k: u8| #[trigger]
                    before.contains_key(k) ==> (if (k as u16) < key {
                        self.state.offered_events@[k]@ == before[k]@.remove(*peer)
                    } else {
                        self.state.offered_events@[k] == before[k]
                    }),
            decreases 256 - key,
        {
            let event_id = key as u8;
            if let Some(mut subscribers) = self.state.offered_events.remove(&event_id) {
                subscribers.remove(peer);
                self.state.offered_events.insert(event_id, subscribers);
            }
            key = key + 1;
        }
        assert(self@.events =~= without_peer(old(self)@.events, *peer));
        assert(self@ =~= RpcModel {
            connected: old(self)@.connected.remove(*peer),
            events: without_peer(old(self)@.events, *peer),
            ..old(self)@
        });
    }
}

/// The reply to a request, once its method has run: `outcome` is `None` when
/// no method was offered under the request's id, else what the method returned,
/// its error already encoded. A success carries the method's data, a failure
/// the error code and the encoded error; with no method the reply stays empty.
pub fn complete_request(reply: RpcPacket, outcome: Option<Result<Vec<u8>, Vec<u8>>>) -> (response:
    RpcPacket)
    ensures
        response.service_id == reply.service_id,
        response.method_id == reply.method_id,
        response.request_id == reply.request_id,
        response.message_type == reply.message_type,
        match outcome {
            None => response.return_code == reply.return_code && response.payload@
                == reply.payload@,
            Some(Ok(data)) => response.return_code == reply.return_code && response.payload@
                == data@,
            Some(Err(error)) => response.return_code == RpcReturnCode::Error && response.payload@
                == error@,
        },
{
    match outcome {
        None => reply,
        Some(Ok(data)) => RpcPacket { payload: data, ..reply },
        Some(Err(error)) => RpcPacket { return_code: RpcReturnCode::Error, payload: error, ..reply },
    }
}

} // verus!
