use vstd::prelude::*;

use crate::application::retry::retries_after;
use crate::application::{response_result, with_subscriber, without_peer, without_subscriber, Operation, RpcModel};
use crate::packets::{RpcMessageType, RpcPacket, RpcReturnCode};
use crate::peer::PeerAddr;

verus! {

/// A request from `peer` for an offered event makes `peer` one of its
/// subscribers, so that the next notifications of that event reach `peer`;
/// the other events keep their subscribers, and no event is offered by it.
pub proof fn lemma_subscribe_reaches_peer(
    events: Map<u8, Set<PeerAddr>>,
    event_id: u8,
    peer: PeerAddr,
)
    requires
        events.contains_key(event_id),
    ensures
        with_subscriber(events, event_id, peer).dom() == events.dom(),
        with_subscriber(events, event_id, peer)[event_id].contains(peer),
        with_subscriber(events, event_id, peer)[event_id] == events[event_id].insert(peer),
        forall|k: u8|
            k != event_id && events.contains_key(k) ==> #[trigger] with_subscriber(
                events,
                event_id,
                peer,
            )[k] == events[k],
{
    assert(with_subscriber(events, event_id, peer).dom() =~= events.dom());
}

/// A request for an event that is not offered subscribes nobody.
pub proof fn lemma_subscribe_unoffered_is_noop(
    events: Map<u8, Set<PeerAddr>>,
    event_id: u8,
    peer: PeerAddr,
)
    requires
        !events.contains_key(event_id),
    ensures
        with_subscriber(events, event_id, peer) == events,
        without_subscriber(events, event_id, peer) == events,
{
}

/// Unsubscribing undoes subscribing: a peer that subscribes and then
/// unsubscribes leaves the subscribers as they were without it, and exactly as
/// they were when it had not subscribed before.
pub proof fn lemma_unsubscribe_undoes_subscribe(
    events: Map<u8, Set<PeerAddr>>,
    event_id: u8,
    peer: PeerAddr,
)
    ensures
        without_subscriber(with_subscriber(events, event_id, peer), event_id, peer)
            == without_subscriber(events, event_id, peer),
        events.contains_key(event_id) && !events[event_id].contains(peer) ==> without_subscriber(
            with_subscriber(events, event_id, peer),
            event_id,
            peer,
        ) == events,
        without_subscriber(events, event_id, peer).contains_key(event_id) ==> !without_subscriber(
            events,
            event_id,
            peer,
        )[event_id].contains(peer),
{
    if events.contains_key(event_id) {
        assert(events[event_id].insert(peer).remove(peer) =~= events[event_id].remove(peer));
        assert(without_subscriber(with_subscriber(events, event_id, peer), event_id, peer)
            =~= without_subscriber(events, event_id, peer));
        if !events[event_id].contains(peer) {
            assert(events[event_id].remove(peer) =~= events[event_id]);
            assert(without_subscriber(events, event_id, peer) =~= events);
        }
    }
}

/// After a peer disconnects, no event lists it as a subscriber, every event
/// stays offered with its other subscribers, and a second disconnect of the
/// same peer changes nothing.
pub proof fn lemma_disconnect_forgets_peer(events: Map<u8, Set<PeerAddr>>, peer: PeerAddr)
    ensures
        without_peer(events, peer).dom() == events.dom(),
        forall|k: u8| #[trigger]
            without_peer(events, peer).contains_key(k) ==> !without_peer(events, peer)[k].contains(
                peer,
            ),
        forall|k: u8, q: PeerAddr|
            events.contains_key(k) && q != peer ==> (#[trigger] without_peer(events, peer)[k].contains(q)
                <==> events[k].contains(q)),
        without_peer(without_peer(events, peer), peer) == without_peer(events, peer),
{
    assert(without_peer(events, peer).dom() =~= events.dom());
    let once = without_peer(events, peer);
    assert forall|k: u8| #[trigger] once.contains_key(k) implies once[k].remove(peer) == once[k] by {
        assert(once[k].remove(peer) =~= once[k]);
    }
    assert(without_peer(once, peer) =~= once);
}

/// A request registered under `request_id` is handed back by the first
/// response with that id, and is closed by it: a second response with the same
/// id finds no request.
pub proof fn lemma_response_closes_request<R>(requests: Map<u8, R>, request_id: u8, callback: R)
    ensures
        requests.insert(request_id, callback).contains_key(request_id),
        requests.insert(request_id, callback)[request_id] == callback,
        !requests.insert(request_id, callback).remove(request_id).contains_key(request_id),
        requests.insert(request_id, callback).remove(request_id) == requests.remove(request_id),
{
    assert(requests.insert(request_id, callback).remove(request_id) =~= requests.remove(
        request_id,
    ));
}

/// Ending a subscription to an event undoes subscribing to it.
pub proof fn lemma_unsubscribe_event_undoes_subscribe_event<E>(
    subscriptions: Map<u8, E>,
    event_id: u8,
    callback: E,
)
    ensures
        subscriptions.insert(event_id, callback).remove(event_id) == subscriptions.remove(
            event_id,
        ),
        !subscriptions.insert(event_id, callback).remove(event_id).contains_key(event_id),
{
    assert(subscriptions.insert(event_id, callback).remove(event_id) =~= subscriptions.remove(
        event_id,
    ));
}

/// The number of failed attempts after which a peer is given up: `max_retry`,
/// but at least one.
pub open spec fn attempt_limit(max_retry: u32) -> int {
    if max_retry == 0 {
        1
    } else {
        max_retry as int
    }
}

/// When every attempt to reach a peer fails, the peer is tried exactly
/// `attempt_limit(max_retry)` times: each failure before that one retries, and
/// that one gives up.
pub proof fn lemma_attempts_are_bounded(max_retry: u32, failed: int)
    requires
        failed >= 1,
    ensures
        retries_after(failed, max_retry) <==> failed < attempt_limit(max_retry),
{
}

/// `op` disconnects `peer`.
pub open spec fn disconnects<M, R, E>(op: Operation<M, R, E>, peer: PeerAddr) -> bool {
    match op {
        Operation::Disconnect { peer: q } => q == peer,
        _ => false,
    }
}

/// Applying two runs of operations one after the other is applying the whole run.
pub proof fn lemma_apply_all_append<M, R, E>(
    m: RpcModel<M, R, E>,
    a: Seq<Operation<M, R, E>>,
    b: Seq<Operation<M, R, E>>,
)
    ensures
        m.apply_all(a + b) == m.apply_all(a).apply_all(b),
    decreases b.len(),
{
    if b.len() == 0 {
        assert(a + b =~= a);
    } else {
        lemma_apply_all_append(m, a, b.drop_last());
        assert((a + b).drop_last() =~= a + b.drop_last());
        assert((a + b).last() == b.last());
    }
}

/// A connected peer stays connected through any run of operations in which
/// none disconnects it.
pub proof fn lemma_stays_connected<M, R, E>(
    m: RpcModel<M, R, E>,
    ops: Seq<Operation<M, R, E>>,
    peer: PeerAddr,
)
    requires
        m.connected.contains(peer),
        forall|i: int| 0 <= i < ops.len() ==> !disconnects(#[trigger] ops[i], peer),
    ensures
        m.apply_all(ops).connected.contains(peer),
    decreases ops.len(),
{
    if ops.len() > 0 {
        let rest = ops.drop_last();
        assert forall|i: int| 0 <= i < rest.len() implies !disconnects(#[trigger] rest[i], peer) by {
            assert(rest[i] == ops[i]);
        }
        lemma_stays_connected(m, rest, peer);
        assert(!disconnects(ops[ops.len() - 1], peer));
    }
}

/// A peer whose connection is registered stays connected until it disconnects:
/// after any run of operations in which the registration is followed by no
/// disconnect of that peer, the peer is connected.
pub proof fn lemma_connected_until_disconnect<M, R, E>(
    m: RpcModel<M, R, E>,
    ops: Seq<Operation<M, R, E>>,
    k: int,
    peer: PeerAddr,
)
    requires
        0 <= k < ops.len(),
        ops[k] == (Operation::<M, R, E>::Connect { peer }),
        forall|i: int| k < i < ops.len() ==> !disconnects(#[trigger] ops[i], peer),
    ensures
        m.apply_all(ops).connected.contains(peer),
{
    let head = ops.take(k + 1);
    let tail = ops.skip(k + 1);
    assert(ops =~= head + tail);
    lemma_apply_all_append(m, head, tail);
    assert(head.drop_last() =~= ops.take(k));
    assert(m.apply_all(head).connected.contains(peer));
    assert forall|i: int| 0 <= i < tail.len() implies !disconnects(#[trigger] tail[i], peer) by {
        assert(tail[i] == ops[k + 1 + i]);
    }
    lemma_stays_connected(m.apply_all(head), tail, peer);
}

/// Handling any run of incoming packets never changes who the application is,
/// which peers are connected, which methods it offers, or which events of other
/// peers it listens to: packets change only subscribers and open requests.
pub proof fn lemma_messages_keep_registrations<M, R, E>(
    m: RpcModel<M, R, E>,
    ops: Seq<Operation<M, R, E>>,
)
    requires
        forall|i: int| 0 <= i < ops.len() ==> #[trigger] ops[i] is Message,
    ensures
        m.apply_all(ops).service_id == m.service_id,
        m.apply_all(ops).address == m.address,
        m.apply_all(ops).connected == m.connected,
        m.apply_all(ops).methods == m.methods,
        m.apply_all(ops).subscriptions == m.subscriptions,
    decreases ops.len(),
{
    if ops.len() > 0 {
        let rest = ops.drop_last();
        assert forall|i: int| 0 <= i < rest.len() implies #[trigger] rest[i] is Message by {
            assert(rest[i] == ops[i]);
        }
        lemma_messages_keep_registrations(m, rest);
        assert(ops[ops.len() - 1] is Message);
    }
}

/// A response reports success exactly when its return code is `Success`: its
/// request's callback gets `Ok` of the payload, whatever the payload, the empty
/// one included; with return code `Error` it gets `Err` of the payload.
pub proof fn lemma_response_result_follows_return_code(payload: Seq<u8>)
    ensures
        response_result(RpcReturnCode::Success, payload) == Ok::<Seq<u8>, Seq<u8>>(payload),
        response_result(RpcReturnCode::Error, payload) == Err::<Seq<u8>, Seq<u8>>(payload),
        response_result(RpcReturnCode::Success, payload) is Ok,
        response_result(RpcReturnCode::Error, payload) is Err,
{
}

/// Two requests opened under different ids are both open, each with its own
/// callback; a response to the first hands back the first callback and leaves
/// the second open, and a later response to the second hands back the second.
pub proof fn lemma_requests_answered_by_id<M, R, E>(
    m: RpcModel<M, R, E>,
    first_id: u8,
    first: R,
    second_id: u8,
    second: R,
    first_response: RpcPacket,
    second_response: RpcPacket,
    from: PeerAddr,
)
    requires
        first_id != second_id,
        first_response.message_type == RpcMessageType::Response,
        first_response.request_id == first_id,
        second_response.message_type == RpcMessageType::Response,
        second_response.request_id == second_id,
    ensures
        ({
            let opened = m.apply(Operation::CallMethod { request_id: first_id, callback: first }).apply(
                Operation::CallMethod { request_id: second_id, callback: second },
            );
            let answered = opened.apply(Operation::Message { packet: first_response, from });
            &&& opened.requests.contains_key(first_id)
            &&& opened.requests[first_id] == first
            &&& opened.requests.contains_key(second_id)
            &&& opened.requests[second_id] == second
            &&& !answered.requests.contains_key(first_id)
            &&& answered.requests.contains_key(second_id)
            &&& answered.requests[second_id] == second
            &&& !answered.apply(Operation::Message { packet: second_response, from }).requests.contains_key(
                second_id,
            )
        }),
{
}

} // verus!
