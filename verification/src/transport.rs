//! The multiplexing state of one connection: which session objects the
//! daemon can address and which calls wait for their response.
//!
//! The transport decides; it does not read or write. The embedding program
//! hands every inbound envelope to [`Transport::dispatch`] and acts on the
//! [`Delivery`] that comes back.

use vstd::prelude::*;
use crate::correlation::{PendingCalls, PendingCallsView};
use crate::message::{BaseMessage, BaseMessageKind, Outgoing, TrackerId};
use crate::registry::SessionRegistry;

verus! {

/// What is to be done with an inbound envelope.
#[derive(Debug, PartialEq, Eq)]
pub enum Delivery<R> {
    /// Hand the request to the session object registered under
    /// `(service, object)`; its response quotes `request_id`.
    Request { service: TrackerId, object: TrackerId, request_id: u64 },
    /// Complete the call that waited under `request_id`: decode the content
    /// for `receiver` and deliver the outcome to it.
    Response { request_id: u64, receiver: R },
    /// Hand the event to the session object registered under
    /// `(service, object)`.
    Event { service: TrackerId, object: TrackerId },
    /// No session object is registered under the envelope's address: the
    /// envelope is dropped.
    UnknownDestination,
    /// The envelope is a response and no call waits under its id: the
    /// envelope is dropped.
    UnmatchedResponse,
}

/// Mathematical value of a [`Transport`].
pub struct TransportView<H, R> {
    pub sessions: Map<(TrackerId, TrackerId), H>,
    pub calls: PendingCallsView<R>,
}

impl<H, R> TransportView<H, R> {
    /// A connection on which nothing was registered or sent yet.
    pub open spec fn initial() -> Self {
        TransportView { sessions: Map::empty(), calls: PendingCallsView::initial() }
    }

    /// A connection on which nothing was registered or sent yet, and whose
    /// calls are numbered from `first_id` on.
    pub open spec fn starting_at(first_id: u64) -> Self {
        TransportView { sessions: Map::empty(), calls: PendingCallsView::starting_at(first_id) }
    }

    /// Every waiting call has an id that was handed out before.
    pub open spec fn wf(self) -> bool {
        self.calls.wf()
    }

    /// The transport after `handler` was registered under
    /// `(service, object)`.
    pub open spec fn register_session_object(
        self,
        service: TrackerId,
        object: TrackerId,
        handler: H,
    ) -> Self {
        TransportView { sessions: self.sessions.insert((service, object), handler), ..self }
    }

    /// The transport after the entry of `(service, object)` was removed.
    pub open spec fn unregister_session_object(self, service: TrackerId, object: TrackerId) -> Self {
        TransportView { sessions: self.sessions.remove((service, object)), ..self }
    }

    /// The transport after a call with `receiver` was sent.
    pub open spec fn send_request(self, receiver: R) -> Self {
        TransportView { calls: self.calls.register(receiver), ..self }
    }

    /// What is done with an inbound envelope addressed to
    /// `(service, object)`.
    ///
    /// The address is looked up first: an envelope for an address that is
    /// not registered is dropped, whatever its kind. A response then goes by
    /// its request id to the call that waits under it, never to the session
    /// object.
    pub open spec fn delivery(
        self,
        service: TrackerId,
        object: TrackerId,
        kind: BaseMessageKind,
    ) -> Delivery<R> {
        if !self.sessions.contains_key((service, object)) {
            Delivery::UnknownDestination
        } else {
            match kind {
                BaseMessageKind::Request(request_id) => Delivery::Request {
                    service,
                    object,
                    request_id,
                },
                BaseMessageKind::Event => Delivery::Event { service, object },
                BaseMessageKind::Response(request_id) => match self.calls.receiver(request_id) {
                    Some(receiver) => Delivery::Response { request_id, receiver },
                    None => Delivery::UnmatchedResponse,
                },
            }
        }
    }

    /// The transport after an inbound envelope addressed to
    /// `(service, object)` was dispatched: a response that found its call
    /// ends the wait of that call, nothing else changes anything.
    pub open spec fn dispatch(
        self,
        service: TrackerId,
        object: TrackerId,
        kind: BaseMessageKind,
    ) -> Self {
        match self.delivery(service, object, kind) {
            Delivery::Response { request_id, .. } => TransportView {
                calls: self.calls.complete(request_id),
                ..self
            },
            _ => self,
        }
    }
}

/// After a session object was unregistered, every envelope addressed to it
/// is dropped as having no destination, and changes nothing.
pub proof fn lemma_unregistered_is_unknown_destination<H, R>(
    transport: TransportView<H, R>,
    service: TrackerId,
    object: TrackerId,
    kind: BaseMessageKind,
)
    ensures
        transport.unregister_session_object(service, object).delivery(service, object, kind)
            == Delivery::<R>::UnknownDestination,
        transport.unregister_session_object(service, object).dispatch(service, object, kind)
            == transport.unregister_session_object(service, object),
        forall|s: TrackerId, o: TrackerId|
            (s, o) != (service, object) ==> #[trigger] transport.unregister_session_object(
                service,
                object,
            ).delivery(s, o, kind) == transport.delivery(s, o, kind),
{
}

/// A response addressed to a registered session object is delivered to the
/// receiver that waits under its request id and to no other, and only once:
/// after the dispatch no call waits under that id, every other call waits as
/// before, and the same response again is dropped as unmatched. A response
/// whose id belongs to no waiting call is dropped and changes nothing.
pub proof fn lemma_response_reaches_its_call_once<H, R>(
    transport: TransportView<H, R>,
    service: TrackerId,
    object: TrackerId,
    request_id: u64,
)
    requires
        transport.wf(),
        transport.sessions.contains_key((service, object)),
    ensures
        ({
            let kind = BaseMessageKind::Response(request_id);
            let after = transport.dispatch(service, object, kind);
            &&& after.wf()
            &&& after.sessions == transport.sessions
            &&& transport.delivery(service, object, kind) == match transport.calls.receiver(
                request_id,
            ) {
                Some(receiver) => Delivery::Response { request_id, receiver },
                None => Delivery::UnmatchedResponse,
            }
            &&& after.delivery(service, object, kind) == Delivery::<R>::UnmatchedResponse
            &&& forall|other: u64|
                other != request_id ==> #[trigger] after.calls.receiver(other)
                    == transport.calls.receiver(other)
            &&& transport.calls.receiver(request_id) is None ==> after == transport
        }),
{
    crate::correlation::lemma_response_delivered_once(transport.calls, request_id);
}

/// Registry and pending calls of one connection.
pub struct Transport<H, R> {
    sessions: SessionRegistry<H>,
    calls: PendingCalls<R>,
}

impl<H, R> View for Transport<H, R> {
    type V = TransportView<H, R>;

    closed spec fn view(&self) -> TransportView<H, R> {
        TransportView { sessions: self.sessions@, calls: self.calls@ }
    }
}

impl<H, R> Transport<H, R> {
    /// The state of a fresh connection.
    pub fn new() -> (transport: Self)
        ensures
            transport@ == TransportView::<H, R>::initial(),
            transport@.wf(),
    {
        Transport { sessions: SessionRegistry::new(), calls: PendingCalls::new() }
    }

    /// The state of a fresh connection whose calls are numbered from
    /// `first_id` on.
    pub fn starting_at(first_id: u64) -> (transport: Self)
        ensures
            transport@ == TransportView::<H, R>::starting_at(first_id),
            transport@.wf(),
    {
        Transport { sessions: SessionRegistry::new(), calls: PendingCalls::starting_at(first_id) }
    }

    /// Registers `handler` as the session object `(service, object)`.
    ///
    /// A handler registered under the same address before is replaced and
    /// handed out.
    pub fn register_session_object(
        &mut self,
        service: TrackerId,
        object: TrackerId,
        handler: H,
    ) -> (previous: Option<H>)
        ensures
            final(self)@ == old(self)@.register_session_object(service, object, handler),
            previous == (if old(self)@.sessions.contains_key((service, object)) {
                Some(old(self)@.sessions[(service, object)])
            } else {
                None
            }),
    {
        self.sessions.register(service, object, handler)
    }

    /// Removes the session object `(service, object)` and hands its handler
    /// out; changes nothing if there is none.
    pub fn unregister_session_object(&mut self, service: TrackerId, object: TrackerId) -> (removed:
        Option<H>)
        ensures
            final(self)@ == old(self)@.unregister_session_object(service, object),
            removed == (if old(self)@.sessions.contains_key((service, object)) {
                Some(old(self)@.sessions[(service, object)])
            } else {
                None
            }),
    {
        self.sessions.unregister(service, object)
    }

    /// The handler of the session object `(service, object)`, if it is
    /// registered.
    pub fn session_object(&self, service: TrackerId, object: TrackerId) -> (handler: Option<&H>)
        ensures
            match handler {
                Some(h) => self@.sessions.contains_key((service, object)) && *h
                    == self@.sessions[(service, object)],
                None => !self@.sessions.contains_key((service, object)),
            },
    {
        self.sessions.lookup(service, object)
    }

    /// Whether a call waits under `request_id`.
    pub fn is_pending(&self, request_id: u64) -> (pending: bool)
        ensures
            pending == self@.calls.calls.contains_key(request_id),
    {
        self.calls.is_pending(request_id)
    }

    /// Starts a call to the session object `(service, object)`.
    ///
    /// The call gets the next request id of the connection, `receiver` waits
    /// under that id, and the request envelope comes back for the caller to
    /// encode and write. Fails only when the request ids are used up: then
    /// nothing changes and the receiver comes back.
    pub fn send_request<P>(
        &mut self,
        service: TrackerId,
        object: TrackerId,
        payload: P,
        receiver: R,
    ) -> (sent: Result<Outgoing<P>, R>)
        ensures
            old(self)@.wf() ==> final(self)@.wf(),
            final(self)@ == old(self)@.send_request(receiver),
            sent == match old(self)@.calls.fresh_id() {
                Some(request_id) => Ok::<Outgoing<P>, R>(
                    Outgoing { service, object, kind: BaseMessageKind::Request(request_id), payload },
                ),
                None => Err::<Outgoing<P>, R>(receiver),
            },
    {
        match self.calls.register(receiver) {
            Ok(request_id) => Ok(
                Outgoing { service, object, kind: BaseMessageKind::Request(request_id), payload },
            ),
            Err(receiver) => Err(receiver),
        }
    }

    /// Decides what is done with the inbound envelope `message`.
    ///
    /// See [`TransportView::delivery`] for the rules. Only a response that
    /// finds its call changes the transport: that call no longer waits.
    pub fn dispatch(&mut self, message: &BaseMessage) -> (delivery: Delivery<R>)
        ensures
            old(self)@.wf() ==> final(self)@.wf(),
            delivery == old(self)@.delivery(message.service, message.object, message.kind),
            final(self)@ == old(self)@.dispatch(message.service, message.object, message.kind),
    {
        if !self.sessions.contains(message.service, message.object) {
            return Delivery::UnknownDestination;
        }
        match message.kind {
            BaseMessageKind::Request(request_id) => Delivery::Request {
                service: message.service,
                object: message.object,
                request_id,
            },
            BaseMessageKind::Event => Delivery::Event {
                service: message.service,
                object: message.object,
            },
            BaseMessageKind::Response(request_id) => {
                if self.calls.is_pending(request_id) {
                    match self.calls.complete(request_id) {
                        Some(receiver) => Delivery::Response { request_id, receiver },
                        None => Delivery::UnmatchedResponse,
                    }
                } else {
                    Delivery::UnmatchedResponse
                }
            },
        }
    }
}

} // verus!
