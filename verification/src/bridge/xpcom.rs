//! The bridge client as threads share it.
//!
//! Every function here takes the locks it needs, lets the client or the
//! transport do the work, and gives the locks back. What the work is, for a
//! given state, is said by the function that does it; here the state is
//! whatever the other threads left.

use vstd::prelude::*;
use crate::bridge::client::{CallStep, GeckoBridge, GeckoBridgeView};
use crate::bridge::tasks::{
    BridgeReceiver, BridgeRequest, GeckoBridgeTask, UdsTransport, UdsTransportView,
};
use crate::client_object::ClientObject;
use crate::message::{BaseMessage, TrackerId};
use crate::session::SessionHandler;
use crate::shared::{guarded, Shared};
use crate::task::{SidlCallTask, SidlError, ThreadPtrHandle};
use crate::transport::Delivery;

verus! {

/// The transport of one connection, shared by every client of the
/// connection and by the thread that reads it.
pub struct UdsConnection {
    transport: Shared<UdsTransport>,
}

impl UdsConnection {
    /// The transport of a fresh connection.
    pub fn new() -> (connection: Self) {
        UdsConnection { transport: Shared::adopt(UdsTransport::new()) }
    }

    /// Another handle on the same transport.
    pub fn share(&self) -> (other: Self)
        ensures
            other == *self,
    {
        UdsConnection { transport: self.transport.share() }
    }

    /// Decides what is done with the inbound envelope `message`, as
    /// [`crate::transport::Transport::dispatch`] does for the transport as it is when the lock
    /// is held.
    pub fn dispatch(&self, message: &BaseMessage) -> (delivery: Delivery<BridgeReceiver>)
        ensures
            exists|transport: UdsTransportView|
                delivery == #[trigger] transport.delivery(
                    message.service,
                    message.object,
                    message.kind,
                ),
    {
        let mut guard = self.transport.lock();
        let transport = guarded(&mut guard);
        let ghost before = transport@;
        let delivery = transport.dispatch(message);
        assert(delivery == before.delivery(message.service, message.object, message.kind));
        delivery
    }

    /// The session object registered under `(service, object)`, if there is
    /// one when the lock is held.
    pub fn session_object(&self, service: TrackerId, object: TrackerId) -> (handler: Option<
        SessionHandler,
    >)
        ensures
            exists|transport: UdsTransportView|
                handler == (if #[trigger] transport.sessions.contains_key((service, object)) {
                    Some(transport.sessions[(service, object)])
                } else {
                    None
                }),
    {
        let mut guard = self.transport.lock();
        let transport = guarded(&mut guard);
        let ghost before = transport@;
        let handler = match transport.session_object(service, object) {
            Some(handler) => Some(*handler),
            None => None,
        };
        assert(handler == (if before.sessions.contains_key((service, object)) {
            Some(before.sessions[(service, object)])
        } else {
            None
        }));
        handler
    }

    /// Registers `wrapper` as a session object under its own address.
    pub fn register(&self, wrapper: SessionHandler) -> (object: ClientObject)
        ensures
            (object.service_id, object.object_id) == wrapper.ids(),
    {
        let mut guard = self.transport.lock();
        ClientObject::new(wrapper, guarded(&mut guard))
    }

    /// Ends the registration that `object` stands for.
    pub fn unregister(&self, object: ClientObject) {
        let mut guard = self.transport.lock();
        object.release(guarded(&mut guard));
    }
}

/// The bridge service as the embedding program holds it: any thread may make
/// a call at any time.
pub struct GeckoBridgeXpcom {
    // The transport we are connected to.
    transport: UdsConnection,
    // Resolution state, the tasks queued while the service id is awaited, and
    // the client proper once the id is known: one lock for all three, so that
    // no task can be queued between the arrival of the id and the replay.
    state: Shared<GeckoBridge>,
}

impl GeckoBridgeXpcom {
    /// A bridge on the connection `transport`, or nothing if the connection
    /// could not be made.
    pub fn new(transport: Option<UdsConnection>) -> (bridge: Option<Self>)
        ensures
            bridge is Some <==> transport is Some,
    {
        match transport {
            Some(transport) => Some(
                GeckoBridgeXpcom { transport, state: Shared::adopt(GeckoBridge::new()) },
            ),
            None => None,
        }
    }

    /// Makes the call `task`, or queues it while the service id is not
    /// known: what [`GeckoBridge::call`] does for the bridge and the
    /// transport as they are when the locks are held.
    pub fn call(&self, task: GeckoBridgeTask) -> (step: Result<CallStep, SidlError>)
        ensures
            exists|bridge: GeckoBridgeView, transport: UdsTransportView|
                step == #[trigger] bridge.step(transport, task),
    {
        let mut state = self.state.lock();
        let mut wire = self.transport.transport.lock();
        let bridge = guarded(&mut state);
        let transport = guarded(&mut wire);
        let ghost bridge_before = bridge@;
        let ghost transport_before = transport@;
        let step = bridge.call(transport, task);
        assert(step == bridge_before.step(transport_before, task));
        step
    }

    /// Installs `delegate` as the card info manager delegate and reports
    /// the response of the service to `callback`.
    pub fn set_card_info_manager_delegate(
        &self,
        delegate: ThreadPtrHandle,
        callback: ThreadPtrHandle,
    ) -> (step: Result<CallStep, SidlError>)
        ensures
            exists|bridge: GeckoBridgeView, transport: UdsTransportView|
                step == #[trigger] bridge.step(
                    transport,
                    GeckoBridgeTask::SetCardInfoManagerDelegate(
                        (SidlCallTask { callback }, delegate),
                    ),
                ),
    {
        let task = (SidlCallTask::new(callback), delegate);
        self.call(GeckoBridgeTask::SetCardInfoManagerDelegate(task))
    }

    /// Installs `delegate` as the network manager delegate and reports the
    /// response of the service to `callback`.
    pub fn set_network_manager_delegate(
        &self,
        delegate: ThreadPtrHandle,
        callback: ThreadPtrHandle,
    ) -> (step: Result<CallStep, SidlError>)
        ensures
            exists|bridge: GeckoBridgeView, transport: UdsTransportView|
                step == #[trigger] bridge.step(
                    transport,
                    GeckoBridgeTask::SetNetworkManagerDelegate(
                        (SidlCallTask { callback }, delegate),
                    ),
                ),
    {
        let task = (SidlCallTask::new(callback), delegate);
        self.call(GeckoBridgeTask::SetNetworkManagerDelegate(task))
    }

    /// Installs `delegate` as the power manager delegate and reports the
    /// response of the service to `callback`.
    pub fn set_power_manager_delegate(
        &self,
        delegate: ThreadPtrHandle,
        callback: ThreadPtrHandle,
    ) -> (step: Result<CallStep, SidlError>)
        ensures
            exists|bridge: GeckoBridgeView, transport: UdsTransportView|
                step == #[trigger] bridge.step(
                    transport,
                    GeckoBridgeTask::SetPowerManagerDelegate((SidlCallTask { callback }, delegate)),
                ),
    {
        let task = (SidlCallTask::new(callback), delegate);
        self.call(GeckoBridgeTask::SetPowerManagerDelegate(task))
    }

    /// Tells the service that the preference `name` now has the string
    /// value `value`, and reports the response to `callback`.
    pub fn char_pref_changed(&self, name: String, value: String, callback: ThreadPtrHandle) -> (step:
        Result<CallStep, SidlError>)
        ensures
            exists|bridge: GeckoBridgeView, transport: UdsTransportView|
                step == #[trigger] bridge.step(
                    transport,
                    GeckoBridgeTask::CharPrefChanged((SidlCallTask { callback }, (name, value))),
                ),
    {
        let task = (SidlCallTask::new(callback), (name, value));
        self.call(GeckoBridgeTask::CharPrefChanged(task))
    }

    /// Tells the service that the preference `name` now has the integer
    /// value `value`, and reports the response to `callback`.
    pub fn int_pref_changed(&self, name: String, value: i32, callback: ThreadPtrHandle) -> (step:
        Result<CallStep, SidlError>)
        ensures
            exists|bridge: GeckoBridgeView, transport: UdsTransportView|
                step == #[trigger] bridge.step(
                    transport,
                    GeckoBridgeTask::IntPrefChanged((SidlCallTask { callback }, (name, value))),
                ),
    {
        let task = (SidlCallTask::new(callback), (name, value));
        self.call(GeckoBridgeTask::IntPrefChanged(task))
    }

    /// Tells the service that the preference `name` now has the boolean
    /// value `value`, and reports the response to `callback`.
    pub fn bool_pref_changed(&self, name: String, value: bool, callback: ThreadPtrHandle) -> (step:
        Result<CallStep, SidlError>)
        ensures
            exists|bridge: GeckoBridgeView, transport: UdsTransportView|
                step == #[trigger] bridge.step(
                    transport,
                    GeckoBridgeTask::BoolPrefChanged((SidlCallTask { callback }, (name, value))),
                ),
    {
        let task = (SidlCallTask::new(callback), (name, value));
        self.call(GeckoBridgeTask::BoolPrefChanged(task))
    }

    /// Takes the directory's answer `service_id`: what
    /// [`GeckoBridge::service_resolved`] does for the bridge and the
    /// transport as they are when the locks are held.
    pub fn service_resolved(&self, service_id: TrackerId) -> (sent: Vec<BridgeRequest>)
        ensures
            exists|bridge: GeckoBridgeView, transport: UdsTransportView|
                sent@ == #[trigger] bridge.sent_when_resolved(transport, service_id),
    {
        let mut state = self.state.lock();
        let mut wire = self.transport.transport.lock();
        let bridge = guarded(&mut state);
        let transport = guarded(&mut wire);
        let ghost bridge_before = bridge@;
        let ghost transport_before = transport@;
        let sent = bridge.service_resolved(transport, service_id);
        assert(sent@ == bridge_before.sent_when_resolved(transport_before, service_id));
        sent
    }

    /// Takes note that the directory did not answer with an id.
    pub fn resolution_failed(&self) {
        let mut state = self.state.lock();
        guarded(&mut state).resolution_failed();
    }

    /// The service id, if the directory has answered when the lock is held.
    pub fn service_id(&self) -> (id: Option<TrackerId>) {
        let mut state = self.state.lock();
        guarded(&mut state).service_id()
    }

    /// Ends the bridge: the registrations of the client and of its
    /// delegates end, and calls that still wait in the queue are dropped.
    pub fn release(&self) {
        let mut state = self.state.lock();
        let mut wire = self.transport.transport.lock();
        guarded(&mut state).release(guarded(&mut wire));
    }
}

/// Makes the bridge for the connection `transport`; gives nothing if the
/// connection could not be made.
pub fn gecko_bridge_construct(transport: Option<UdsConnection>) -> (bridge: Option<GeckoBridgeXpcom>)
    ensures
        bridge is Some <==> transport is Some,
{
    GeckoBridgeXpcom::new(transport)
}

} // verus!
