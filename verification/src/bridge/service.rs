//! The bridge client once its service id is known.

use vstd::prelude::*;
use crate::bridge::messages::{GeckoBridgeFromClient, GeckoBridgeMethod, ObjectRef};
use crate::bridge::tasks::{
    delegate_task, BridgeRequest, GeckoBridgeTask, OnBoolPrefChangedTask, OnCharPrefChangedTask,
    OnIntPrefChangedTask, SetCardInfoManagerDelegateTask, SetNetworkManagerDelegateTask,
    SetPowerManagerDelegateTask, UdsTransport, UdsTransportView,
};
use crate::client_object::ClientObject;
use crate::delegate::{DelegateRole, DelegateWrapper};
use crate::message::{BaseMessage, BaseMessageKind, Outgoing, TrackerId, SERVICE_OBJECT};
use crate::session::SessionHandler;
use crate::task::{SidlCallTask, SidlError, TaskReceiver, TaskSender, ThreadPtrHandle};

verus! {

/// Mathematical value of a [`GeckoBridgeImpl`].
pub struct GeckoBridgeImplView {
    pub service_id: TrackerId,
    pub current_object_id: TrackerId,
    pub power_manager_delegate: Option<ClientObject>,
    pub card_info_manager_delegate: Option<ClientObject>,
    pub network_manager_delegate: Option<ClientObject>,
}

/// The state of a bridge client and of its transport after some tasks ran,
/// with the requests that the tasks sent, in order.
pub struct BridgeRun {
    pub bridge: GeckoBridgeImplView,
    pub transport: UdsTransportView,
    pub sent: Seq<BridgeRequest>,
}

impl GeckoBridgeImplView {
    /// The client of the service `service_id` before it has made any call.
    /// The first delegate gets the object id 1: 0 is the service itself.
    pub open spec fn new(service_id: TrackerId) -> Self {
        GeckoBridgeImplView {
            service_id,
            current_object_id: 1,
            power_manager_delegate: None,
            card_info_manager_delegate: None,
            network_manager_delegate: None,
        }
    }

    /// Whether `object` can be a delegate of this client: it belongs to the
    /// client's service and has an object id that was handed out.
    pub open spec fn owns(self, object: Option<ClientObject>) -> bool {
        object matches Some(o) ==> o.service_id == self.service_id && 1 <= o.object_id
            < self.current_object_id
    }

    /// Object ids start at 1, and every delegate has an id that was handed
    /// out.
    pub open spec fn wf(self) -> bool {
        &&& self.current_object_id >= 1
        &&& self.owns(self.power_manager_delegate)
        &&& self.owns(self.card_info_manager_delegate)
        &&& self.owns(self.network_manager_delegate)
    }

    /// The registration of the delegate that plays `role`, if there is one.
    pub open spec fn delegate(self, role: DelegateRole) -> Option<ClientObject> {
        match role {
            DelegateRole::CardInfoManager => self.card_info_manager_delegate,
            DelegateRole::NetworkManager => self.network_manager_delegate,
            DelegateRole::PowerManager => self.power_manager_delegate,
        }
    }

    /// The client with `object` as the registration of the delegate that
    /// plays `role`.
    pub open spec fn with_delegate(self, role: DelegateRole, object: Option<ClientObject>) -> Self {
        match role {
            DelegateRole::CardInfoManager => GeckoBridgeImplView {
                card_info_manager_delegate: object,
                ..self
            },
            DelegateRole::NetworkManager => GeckoBridgeImplView {
                network_manager_delegate: object,
                ..self
            },
            DelegateRole::PowerManager => GeckoBridgeImplView {
                power_manager_delegate: object,
                ..self
            },
        }
    }

    /// The object id that the next delegate gets, unless the ids are used
    /// up.
    pub open spec fn next_object_id(self) -> Option<TrackerId> {
        if self.current_object_id < u32::MAX {
            Some(self.current_object_id)
        } else {
            None
        }
    }

    /// The client after an object id was handed out.
    pub open spec fn after_next_object_id(self) -> Self {
        if self.current_object_id < u32::MAX {
            GeckoBridgeImplView {
                current_object_id: (self.current_object_id + 1) as TrackerId,
                ..self
            }
        } else {
            self
        }
    }

    /// The object that the request of `task` is addressed to: a request that
    /// installs a delegate carries the object id that the delegate is given,
    /// every other request goes to the root object of the service.
    pub open spec fn target(self, task: GeckoBridgeTask) -> TrackerId {
        if task.delegate() is Some {
            self.current_object_id
        } else {
            SERVICE_OBJECT
        }
    }

    /// What running `task` gives: the request that it sends, under the next
    /// request id of the connection, or the reason why it cannot be sent.
    pub open spec fn outcome(self, transport: UdsTransportView, task: GeckoBridgeTask) -> Result<
        BridgeRequest,
        SidlError,
    > {
        if task.delegate() is Some && self.next_object_id() is None {
            Err(SidlError::ObjectIdsExhausted)
        } else {
            match transport.calls.fresh_id() {
                Some(request_id) => Ok(
                    Outgoing {
                        service: self.service_id,
                        object: self.target(task),
                        kind: BaseMessageKind::Request(request_id),
                        payload: task.request(self.current_object_id),
                    },
                ),
                None => Err(SidlError::RequestIdsExhausted),
            }
        }
    }

    /// The client after `task` ran. A task that installs a delegate uses up
    /// one object id and makes the new registration the one of its role. A
    /// task that could not be sent changes nothing.
    pub open spec fn bridge_after(self, transport: UdsTransportView, task: GeckoBridgeTask) -> Self {
        if self.outcome(transport, task) is Ok {
            match task.delegate() {
                Some((role, _)) => self.after_next_object_id().with_delegate(
                    role,
                    Some(
                        ClientObject {
                            service_id: self.service_id,
                            object_id: self.current_object_id,
                        },
                    ),
                ),
                None => self,
            }
        } else {
            self
        }
    }

    /// The transport after `task` ran. The receiver of the call waits under
    /// the request id. A task that installs a delegate registers it as a
    /// session object under its new object id, and ends the registration of
    /// the delegate that played the role before. A task that could not be
    /// sent changes nothing.
    pub open spec fn transport_after(
        self,
        transport: UdsTransportView,
        task: GeckoBridgeTask,
    ) -> UdsTransportView {
        if self.outcome(transport, task) is Ok {
            let sent = transport.send_request(task.receiver());
            match task.delegate() {
                Some((role, delegate)) => {
                    let registered = sent.register_session_object(
                        self.service_id,
                        self.current_object_id,
                        SessionHandler::Delegate(
                            DelegateWrapper {
                                role,
                                delegate,
                                service_id: self.service_id,
                                object_id: self.current_object_id,
                            },
                        ),
                    );
                    match self.delegate(role) {
                        Some(previous) => registered.unregister_session_object(
                            previous.service_id,
                            previous.object_id,
                        ),
                        None => registered,
                    }
                },
                None => sent,
            }
        } else {
            transport
        }
    }

    /// Client and transport after the tasks of `tasks` ran one after
    /// another, first to last, and the requests that they sent. A task that
    /// could not be sent is passed over.
    pub open spec fn run_tasks(self, transport: UdsTransportView, tasks: Seq<GeckoBridgeTask>) -> BridgeRun
        decreases tasks.len(),
    {
        if tasks.len() == 0 {
            BridgeRun { bridge: self, transport, sent: Seq::empty() }
        } else {
            let before = self.run_tasks(transport, tasks.drop_last());
            let task = tasks.last();
            BridgeRun {
                bridge: before.bridge.bridge_after(before.transport, task),
                transport: before.bridge.transport_after(before.transport, task),
                sent: match before.bridge.outcome(before.transport, task) {
                    Ok(request) => before.sent.push(request),
                    Err(_) => before.sent,
                },
            }
        }
    }
}

/// Running a task keeps client and transport well formed.
pub proof fn lemma_task_keeps_wf(
    bridge: GeckoBridgeImplView,
    transport: UdsTransportView,
    task: GeckoBridgeTask,
)
    requires
        bridge.wf(),
        transport.wf(),
    ensures
        bridge.bridge_after(transport, task).wf(),
        bridge.transport_after(transport, task).wf(),
        bridge.bridge_after(transport, task).service_id == bridge.service_id,
{
}

/// Running tasks keeps client and transport well formed.
pub proof fn lemma_tasks_keep_wf(
    bridge: GeckoBridgeImplView,
    transport: UdsTransportView,
    tasks: Seq<GeckoBridgeTask>,
)
    requires
        bridge.wf(),
        transport.wf(),
    ensures
        bridge.run_tasks(transport, tasks).bridge.wf(),
        bridge.run_tasks(transport, tasks).transport.wf(),
        bridge.run_tasks(transport, tasks).bridge.service_id == bridge.service_id,
    decreases tasks.len(),
{
    if tasks.len() > 0 {
        lemma_tasks_keep_wf(bridge, transport, tasks.drop_last());
        let before = bridge.run_tasks(transport, tasks.drop_last());
        lemma_task_keeps_wf(before.bridge, before.transport, tasks.last());
    }
}

impl GeckoBridgeImplView {
    /// The transport without `object`, if there is one.
    pub open spec fn without(transport: UdsTransportView, object: Option<ClientObject>) -> UdsTransportView {
        match object {
            Some(o) => transport.unregister_session_object(o.service_id, o.object_id),
            None => transport,
        }
    }

    /// The transport after the client ended: without the service root and
    /// without the client's delegates.
    pub open spec fn transport_after_release(self, transport: UdsTransportView) -> UdsTransportView {
        Self::without(
            Self::without(
                Self::without(
                    transport.unregister_session_object(self.service_id, SERVICE_OBJECT),
                    self.card_info_manager_delegate,
                ),
                self.network_manager_delegate,
            ),
            self.power_manager_delegate,
        )
    }

    /// The client after `n` object ids were handed out.
    pub open spec fn after_object_ids(self, n: nat) -> Self
        decreases n,
    {
        if n == 0 {
            self
        } else {
            self.after_object_ids((n - 1) as nat).after_next_object_id()
        }
    }
}

/// The object ids that one client hands out count up from 1: the id handed
/// out after `n` others is `n + 1`. No delegate ever gets 0, the id of the
/// service root.
pub proof fn lemma_object_ids_count_up_from_one(service_id: TrackerId, n: nat)
    requires
        n + 1 < u32::MAX,
    ensures
        GeckoBridgeImplView::new(service_id).after_object_ids(n).next_object_id() == Some(
            (n + 1) as TrackerId,
        ),
        GeckoBridgeImplView::new(service_id).after_object_ids(n).wf(),
        (SessionHandler::Service { service_id }).ids() == (service_id, SERVICE_OBJECT),
    decreases n,
{
    if n > 0 {
        lemma_object_ids_count_up_from_one(service_id, (n - 1) as nat);
    }
}

/// A task that installs a delegate gives it an object id that is at least 1
/// and larger than that of every delegate installed before, and registers it
/// under that id. The entry of the service root, object id 0, is never
/// touched.
pub proof fn lemma_delegate_ids_increase(
    bridge: GeckoBridgeImplView,
    transport: UdsTransportView,
    task: GeckoBridgeTask,
)
    requires
        bridge.wf(),
        transport.wf(),
        task.delegate() is Some,
        bridge.outcome(transport, task) is Ok,
    ensures
        ({
            let role = task.delegate().unwrap().0;
            let after = bridge.bridge_after(transport, task);
            let wire = bridge.transport_after(transport, task);
            let installed = after.delegate(role).unwrap();
            &&& after.delegate(role) is Some
            &&& installed.service_id == bridge.service_id
            &&& installed.object_id == bridge.current_object_id
            &&& installed.object_id >= 1
            &&& after.current_object_id == installed.object_id + 1
            &&& forall|other: DelegateRole| #[trigger]
                bridge.delegate(other) matches Some(earlier) ==> earlier.object_id
                    < installed.object_id
            &&& wire.sessions.contains_key((installed.service_id, installed.object_id))
            &&& wire.sessions[(installed.service_id, installed.object_id)].ids() == (
                installed.service_id,
                installed.object_id,
            )
            &&& wire.sessions.contains_key((bridge.service_id, SERVICE_OBJECT))
                == transport.sessions.contains_key((bridge.service_id, SERVICE_OBJECT))
        }),
{
}

/// Whether the ids suffice to run `n` more tasks: neither the object ids of
/// the client nor the request ids of the connection run out.
pub open spec fn ids_suffice(bridge: GeckoBridgeImplView, transport: UdsTransportView, n: nat) -> bool {
    bridge.current_object_id + n <= u32::MAX && transport.calls.next_id + n <= u64::MAX
}

/// Tasks that are replayed are run in their order, each exactly once: while
/// the ids suffice, the replay sends one request per task, the request of
/// the task at position `i` at position `i`; the requests carry consecutive
/// request ids, go to the service, and leave the task's receiver waiting
/// under the request id.
pub proof fn lemma_replay_runs_each_task_once_in_order(
    bridge: GeckoBridgeImplView,
    transport: UdsTransportView,
    tasks: Seq<GeckoBridgeTask>,
)
    requires
        bridge.wf(),
        transport.wf(),
        ids_suffice(bridge, transport, tasks.len()),
    ensures
        ({
            let run = bridge.run_tasks(transport, tasks);
            &&& run.sent.len() == tasks.len()
            &&& run.transport.calls.next_id == transport.calls.next_id + tasks.len()
            &&& run.bridge.current_object_id <= bridge.current_object_id + tasks.len()
            &&& forall|i: int|
                0 <= i < tasks.len() ==> {
                    let before = bridge.run_tasks(transport, tasks.take(i));
                    &&& (#[trigger] run.sent[i]).service == bridge.service_id
                    &&& run.sent[i].object == before.bridge.target(tasks[i])
                    &&& run.sent[i].kind == BaseMessageKind::Request(
                        (transport.calls.next_id + i) as u64,
                    )
                    &&& run.sent[i].payload == tasks[i].request(before.bridge.current_object_id)
                    &&& run.transport.calls.receiver((transport.calls.next_id + i) as u64) == Some(
                        tasks[i].receiver(),
                    )
                }
        }),
    decreases tasks.len(),
{
    if tasks.len() > 0 {
        let init = tasks.drop_last();
        let last = tasks.last();
        lemma_replay_runs_each_task_once_in_order(bridge, transport, init);
        lemma_tasks_keep_wf(bridge, transport, init);
        let before = bridge.run_tasks(transport, init);
        let run = bridge.run_tasks(transport, tasks);
        assert(before.bridge.outcome(before.transport, last) is Ok);
        assert forall|i: int| 0 <= i < tasks.len() implies {
            let prior = bridge.run_tasks(transport, tasks.take(i));
            &&& (#[trigger] run.sent[i]).service == bridge.service_id
            &&& run.sent[i].object == prior.bridge.target(tasks[i])
            &&& run.sent[i].kind == BaseMessageKind::Request((transport.calls.next_id + i) as u64)
            &&& run.sent[i].payload == tasks[i].request(prior.bridge.current_object_id)
            &&& run.transport.calls.receiver((transport.calls.next_id + i) as u64) == Some(
                tasks[i].receiver(),
            )
        } by {
            if i < init.len() {
                assert(init.take(i) == tasks.take(i));
                assert(run.sent[i] == before.sent[i]);
                assert(init[i] == tasks[i]);
            } else {
                assert(tasks.take(i) == init);
            }
        }
    }
}

/// The client of the bridge service once the service id is known. It is the
/// root session object of its service and owns the registrations of its
/// delegates.
pub struct GeckoBridgeImpl {
    // The service id of this instance.
    service_id: TrackerId,
    // The next usable object id when a delegate is created.
    current_object_id: TrackerId,
    // The power manager delegate.
    power_manager_delegate: Option<ClientObject>,
    // The card info manager delegate.
    card_info_manager_delegate: Option<ClientObject>,
    // The network manager delegate.
    network_manager_delegate: Option<ClientObject>,
}

impl View for GeckoBridgeImpl {
    type V = GeckoBridgeImplView;

    closed spec fn view(&self) -> GeckoBridgeImplView {
        GeckoBridgeImplView {
            service_id: self.service_id,
            current_object_id: self.current_object_id,
            power_manager_delegate: self.power_manager_delegate,
            card_info_manager_delegate: self.card_info_manager_delegate,
            network_manager_delegate: self.network_manager_delegate,
        }
    }
}

impl GeckoBridgeImpl {
    /// The client of the service `service_id`, before any call.
    pub fn new(service_id: TrackerId) -> (bridge: Self)
        ensures
            bridge@ == GeckoBridgeImplView::new(service_id),
            bridge@.wf(),
    {
        GeckoBridgeImpl {
            service_id,
            // current_object_id starts at 1 since 0 is reserved for the service object itself.
            current_object_id: 1,
            power_manager_delegate: None,
            card_info_manager_delegate: None,
            network_manager_delegate: None,
        }
    }

    /// The sender of the calls that go to the root object of the service.
    pub fn sender(&self) -> (sender: TaskSender)
        ensures
            sender == (TaskSender { service_id: self@.service_id, object_id: SERVICE_OBJECT }),
    {
        TaskSender::new(self.service_id, SERVICE_OBJECT)
    }

    /// Handles a request addressed to the service root: the bridge client
    /// expects none and ignores it.
    pub fn on_request(&mut self, request: BaseMessage, id: u64)
        ensures
            final(self)@ == old(self)@,
    {
    }

    /// Handles an event addressed to the service root: the bridge client
    /// expects none and ignores it.
    pub fn on_event(&mut self, event_data: Vec<u8>)
        ensures
            final(self)@ == old(self)@,
    {
    }

    /// The address of the client: its service id and the object id 0 of the
    /// service root.
    pub fn get_ids(&self) -> (ids: (TrackerId, TrackerId))
        ensures
            ids == (self@.service_id, SERVICE_OBJECT),
    {
        (self.service_id, SERVICE_OBJECT)
    }

    /// Hands out the next object id for a delegate.
    ///
    /// Ids come out in increasing order, each one larger by one than the one
    /// before, starting at 1. When they are used up nothing comes out and
    /// nothing changes.
    pub fn next_object_id(&mut self) -> (id: Option<TrackerId>)
        ensures
            id == old(self)@.next_object_id(),
            final(self)@ == old(self)@.after_next_object_id(),
    {
        if self.current_object_id < u32::MAX {
            let res: TrackerId = self.current_object_id;
            self.current_object_id = res + 1;
            Some(res)
        } else {
            None
        }
    }

    fn set_delegate(
        &mut self,
        transport: &mut UdsTransport,
        role: DelegateRole,
        task: (SidlCallTask, ThreadPtrHandle),
    ) -> (sent: Result<BridgeRequest, SidlError>)
        ensures
            old(self)@.wf() && old(transport)@.wf() ==> final(self)@.wf() && final(transport)@.wf(),
            sent == old(self)@.outcome(old(transport)@, delegate_task(role, task)),
            final(self)@ == old(self)@.bridge_after(old(transport)@, delegate_task(role, task)),
            final(transport)@ == old(self)@.transport_after(
                old(transport)@,
                delegate_task(role, task),
            ),
    {
        if self.current_object_id == u32::MAX {
            return Err(SidlError::ObjectIdsExhausted);
        }
        let object_id: TrackerId = self.current_object_id;
        let (task, delegate) = task;
        let (request, method) = match role {
            DelegateRole::CardInfoManager => (
                GeckoBridgeFromClient::GeckoFeaturesSetCardInfoManagerDelegate(ObjectRef(object_id)),
                GeckoBridgeMethod::SetCardInfoManagerDelegate,
            ),
            DelegateRole::NetworkManager => (
                GeckoBridgeFromClient::GeckoFeaturesSetNetworkManagerDelegate(ObjectRef(object_id)),
                GeckoBridgeMethod::SetNetworkManagerDelegate,
            ),
            DelegateRole::PowerManager => (
                GeckoBridgeFromClient::GeckoFeaturesSetPowerManagerDelegate(ObjectRef(object_id)),
                GeckoBridgeMethod::SetPowerManagerDelegate,
            ),
        };
        let sender = TaskSender::new(self.service_id, object_id);
        match sender.send_task(transport, request, TaskReceiver { method, task }) {
            Err(_) => Err(SidlError::RequestIdsExhausted),
            Ok(sent) => {
                self.next_object_id();
                // The wrapper is registered as a session object; the registration of the
                // delegate that it replaces ends.
                let wrapper = DelegateWrapper::new(role, delegate, self.service_id, object_id);
                let object = ClientObject::new(SessionHandler::Delegate(wrapper), transport);
                let previous = match role {
                    DelegateRole::CardInfoManager => {
                        let previous = self.card_info_manager_delegate;
                        self.card_info_manager_delegate = Some(object);
                        previous
                    },
                    DelegateRole::NetworkManager => {
                        let previous = self.network_manager_delegate;
                        self.network_manager_delegate = Some(object);
                        previous
                    },
                    DelegateRole::PowerManager => {
                        let previous = self.power_manager_delegate;
                        self.power_manager_delegate = Some(object);
                        previous
                    },
                };
                match previous {
                    Some(previous) => previous.release(transport),
                    None => {},
                }
                Ok(sent)
            },
        }
    }

    /// Installs the delegate of `task` as the card info manager delegate.
    ///
    /// The delegate gets the next object id of the client and is registered
    /// as a session object under it; the registration of the card info
    /// manager delegate that it replaces ends. The request is addressed to
    /// the new object and names it, and the task's callback waits for the
    /// response. If the object ids or the request ids are used up, the call
    /// fails and nothing changes.
    pub fn set_card_info_manager_delegate(
        &mut self,
        transport: &mut UdsTransport,
        task: SetCardInfoManagerDelegateTask,
    ) -> (sent: Result<BridgeRequest, SidlError>)
        ensures
            old(self)@.wf() && old(transport)@.wf() ==> final(self)@.wf() && final(transport)@.wf(),
            sent == old(self)@.outcome(
                old(transport)@,
                GeckoBridgeTask::SetCardInfoManagerDelegate(task),
            ),
            final(self)@ == old(self)@.bridge_after(
                old(transport)@,
                GeckoBridgeTask::SetCardInfoManagerDelegate(task),
            ),
            final(transport)@ == old(self)@.transport_after(
                old(transport)@,
                GeckoBridgeTask::SetCardInfoManagerDelegate(task),
            ),
    {
        self.set_delegate(transport, DelegateRole::CardInfoManager, task)
    }

    /// Installs the delegate of `task` as the network manager delegate; see
    /// [`GeckoBridgeImpl::set_card_info_manager_delegate`].
    pub fn set_network_manager_delegate(
        &mut self,
        transport: &mut UdsTransport,
        task: SetNetworkManagerDelegateTask,
    ) -> (sent: Result<BridgeRequest, SidlError>)
        ensures
            old(self)@.wf() && old(transport)@.wf() ==> final(self)@.wf() && final(transport)@.wf(),
            sent == old(self)@.outcome(
                old(transport)@,
                GeckoBridgeTask::SetNetworkManagerDelegate(task),
            ),
            final(self)@ == old(self)@.bridge_after(
                old(transport)@,
                GeckoBridgeTask::SetNetworkManagerDelegate(task),
            ),
            final(transport)@ == old(self)@.transport_after(
                old(transport)@,
                GeckoBridgeTask::SetNetworkManagerDelegate(task),
            ),
    {
        self.set_delegate(transport, DelegateRole::NetworkManager, task)
    }

    /// Installs the delegate of `task` as the power manager delegate; see
    /// [`GeckoBridgeImpl::set_card_info_manager_delegate`].
    pub fn set_power_manager_delegate(
        &mut self,
        transport: &mut UdsTransport,
        task: SetPowerManagerDelegateTask,
    ) -> (sent: Result<BridgeRequest, SidlError>)
        ensures
            old(self)@.wf() && old(transport)@.wf() ==> final(self)@.wf() && final(transport)@.wf(),
            sent == old(self)@.outcome(
                old(transport)@,
                GeckoBridgeTask::SetPowerManagerDelegate(task),
            ),
            final(self)@ == old(self)@.bridge_after(
                old(transport)@,
                GeckoBridgeTask::SetPowerManagerDelegate(task),
            ),
            final(transport)@ == old(self)@.transport_after(
                old(transport)@,
                GeckoBridgeTask::SetPowerManagerDelegate(task),
            ),
    {
        self.set_delegate(transport, DelegateRole::PowerManager, task)
    }

    /// Tells the service that the preference `task.1.0` now has the string
    /// value `task.1.1`.
    ///
    /// The request goes to the service root under the next request id, and
    /// the task's callback waits for the response. If the request ids are
    /// used up, the call fails and nothing changes.
    pub fn char_pref_changed(&mut self, transport: &mut UdsTransport, task: OnCharPrefChangedTask) -> (sent:
        Result<BridgeRequest, SidlError>)
        ensures
            old(self)@.wf() && old(transport)@.wf() ==> final(self)@.wf() && final(transport)@.wf(),
            sent == old(self)@.outcome(old(transport)@, GeckoBridgeTask::CharPrefChanged(task)),
            final(self)@ == old(self)@.bridge_after(
                old(transport)@,
                GeckoBridgeTask::CharPrefChanged(task),
            ),
            final(transport)@ == old(self)@.transport_after(
                old(transport)@,
                GeckoBridgeTask::CharPrefChanged(task),
            ),
    {
        let (task, (name, value)) = task;
        let request = GeckoBridgeFromClient::GeckoFeaturesCharPrefChanged(name, value);
        let receiver = TaskReceiver { method: GeckoBridgeMethod::CharPrefChanged, task };
        match self.sender().send_task(transport, request, receiver) {
            Ok(sent) => Ok(sent),
            Err(_) => Err(SidlError::RequestIdsExhausted),
        }
    }

    /// Tells the service that the preference `task.1.0` now has the integer
    /// value `task.1.1`; see [`GeckoBridgeImpl::char_pref_changed`].
    pub fn int_pref_changed(&mut self, transport: &mut UdsTransport, task: OnIntPrefChangedTask) -> (sent:
        Result<BridgeRequest, SidlError>)
        ensures
            old(self)@.wf() && old(transport)@.wf() ==> final(self)@.wf() && final(transport)@.wf(),
            sent == old(self)@.outcome(old(transport)@, GeckoBridgeTask::IntPrefChanged(task)),
            final(self)@ == old(self)@.bridge_after(
                old(transport)@,
                GeckoBridgeTask::IntPrefChanged(task),
            ),
            final(transport)@ == old(self)@.transport_after(
                old(transport)@,
                GeckoBridgeTask::IntPrefChanged(task),
            ),
    {
        let (task, (name, value)) = task;
        let request = GeckoBridgeFromClient::GeckoFeaturesIntPrefChanged(name, value as i64);
        let receiver = TaskReceiver { method: GeckoBridgeMethod::IntPrefChanged, task };
        match self.sender().send_task(transport, request, receiver) {
            Ok(sent) => Ok(sent),
            Err(_) => Err(SidlError::RequestIdsExhausted),
        }
    }

    /// Tells the service that the preference `task.1.0` now has the boolean
    /// value `task.1.1`; see [`GeckoBridgeImpl::char_pref_changed`].
    pub fn bool_pref_changed(&mut self, transport: &mut UdsTransport, task: OnBoolPrefChangedTask) -> (sent:
        Result<BridgeRequest, SidlError>)
        ensures
            old(self)@.wf() && old(transport)@.wf() ==> final(self)@.wf() && final(transport)@.wf(),
            sent == old(self)@.outcome(old(transport)@, GeckoBridgeTask::BoolPrefChanged(task)),
            final(self)@ == old(self)@.bridge_after(
                old(transport)@,
                GeckoBridgeTask::BoolPrefChanged(task),
            ),
            final(transport)@ == old(self)@.transport_after(
                old(transport)@,
                GeckoBridgeTask::BoolPrefChanged(task),
            ),
    {
        let (task, (name, value)) = task;
        let request = GeckoBridgeFromClient::GeckoFeaturesBoolPrefChanged(name, value);
        let receiver = TaskReceiver { method: GeckoBridgeMethod::BoolPrefChanged, task };
        match self.sender().send_task(transport, request, receiver) {
            Ok(sent) => Ok(sent),
            Err(_) => Err(SidlError::RequestIdsExhausted),
        }
    }

    /// Runs one task: makes the call that the task stands for.
    pub fn run_task(&mut self, transport: &mut UdsTransport, task: GeckoBridgeTask) -> (sent: Result<
        BridgeRequest,
        SidlError,
    >)
        ensures
            old(self)@.wf() && old(transport)@.wf() ==> final(self)@.wf() && final(transport)@.wf(),
            sent == old(self)@.outcome(old(transport)@, task),
            final(self)@ == old(self)@.bridge_after(old(transport)@, task),
            final(transport)@ == old(self)@.transport_after(old(transport)@, task),
    {
        match task {
            GeckoBridgeTask::SetCardInfoManagerDelegate(task) => {
                self.set_card_info_manager_delegate(transport, task)
            },
            GeckoBridgeTask::SetNetworkManagerDelegate(task) => {
                self.set_network_manager_delegate(transport, task)
            },
            GeckoBridgeTask::SetPowerManagerDelegate(task) => {
                self.set_power_manager_delegate(transport, task)
            },
            GeckoBridgeTask::CharPrefChanged(task) => self.char_pref_changed(transport, task),
            GeckoBridgeTask::IntPrefChanged(task) => self.int_pref_changed(transport, task),
            GeckoBridgeTask::BoolPrefChanged(task) => self.bool_pref_changed(transport, task),
        }
    }

    /// Runs the tasks of `queue`, first to last, each exactly once.
    ///
    /// The result holds the requests that the tasks sent, in the order of
    /// the tasks. A task that cannot be sent is passed over and the tasks
    /// behind it still run.
    pub fn dispatch_queue(&mut self, transport: &mut UdsTransport, queue: Vec<GeckoBridgeTask>) -> (sent:
        Vec<BridgeRequest>)
        ensures
            old(self)@.wf() && old(transport)@.wf() ==> final(self)@.wf() && final(transport)@.wf(),
            final(self)@ == old(self)@.run_tasks(old(transport)@, queue@).bridge,
            final(transport)@ == old(self)@.run_tasks(old(transport)@, queue@).transport,
            sent@ == old(self)@.run_tasks(old(transport)@, queue@).sent,
    {
        let ghost bridge = self@;
        let ghost wire = transport@;
        let ghost tasks = queue@;
        let mut sent: Vec<BridgeRequest> = Vec::new();
        // drain the queue.
        for task in iter: queue.into_iter()
            invariant
                iter.seq() == tasks,
                self@ == bridge.run_tasks(wire, tasks.take(iter.index() as int)).bridge,
                transport@ == bridge.run_tasks(wire, tasks.take(iter.index() as int)).transport,
                sent@ == bridge.run_tasks(wire, tasks.take(iter.index() as int)).sent,
        {
            proof {
                let done = tasks.take(iter.index() + 1);
                assert(done.drop_last() == tasks.take(iter.index() as int));
                assert(done.last() == task);
            }
            match self.run_task(transport, task) {
                Ok(request) => {
                    sent.push(request);
                },
                Err(_) => {},
            }
        }
        proof {
            assert(tasks.take(tasks.len() as int) == tasks);
            if bridge.wf() && wire.wf() {
                lemma_tasks_keep_wf(bridge, wire, tasks);
            }
        }
        sent
    }

    /// Ends the client: the registrations of the service root and of every
    /// delegate of the client end. Calls that still wait stay as they are.
    pub fn release(self, transport: &mut UdsTransport)
        ensures
            final(transport)@ == self@.transport_after_release(old(transport)@),
    {
        transport.unregister_session_object(self.service_id, SERVICE_OBJECT);
        match self.card_info_manager_delegate {
            Some(object) => object.release(transport),
            None => {},
        }
        match self.network_manager_delegate {
            Some(object) => object.release(transport),
            None => {},
        }
        match self.power_manager_delegate {
            Some(object) => object.release(transport),
            None => {},
        }
    }

    /// The id of the service.
    pub fn service_id(&self) -> (id: TrackerId)
        ensures
            id == self@.service_id,
    {
        self.service_id
    }

    /// The object id that the next delegate gets.
    pub fn current_object_id(&self) -> (id: TrackerId)
        ensures
            id == self@.current_object_id,
    {
        self.current_object_id
    }

    /// The registration of the delegate that plays `role`, if there is one.
    pub fn delegate(&self, role: DelegateRole) -> (object: Option<ClientObject>)
        ensures
            object == self@.delegate(role),
    {
        match role {
            DelegateRole::CardInfoManager => self.card_info_manager_delegate,
            DelegateRole::NetworkManager => self.network_manager_delegate,
            DelegateRole::PowerManager => self.power_manager_delegate,
        }
    }
}

} // verus!
