//! The bridge client from its first call on: before the service id is known
//! calls wait, afterwards they are made at once.

use vstd::prelude::*;
use crate::bridge::service::{
    ids_suffice, lemma_replay_runs_each_task_once_in_order, lemma_tasks_keep_wf, BridgeRun,
    GeckoBridgeImpl, GeckoBridgeImplView,
};
use crate::bridge::tasks::{BridgeRequest, GeckoBridgeTask, UdsTransport, UdsTransportView};
use crate::message::{BaseMessageKind, TrackerId, SERVICE_OBJECT};
use crate::resolution::{ResolutionState, ServiceAvailability, ServiceClient, ServiceClientView};
use crate::session::SessionHandler;
use crate::task::{SidlCallTask, SidlError, ThreadPtrHandle};

verus! {

/// What became of a call of the bridge client.
#[derive(Debug, PartialEq, Eq)]
pub enum CallStep {
    /// The service id is not known yet: the call waits in the queue. With
    /// `lookup` set, this call started the resolution and the caller has to
    /// send the directory lookup.
    Queued { lookup: bool },
    /// The call was made: the request is to be encoded and written.
    Sent(BridgeRequest),
}

/// Mathematical value of a [`GeckoBridge`].
pub struct GeckoBridgeView {
    pub client: ServiceClientView<GeckoBridgeTask>,
    pub inner: Option<GeckoBridgeImplView>,
}

impl GeckoBridgeView {
    /// A bridge that has not asked for its service yet.
    pub open spec fn initial() -> Self {
        GeckoBridgeView { client: ServiceClientView::initial(), inner: None }
    }

    /// The client exists exactly when the service id is known, and is the
    /// client of that service; nothing waits once it exists.
    pub open spec fn wf(self) -> bool {
        &&& self.client.wf()
        &&& match self.client.state {
            ResolutionState::Resolved(id) => self.inner matches Some(inner)
                && inner.service_id == id && inner.wf(),
            _ => self.inner is None,
        }
    }

    /// What becomes of the call `task`: with the service id known it is
    /// made at once, otherwise it is queued, and the first call to be queued
    /// starts the lookup.
    pub open spec fn step(self, transport: UdsTransportView, task: GeckoBridgeTask) -> Result<
        CallStep,
        SidlError,
    > {
        match self.inner {
            Some(inner) => match inner.outcome(transport, task) {
                Ok(request) => Ok(CallStep::Sent(request)),
                Err(error) => Err(error),
            },
            None => Ok(
                CallStep::Queued {
                    lookup: self.client.availability() == ServiceAvailability::LookupStarted,
                },
            ),
        }
    }

    /// The bridge after the call `task`.
    pub open spec fn after_call(self, transport: UdsTransportView, task: GeckoBridgeTask) -> Self {
        match self.inner {
            Some(inner) => GeckoBridgeView {
                client: self.client,
                inner: Some(inner.bridge_after(transport, task)),
            },
            None => GeckoBridgeView {
                client: self.client.ensure_service_id().queue_task(task),
                inner: None,
            },
        }
    }

    /// The transport after the call `task`.
    pub open spec fn transport_after_call(
        self,
        transport: UdsTransportView,
        task: GeckoBridgeTask,
    ) -> UdsTransportView {
        match self.inner {
            Some(inner) => inner.transport_after(transport, task),
            None => transport,
        }
    }

    /// The transport once the service root of `service_id` is registered.
    pub open spec fn with_root(transport: UdsTransportView, service_id: TrackerId) -> UdsTransportView {
        transport.register_session_object(
            service_id,
            SERVICE_OBJECT,
            SessionHandler::Service { service_id },
        )
    }

    /// Client and transport after the directory answered with `service_id`
    /// while a lookup was outstanding, and the requests of the queued calls:
    /// the client of that service is created and registered as the service
    /// root, and the queued calls run, oldest first.
    pub open spec fn replay(self, transport: UdsTransportView, service_id: TrackerId) -> BridgeRun {
        GeckoBridgeImplView::new(service_id).run_tasks(
            Self::with_root(transport, service_id),
            self.client.pending,
        )
    }

    /// The bridge after the directory answered with `service_id`. The
    /// answer counts only while a lookup is outstanding.
    pub open spec fn after_resolved(self, transport: UdsTransportView, service_id: TrackerId) -> Self {
        if self.client.state is Resolving {
            GeckoBridgeView {
                client: self.client.service_resolved(service_id),
                inner: Some(self.replay(transport, service_id).bridge),
            }
        } else {
            self
        }
    }

    /// The transport after the directory answered with `service_id`.
    pub open spec fn transport_after_resolved(
        self,
        transport: UdsTransportView,
        service_id: TrackerId,
    ) -> UdsTransportView {
        if self.client.state is Resolving {
            self.replay(transport, service_id).transport
        } else {
            transport
        }
    }

    /// The requests that the answer `service_id` of the directory sends: one
    /// for each queued call that can be sent, oldest first.
    pub open spec fn sent_when_resolved(self, transport: UdsTransportView, service_id: TrackerId) -> Seq<
        BridgeRequest,
    > {
        if self.client.state is Resolving {
            self.replay(transport, service_id).sent
        } else {
            Seq::empty()
        }
    }

    /// The bridge after the directory failed to answer.
    pub open spec fn after_failed(self) -> Self {
        GeckoBridgeView { client: self.client.resolution_failed(), inner: self.inner }
    }
}

impl GeckoBridgeView {
    /// The bridge after the calls of `tasks` were made one after another,
    /// first to last, on a connection whose transport is `transport`.
    pub open spec fn after_calls(self, transport: UdsTransportView, tasks: Seq<GeckoBridgeTask>) -> Self
        decreases tasks.len(),
    {
        if tasks.len() == 0 {
            self
        } else {
            self.after_calls(transport, tasks.drop_last()).after_call(transport, tasks.last())
        }
    }
}

/// Calls made on a new bridge wait, in their order, for the service id, and
/// the first of them starts the lookup.
pub proof fn lemma_calls_wait_for_the_service(
    transport: UdsTransportView,
    tasks: Seq<GeckoBridgeTask>,
)
    ensures
        ({
            let waiting = GeckoBridgeView::initial().after_calls(transport, tasks);
            &&& waiting.wf()
            &&& waiting.inner is None
            &&& waiting.client.pending == tasks
            &&& waiting.client.state == (if tasks.len() == 0 {
                ResolutionState::Unresolved
            } else {
                ResolutionState::Resolving
            })
            &&& forall|task: GeckoBridgeTask| #[trigger]
                waiting.step(transport, task) == Ok::<CallStep, SidlError>(
                    CallStep::Queued { lookup: tasks.len() == 0 },
                )
        }),
    decreases tasks.len(),
{
    if tasks.len() > 0 {
        lemma_calls_wait_for_the_service(transport, tasks.drop_last());
        let before = GeckoBridgeView::initial().after_calls(transport, tasks.drop_last());
        assert(before.client.pending.push(tasks.last()) == tasks);
    }
}

/// Whatever calls are made before the service id is known, they are made in
/// the same order once it is known, each exactly once: the answer of the
/// directory sends one request per call, in the order of the calls, under
/// consecutive request ids; afterwards nothing waits, and a further answer
/// sends nothing. (The ids are taken to suffice for the calls.)
pub proof fn lemma_calls_before_resolution_are_replayed_in_order(
    transport: UdsTransportView,
    tasks: Seq<GeckoBridgeTask>,
    service_id: TrackerId,
    later: TrackerId,
)
    requires
        transport.wf(),
        tasks.len() > 0,
        ids_suffice(GeckoBridgeImplView::new(service_id), transport, tasks.len()),
    ensures
        ({
            let waiting = GeckoBridgeView::initial().after_calls(transport, tasks);
            let sent = waiting.sent_when_resolved(transport, service_id);
            let after = waiting.after_resolved(transport, service_id);
            let wire = waiting.transport_after_resolved(transport, service_id);
            let replay = waiting.replay(transport, service_id);
            &&& sent.len() == tasks.len()
            &&& forall|i: int|
                0 <= i < tasks.len() ==> {
                    let before = GeckoBridgeImplView::new(service_id).run_tasks(
                        GeckoBridgeView::with_root(transport, service_id),
                        tasks.take(i),
                    );
                    &&& (#[trigger] sent[i]).service == service_id
                    &&& sent[i].object == before.bridge.target(tasks[i])
                    &&& sent[i].kind == BaseMessageKind::Request(
                        (transport.calls.next_id + i) as u64,
                    )
                    &&& sent[i].payload == tasks[i].request(before.bridge.current_object_id)
                    &&& wire.calls.receiver((transport.calls.next_id + i) as u64) == Some(
                        tasks[i].receiver(),
                    )
                }
            &&& after.wf()
            &&& wire.wf()
            &&& after.client.state == ResolutionState::Resolved(service_id)
            &&& after.client.pending.len() == 0
            &&& after.sent_when_resolved(wire, later) == Seq::<BridgeRequest>::empty()
            &&& after.after_resolved(wire, later) == after
        }),
{
    lemma_calls_wait_for_the_service(transport, tasks);
    let root = GeckoBridgeView::with_root(transport, service_id);
    lemma_replay_runs_each_task_once_in_order(GeckoBridgeImplView::new(service_id), root, tasks);
    lemma_tasks_keep_wf(GeckoBridgeImplView::new(service_id), root, tasks);
}

/// The bridge service as a caller sees it: calls can be made at any time.
/// Until the directory has answered they wait; when it answers they are
/// replayed in order.
pub struct GeckoBridge {
    // Resolution state and the tasks queued while the service id is awaited.
    client: ServiceClient<GeckoBridgeTask>,
    // The client proper, once the service id is known.
    inner: Option<GeckoBridgeImpl>,
}

impl View for GeckoBridge {
    type V = GeckoBridgeView;

    closed spec fn view(&self) -> GeckoBridgeView {
        GeckoBridgeView {
            client: self.client@,
            inner: match self.inner {
                Some(inner) => Some(inner@),
                None => None,
            },
        }
    }
}

impl GeckoBridge {
    /// A bridge that has not asked for its service yet.
    pub fn new() -> (bridge: Self)
        ensures
            bridge@ == GeckoBridgeView::initial(),
            bridge@.wf(),
    {
        GeckoBridge { client: ServiceClient::new(), inner: None }
    }

    /// The service id, once the directory has answered.
    pub fn service_id(&self) -> (id: Option<TrackerId>)
        ensures
            id == self@.client.service_id(),
    {
        self.client.service_id()
    }

    /// Number of calls that wait for the service id.
    pub fn pending_len(&self) -> (n: usize)
        ensures
            n == self@.client.pending.len(),
    {
        self.client.pending_len()
    }

    /// The client proper, once the service id is known.
    pub fn inner(&self) -> (inner: Option<&GeckoBridgeImpl>)
        ensures
            match inner {
                Some(i) => self@.inner == Some(i@),
                None => self@.inner is None,
            },
    {
        self.inner.as_ref()
    }

    /// Makes the call `task`, or queues it while the service id is not
    /// known; see [`GeckoBridgeView::step`].
    pub fn call(&mut self, transport: &mut UdsTransport, task: GeckoBridgeTask) -> (step: Result<
        CallStep,
        SidlError,
    >)
        ensures
            old(self)@.wf() && old(transport)@.wf() ==> final(self)@.wf() && final(transport)@.wf(),
            step == old(self)@.step(old(transport)@, task),
            final(self)@ == old(self)@.after_call(old(transport)@, task),
            final(transport)@ == old(self)@.transport_after_call(old(transport)@, task),
    {
        match &mut self.inner {
            Some(inner) => {
                match inner.run_task(transport, task) {
                    Ok(request) => Ok(CallStep::Sent(request)),
                    Err(error) => Err(error),
                }
            },
            None => {
                let lookup = self.client.ensure_service_id().starts_lookup();
                self.client.queue_task(task);
                Ok(CallStep::Queued { lookup })
            },
        }
    }

    /// Installs `delegate` as the card info manager delegate and reports
    /// the response of the service to `callback`.
    pub fn set_card_info_manager_delegate(
        &mut self,
        transport: &mut UdsTransport,
        delegate: ThreadPtrHandle,
        callback: ThreadPtrHandle,
    ) -> (step: Result<CallStep, SidlError>)
        ensures
            old(self)@.wf() && old(transport)@.wf() ==> final(self)@.wf() && final(transport)@.wf(),
            ({
                let task = GeckoBridgeTask::SetCardInfoManagerDelegate(
                    (SidlCallTask { callback }, delegate),
                );
                &&& step == old(self)@.step(old(transport)@, task)
                &&& final(self)@ == old(self)@.after_call(old(transport)@, task)
                &&& final(transport)@ == old(self)@.transport_after_call(old(transport)@, task)
            }),
    {
        let task = (SidlCallTask::new(callback), delegate);
        self.call(transport, GeckoBridgeTask::SetCardInfoManagerDelegate(task))
    }

    /// Installs `delegate` as the network manager delegate and reports the
    /// response of the service to `callback`.
    pub fn set_network_manager_delegate(
        &mut self,
        transport: &mut UdsTransport,
        delegate: ThreadPtrHandle,
        callback: ThreadPtrHandle,
    ) -> (step: Result<CallStep, SidlError>)
        ensures
            old(self)@.wf() && old(transport)@.wf() ==> final(self)@.wf() && final(transport)@.wf(),
            ({
                let task = GeckoBridgeTask::SetNetworkManagerDelegate(
                    (SidlCallTask { callback }, delegate),
                );
                &&& step == old(self)@.step(old(transport)@, task)
                &&& final(self)@ == old(self)@.after_call(old(transport)@, task)
                &&& final(transport)@ == old(self)@.transport_after_call(old(transport)@, task)
            }),
    {
        let task = (SidlCallTask::new(callback), delegate);
        self.call(transport, GeckoBridgeTask::SetNetworkManagerDelegate(task))
    }

    /// Installs `delegate` as the power manager delegate and reports the
    /// response of the service to `callback`.
    pub fn set_power_manager_delegate(
        &mut self,
        transport: &mut UdsTransport,
        delegate: ThreadPtrHandle,
        callback: ThreadPtrHandle,
    ) -> (step: Result<CallStep, SidlError>)
        ensures
            old(self)@.wf() && old(transport)@.wf() ==> final(self)@.wf() && final(transport)@.wf(),
            ({
                let task = GeckoBridgeTask::SetPowerManagerDelegate(
                    (SidlCallTask { callback }, delegate),
                );
                &&& step == old(self)@.step(old(transport)@, task)
                &&& final(self)@ == old(self)@.after_call(old(transport)@, task)
                &&& final(transport)@ == old(self)@.transport_after_call(old(transport)@, task)
            }),
    {
        let task = (SidlCallTask::new(callback), delegate);
        self.call(transport, GeckoBridgeTask::SetPowerManagerDelegate(task))
    }

    /// Tells the service that the preference `name` now has the string
    /// value `value`, and reports the response to `callback`.
    pub fn char_pref_changed(
        &mut self,
        transport: &mut UdsTransport,
        name: String,
        value: String,
        callback: ThreadPtrHandle,
    ) -> (step: Result<CallStep, SidlError>)
        ensures
            old(self)@.wf() && old(transport)@.wf() ==> final(self)@.wf() && final(transport)@.wf(),
            ({
                let task = GeckoBridgeTask::CharPrefChanged(
                    (SidlCallTask { callback }, (name, value)),
                );
                &&& step == old(self)@.step(old(transport)@, task)
                &&& final(self)@ == old(self)@.after_call(old(transport)@, task)
                &&& final(transport)@ == old(self)@.transport_after_call(old(transport)@, task)
            }),
    {
        let task = (SidlCallTask::new(callback), (name, value));
        self.call(transport, GeckoBridgeTask::CharPrefChanged(task))
    }

    /// Tells the service that the preference `name` now has the integer
    /// value `value`, and reports the response to `callback`.
    pub fn int_pref_changed(
        &mut self,
        transport: &mut UdsTransport,
        name: String,
        value: i32,
        callback: ThreadPtrHandle,
    ) -> (step: Result<CallStep, SidlError>)
        ensures
            old(self)@.wf() && old(transport)@.wf() ==> final(self)@.wf() && final(transport)@.wf(),
            ({
                let task = GeckoBridgeTask::IntPrefChanged((SidlCallTask { callback }, (name, value)));
                &&& step == old(self)@.step(old(transport)@, task)
                &&& final(self)@ == old(self)@.after_call(old(transport)@, task)
                &&& final(transport)@ == old(self)@.transport_after_call(old(transport)@, task)
            }),
    {
        let task = (SidlCallTask::new(callback), (name, value));
        self.call(transport, GeckoBridgeTask::IntPrefChanged(task))
    }

    /// Tells the service that the preference `name` now has the boolean
    /// value `value`, and reports the response to `callback`.
    pub fn bool_pref_changed(
        &mut self,
        transport: &mut UdsTransport,
        name: String,
        value: bool,
        callback: ThreadPtrHandle,
    ) -> (step: Result<CallStep, SidlError>)
        ensures
            old(self)@.wf() && old(transport)@.wf() ==> final(self)@.wf() && final(transport)@.wf(),
            ({
                let task = GeckoBridgeTask::BoolPrefChanged(
                    (SidlCallTask { callback }, (name, value)),
                );
                &&& step == old(self)@.step(old(transport)@, task)
                &&& final(self)@ == old(self)@.after_call(old(transport)@, task)
                &&& final(transport)@ == old(self)@.transport_after_call(old(transport)@, task)
            }),
    {
        let task = (SidlCallTask::new(callback), (name, value));
        self.call(transport, GeckoBridgeTask::BoolPrefChanged(task))
    }

    /// Takes the directory's answer `service_id`.
    ///
    /// While a lookup is outstanding, the client of the service is created
    /// and registered as the root session object of the service, and the
    /// queued calls are made, oldest first, each once; the result holds
    /// their requests in that order. In any other state the answer is
    /// ignored and the result is empty.
    pub fn service_resolved(&mut self, transport: &mut UdsTransport, service_id: TrackerId) -> (sent:
        Vec<BridgeRequest>)
        ensures
            old(self)@.wf() && old(transport)@.wf() ==> final(self)@.wf() && final(transport)@.wf(),
            sent@ == old(self)@.sent_when_resolved(old(transport)@, service_id),
            final(self)@ == old(self)@.after_resolved(old(transport)@, service_id),
            final(transport)@ == old(self)@.transport_after_resolved(old(transport)@, service_id),
    {
        match self.client.state() {
            ResolutionState::Resolving => {
                let released = self.client.service_resolved(service_id);
                let mut inner = GeckoBridgeImpl::new(service_id);
                transport.register_session_object(
                    service_id,
                    SERVICE_OBJECT,
                    SessionHandler::Service { service_id },
                );
                proof {
                    if transport@.wf() {
                        lemma_tasks_keep_wf(inner@, transport@, released@);
                    }
                }
                let sent = inner.dispatch_queue(transport, released);
                self.inner = Some(inner);
                sent
            },
            _ => Vec::new(),
        }
    }

    /// Takes note that the directory did not answer with an id: the
    /// queued calls stay queued, and the next call starts a new lookup.
    pub fn resolution_failed(&mut self)
        ensures
            old(self)@.wf() ==> final(self)@.wf(),
            final(self)@ == old(self)@.after_failed(),
    {
        self.client.resolution_failed();
    }

    /// Ends the bridge: if the client exists, its registrations end. Calls
    /// that still wait in the queue are dropped, and the bridge is as it was
    /// when it was made.
    pub fn release(&mut self, transport: &mut UdsTransport)
        ensures
            final(self)@ == GeckoBridgeView::initial(),
            final(transport)@ == match old(self)@.inner {
                Some(inner) => inner.transport_after_release(old(transport)@),
                None => old(transport)@,
            },
    {
        match self.inner.take() {
            Some(inner) => inner.release(transport),
            None => {},
        }
        self.client = ServiceClient::new();
    }
}

} // verus!
