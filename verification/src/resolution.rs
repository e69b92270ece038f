//! Deferred service resolution.
//!
//! A service client starts without knowing the numeric id of its service.
//! The first call asks the directory for it; calls made while the answer is
//! outstanding wait in a queue and are replayed, oldest first, when the id
//! arrives. State and queue change together, so no call can slip in between
//! the arrival of the id and the replay.

use vstd::prelude::*;
use crate::message::TrackerId;
use crate::queue::TaskQueue;

verus! {

/// Where a service client stands with the directory.
#[derive(Clone, Copy, Debug, PartialEq, Eq, Structural)]
pub enum ResolutionState {
    /// No id is known and no lookup is outstanding.
    Unresolved,
    /// One lookup is outstanding.
    Resolving,
    /// The directory answered with this id.
    Resolved(TrackerId),
}

/// Answer of [`ServiceClient::ensure_service_id`].
#[derive(Clone, Copy, Debug, PartialEq, Eq, Structural)]
pub enum ServiceAvailability {
    /// The id is known: the caller may proceed.
    Available(TrackerId),
    /// This call started the lookup: the caller sends the directory request
    /// and queues its task.
    LookupStarted,
    /// A lookup was already outstanding: the caller only queues its task.
    LookupPending,
}

impl ServiceAvailability {
    /// Whether the caller may proceed without queuing.
    pub open spec fn spec_is_available(self) -> bool {
        self is Available
    }

    /// Whether the caller may proceed without queuing.
    pub fn is_available(&self) -> (available: bool)
        ensures
            available == self.spec_is_available(),
    {
        match self {
            ServiceAvailability::Available(_) => true,
            _ => false,
        }
    }

    /// Whether the caller has to send a directory lookup.
    pub open spec fn spec_starts_lookup(self) -> bool {
        self is LookupStarted
    }

    /// Whether the caller has to send a directory lookup.
    pub fn starts_lookup(&self) -> (starts: bool)
        ensures
            starts == self.spec_starts_lookup(),
    {
        match self {
            ServiceAvailability::LookupStarted => true,
            _ => false,
        }
    }
}

/// Mathematical value of a [`ServiceClient`]: its state and the tasks that
/// wait, oldest first.
pub struct ServiceClientView<T> {
    pub state: ResolutionState,
    pub pending: Seq<T>,
}

impl<T> ServiceClientView<T> {
    /// A client that has not asked yet.
    pub open spec fn initial() -> Self {
        ServiceClientView { state: ResolutionState::Unresolved, pending: Seq::empty() }
    }

    /// Nothing waits once the id is known.
    pub open spec fn wf(self) -> bool {
        self.state is Resolved ==> self.pending.len() == 0
    }

    /// The id, once known.
    pub open spec fn service_id(self) -> Option<TrackerId> {
        match self.state {
            ResolutionState::Resolved(id) => Some(id),
            _ => None,
        }
    }

    /// What a caller that needs the service is told.
    pub open spec fn availability(self) -> ServiceAvailability {
        match self.state {
            ResolutionState::Resolved(id) => ServiceAvailability::Available(id),
            ResolutionState::Resolving => ServiceAvailability::LookupPending,
            ResolutionState::Unresolved => ServiceAvailability::LookupStarted,
        }
    }

    /// The client after a caller asked for the service.
    pub open spec fn ensure_service_id(self) -> Self {
        match self.state {
            ResolutionState::Unresolved => ServiceClientView {
                state: ResolutionState::Resolving,
                pending: self.pending,
            },
            _ => self,
        }
    }

    /// The client after `task` was offered for queuing. Once the id is known
    /// nothing is queued any more.
    pub open spec fn queue_task(self, task: T) -> Self {
        match self.state {
            ResolutionState::Resolved(_) => self,
            _ => ServiceClientView { state: self.state, pending: self.pending.push(task) },
        }
    }

    /// The client after the tasks of `tasks` were offered one after another.
    pub open spec fn queue_tasks(self, tasks: Seq<T>) -> Self
        decreases tasks.len(),
    {
        if tasks.len() == 0 {
            self
        } else {
            self.queue_tasks(tasks.drop_last()).queue_task(tasks.last())
        }
    }

    /// The client after the directory answered with `id`. The answer counts
    /// only while a lookup is outstanding.
    pub open spec fn service_resolved(self, id: TrackerId) -> Self {
        match self.state {
            ResolutionState::Resolving => ServiceClientView {
                state: ResolutionState::Resolved(id),
                pending: Seq::empty(),
            },
            _ => self,
        }
    }

    /// The tasks that the answer `id` releases for replay, oldest first.
    pub open spec fn released(self, id: TrackerId) -> Seq<T> {
        match self.state {
            ResolutionState::Resolving => self.pending,
            _ => Seq::empty(),
        }
    }

    /// The client after the directory failed to answer: the lookup is over,
    /// the tasks stay queued.
    pub open spec fn resolution_failed(self) -> Self {
        match self.state {
            ResolutionState::Resolving => ServiceClientView {
                state: ResolutionState::Unresolved,
                pending: self.pending,
            },
            _ => self,
        }
    }
}

/// Something that happens to a service client: a caller asks for the
/// service, a caller offers a task for queuing, the directory answers with an
/// id, or the directory fails to answer.
pub enum ClientEvent<T> {
    Ensure,
    Queue(T),
    Resolved(TrackerId),
    Failed,
}

impl<T> ServiceClientView<T> {
    /// The client after `event`.
    pub open spec fn step(self, event: ClientEvent<T>) -> Self {
        match event {
            ClientEvent::Ensure => self.ensure_service_id(),
            ClientEvent::Queue(task) => self.queue_task(task),
            ClientEvent::Resolved(id) => self.service_resolved(id),
            ClientEvent::Failed => self.resolution_failed(),
        }
    }

    /// The client after the events of `events`, first to last.
    pub open spec fn run(self, events: Seq<ClientEvent<T>>) -> Self
        decreases events.len(),
    {
        if events.len() == 0 {
            self
        } else {
            self.run(events.drop_last()).step(events.last())
        }
    }

    /// How many of the `Ensure` events of `events` were told to send a
    /// lookup.
    pub open spec fn lookups(self, events: Seq<ClientEvent<T>>) -> nat
        decreases events.len(),
    {
        if events.len() == 0 {
            0
        } else {
            let before = self.run(events.drop_last());
            let started: nat = if events.last() is Ensure
                && before.availability().spec_starts_lookup() {
                1
            } else {
                0
            };
            self.lookups(events.drop_last()) + started
        }
    }
}

/// Number of `Failed` events in `events`.
pub open spec fn failures<T>(events: Seq<ClientEvent<T>>) -> nat
    decreases events.len(),
{
    if events.len() == 0 {
        0
    } else {
        let failed: nat = if events.last() is Failed { 1 } else { 0 };
        failures(events.drop_last()) + failed
    }
}

/// The tasks that the `Queue` events of `events` offer, in order.
pub open spec fn queued<T>(events: Seq<ClientEvent<T>>) -> Seq<T>
    decreases events.len(),
{
    if events.len() == 0 {
        Seq::empty()
    } else {
        match events.last() {
            ClientEvent::Queue(task) => queued(events.drop_last()).push(task),
            _ => queued(events.drop_last()),
        }
    }
}

/// Whether no event of `events` is an answer of the directory.
pub open spec fn unanswered<T>(events: Seq<ClientEvent<T>>) -> bool {
    forall|i: int| 0 <= i < events.len() ==> !(#[trigger] events[i] is Resolved)
}

/// Whatever happens to a client, nothing waits in it once its id is known.
pub proof fn lemma_run_keeps_wf<T>(client: ServiceClientView<T>, events: Seq<ClientEvent<T>>)
    requires
        client.wf(),
    ensures
        client.run(events).wf(),
    decreases events.len(),
{
    if events.len() > 0 {
        lemma_run_keeps_wf(client, events.drop_last());
    }
}

/// However many callers ask for the service, and in whatever order the other
/// events fall between them, a lookup is sent at most once per failed
/// attempt, plus once if the client started unresolved. In particular, while
/// no attempt fails, at most one lookup is ever sent.
pub proof fn lemma_at_most_one_lookup<T>(client: ServiceClientView<T>, events: Seq<ClientEvent<T>>)
    ensures
        client.lookups(events) + (if client.run(events).state is Unresolved { 1nat } else { 0nat })
            <= (if client.state is Unresolved { 1nat } else { 0nat }) + failures(events),
        failures(events) == 0 ==> client.lookups(events) <= 1,
    decreases events.len(),
{
    if events.len() > 0 {
        lemma_at_most_one_lookup(client, events.drop_last());
    }
}

/// Once the id is known it never changes: whatever happens afterwards, every
/// caller is told the same id.
pub proof fn lemma_resolved_id_is_stable<T>(
    client: ServiceClientView<T>,
    events: Seq<ClientEvent<T>>,
    id: TrackerId,
)
    requires
        client.state == ResolutionState::Resolved(id),
    ensures
        client.run(events).state == ResolutionState::Resolved(id),
        client.run(events).availability() == ServiceAvailability::Available(id),
        client.run(events).pending == client.pending,
    decreases events.len(),
{
    if events.len() > 0 {
        lemma_resolved_id_is_stable(client, events.drop_last(), id);
    }
}

/// Tasks offered while the id is not known wait in the order in which they
/// were offered, behind those that waited before, whatever else happens in
/// between short of an answer.
pub proof fn lemma_queue_keeps_order<T>(client: ServiceClientView<T>, events: Seq<ClientEvent<T>>)
    requires
        !(client.state is Resolved),
        unanswered(events),
    ensures
        !(client.run(events).state is Resolved),
        client.run(events).pending == client.pending + queued(events),
    decreases events.len(),
{
    if events.len() > 0 {
        let init = events.drop_last();
        assert forall|i: int| 0 <= i < init.len() implies !(#[trigger] init[i] is Resolved) by {
            assert(init[i] == events[i]);
        }
        lemma_queue_keeps_order(client, init);
        assert(!(events[events.len() - 1] is Resolved));
    }
}

/// The answer of the directory releases every task that was offered while it
/// was outstanding, in the order of the offers, and releases each once: after
/// the answer nothing waits, and no further answer releases anything.
pub proof fn lemma_replay_in_order_exactly_once<T>(
    client: ServiceClientView<T>,
    events: Seq<ClientEvent<T>>,
    id: TrackerId,
    later: TrackerId,
)
    requires
        !(client.state is Resolved),
        unanswered(events),
        client.run(events).state is Resolving,
    ensures
        client.run(events).released(id) == client.pending + queued(events),
        client.run(events).service_resolved(id).state == ResolutionState::Resolved(id),
        client.run(events).service_resolved(id).pending == Seq::<T>::empty(),
        client.run(events).service_resolved(id).released(later) == Seq::<T>::empty(),
{
    lemma_queue_keeps_order(client, events);
}

/// Resolution state and task queue of one service client.
pub struct ServiceClient<T> {
    state: ResolutionState,
    pending: TaskQueue<T>,
}

impl<T> View for ServiceClient<T> {
    type V = ServiceClientView<T>;

    closed spec fn view(&self) -> ServiceClientView<T> {
        ServiceClientView { state: self.state, pending: self.pending@ }
    }
}

impl<T> ServiceClient<T> {
    /// A client that has not asked for its service yet.
    pub fn new() -> (client: Self)
        ensures
            client@ == ServiceClientView::<T>::initial(),
    {
        ServiceClient { state: ResolutionState::Unresolved, pending: TaskQueue::new() }
    }

    /// The current state.
    pub fn state(&self) -> (state: ResolutionState)
        ensures
            state == self@.state,
    {
        self.state
    }

    /// The service id, once the directory has answered.
    pub fn service_id(&self) -> (id: Option<TrackerId>)
        ensures
            id == self@.service_id(),
    {
        match self.state {
            ResolutionState::Resolved(id) => Some(id),
            _ => None,
        }
    }

    /// Number of tasks that wait.
    pub fn pending_len(&self) -> (n: usize)
        ensures
            n == self@.pending.len(),
    {
        self.pending.len()
    }

    /// Asks for the service on behalf of a caller.
    ///
    /// Tells the caller whether the id is known. If it is not and no lookup
    /// is outstanding, the state moves to `Resolving` and the caller is told
    /// to send the lookup; any later caller is told only to queue.
    pub fn ensure_service_id(&mut self) -> (answer: ServiceAvailability)
        ensures
            answer == old(self)@.availability(),
            final(self)@ == old(self)@.ensure_service_id(),
    {
        match self.state {
            ResolutionState::Resolved(id) => ServiceAvailability::Available(id),
            ResolutionState::Resolving => ServiceAvailability::LookupPending,
            ResolutionState::Unresolved => {
                self.state = ResolutionState::Resolving;
                ServiceAvailability::LookupStarted
            },
        }
    }

    /// Queues `task` behind the tasks that already wait.
    ///
    /// Once the id is known nothing is queued: the task comes back together
    /// with the id, for the caller to run at once.
    pub fn queue_task(&mut self, task: T) -> (back: Option<(TrackerId, T)>)
        ensures
            final(self)@ == old(self)@.queue_task(task),
            back == match old(self)@.state {
                ResolutionState::Resolved(id) => Some((id, task)),
                _ => None::<(TrackerId, T)>,
            },
    {
        match self.state {
            ResolutionState::Resolved(id) => Some((id, task)),
            _ => {
                self.pending.enqueue(task);
                None
            },
        }
    }

    /// Takes the directory's answer `id`.
    ///
    /// While a lookup is outstanding the id is stored and the queue is
    /// emptied: the result holds the queued tasks, oldest first, for replay.
    /// In any other state the answer is ignored and the result is empty.
    pub fn service_resolved(&mut self, id: TrackerId) -> (released: Vec<T>)
        ensures
            final(self)@ == old(self)@.service_resolved(id),
            released@ == old(self)@.released(id),
    {
        match self.state {
            ResolutionState::Resolving => {
                self.state = ResolutionState::Resolved(id);
                self.pending.drain()
            },
            _ => Vec::new(),
        }
    }

    /// Takes note that the directory did not answer with an id.
    ///
    /// An outstanding lookup is over and the client is unresolved again; the
    /// queued tasks stay queued, in order, for a later attempt.
    pub fn resolution_failed(&mut self)
        ensures
            final(self)@ == old(self)@.resolution_failed(),
    {
        match self.state {
            ResolutionState::Resolving => {
                self.state = ResolutionState::Unresolved;
            },
            _ => {},
        }
    }
}

} // verus!
