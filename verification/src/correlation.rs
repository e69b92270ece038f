//! Request ids and the calls that wait for their response.

use std::collections::HashMap;
use vstd::prelude::*;
use vstd::std_specs::hash::*;

verus! {

broadcast use vstd::std_specs::hash::group_hash_axioms;

/// The id given to the first call on a connection.
pub const FIRST_REQUEST_ID: u64 = 1;

/// Mathematical value of [`PendingCalls`]: the id that the next call gets and
/// the receivers that wait, by request id.
pub struct PendingCallsView<R> {
    pub next_id: u64,
    pub calls: Map<u64, R>,
}

impl<R> PendingCallsView<R> {
    /// No call was made yet.
    pub open spec fn initial() -> Self {
        Self::starting_at(FIRST_REQUEST_ID)
    }

    /// No call was made yet, and the first call gets the id `first_id`.
    pub open spec fn starting_at(first_id: u64) -> Self {
        PendingCallsView { next_id: first_id, calls: Map::empty() }
    }

    /// Every waiting call has an id that was handed out before.
    pub open spec fn wf(self) -> bool {
        forall|id: u64| #[trigger] self.calls.contains_key(id) ==> id < self.next_id
    }

    /// The id that the next call gets, unless the ids are used up.
    pub open spec fn fresh_id(self) -> Option<u64> {
        if self.next_id < u64::MAX {
            Some(self.next_id)
        } else {
            None
        }
    }

    /// The calls after `receiver` was registered for the next id.
    pub open spec fn register(self, receiver: R) -> Self {
        if self.next_id < u64::MAX {
            PendingCallsView {
                next_id: (self.next_id + 1) as u64,
                calls: self.calls.insert(self.next_id, receiver),
            }
        } else {
            self
        }
    }

    /// The receiver that a response quoting `id` completes, if one waits.
    pub open spec fn receiver(self, id: u64) -> Option<R> {
        if self.calls.contains_key(id) {
            Some(self.calls[id])
        } else {
            None
        }
    }

    /// The calls after a response quoting `id` was taken.
    pub open spec fn complete(self, id: u64) -> Self {
        PendingCallsView { next_id: self.next_id, calls: self.calls.remove(id) }
    }
}

/// Ids are handed out in strictly increasing order and never twice: the id
/// of a new call belongs to no waiting call, and the call after it gets a
/// larger one.
pub proof fn lemma_request_ids_are_fresh<R>(calls: PendingCallsView<R>, first: R, second: R)
    requires
        calls.wf(),
        calls.fresh_id() is Some,
    ensures
        !calls.calls.contains_key(calls.fresh_id().unwrap()),
        calls.register(first).wf(),
        calls.register(first).receiver(calls.fresh_id().unwrap()) == Some(first),
        calls.register(first).fresh_id() matches Some(next) ==> next > calls.fresh_id().unwrap(),
        forall|id: u64|
            id != calls.fresh_id().unwrap() ==> #[trigger] calls.register(first).receiver(id)
                == calls.receiver(id),
{
}

/// A response reaches the call that waits under its id and no other, and
/// reaches it once: taking the response leaves every other call waiting, and
/// a second response with the same id finds nothing.
pub proof fn lemma_response_delivered_once<R>(calls: PendingCallsView<R>, id: u64)
    requires
        calls.wf(),
    ensures
        calls.complete(id).wf(),
        calls.complete(id).receiver(id) == None::<R>,
        forall|other: u64|
            other != id ==> #[trigger] calls.complete(id).receiver(other) == calls.receiver(other),
        calls.receiver(id) is None ==> calls.complete(id) == calls,
{
    if calls.receiver(id) is None {
        assert(calls.calls.remove(id) =~= calls.calls);
    }
}

/// The calls of one connection that wait for their response.
pub struct PendingCalls<R> {
    next_id: u64,
    calls: HashMap<u64, R>,
}

impl<R> View for PendingCalls<R> {
    type V = PendingCallsView<R>;

    closed spec fn view(&self) -> PendingCallsView<R> {
        PendingCallsView { next_id: self.next_id, calls: self.calls@ }
    }
}

impl<R> PendingCalls<R> {
    /// No call was made yet.
    pub fn new() -> (calls: Self)
        ensures
            calls@ == PendingCallsView::<R>::initial(),
            calls@.wf(),
    {
        PendingCalls { next_id: FIRST_REQUEST_ID, calls: HashMap::new() }
    }

    /// No call was made yet, and the calls are numbered from `first_id` on.
    pub fn starting_at(first_id: u64) -> (calls: Self)
        ensures
            calls@ == PendingCallsView::<R>::starting_at(first_id),
            calls@.wf(),
    {
        PendingCalls { next_id: first_id, calls: HashMap::new() }
    }

    /// Whether a call waits under `id`.
    pub fn is_pending(&self, id: u64) -> (pending: bool)
        ensures
            pending == self@.calls.contains_key(id),
    {
        self.calls.contains_key(&id)
    }

    /// Number of calls that wait.
    pub fn len(&self) -> (n: usize)
        ensures
            n == self@.calls.len(),
    {
        self.calls.len()
    }

    /// Gives the next call its id and lets `receiver` wait under it.
    ///
    /// Fails, handing the receiver back and changing nothing, only when the
    /// ids of the connection are used up.
    pub fn register(&mut self, receiver: R) -> (id: Result<u64, R>)
        ensures
            final(self)@ == old(self)@.register(receiver),
            old(self)@.wf() ==> final(self)@.wf(),
            id == match old(self)@.fresh_id() {
                Some(fresh) => Ok::<u64, R>(fresh),
                None => Err::<u64, R>(receiver),
            },
    {
        if self.next_id < u64::MAX {
            let id: u64 = self.next_id;
            self.calls.insert(id, receiver);
            self.next_id = id + 1;
            Ok(id)
        } else {
            Err(receiver)
        }
    }

    /// Takes the call that waits under `id`, the id that a response quotes.
    ///
    /// The receiver of that call comes out and the call waits no longer. If
    /// no call waits under `id` nothing changes and nothing comes out.
    pub fn complete(&mut self, id: u64) -> (receiver: Option<R>)
        ensures
            receiver == old(self)@.receiver(id),
            final(self)@ == old(self)@.complete(id),
            old(self)@.wf() ==> final(self)@.wf(),
    {
        self.calls.remove(&id)
    }
}

} // verus!
