//! Delegates: callback targets of the caller that the daemon can invoke.

use vstd::prelude::*;
use crate::message::{BaseMessageKind, Outgoing, TrackerId};
use crate::task::ThreadPtrHandle;

verus! {

/// The part that a delegate plays for its service.
#[derive(Clone, Copy, Debug, PartialEq, Eq, Structural)]
pub enum DelegateRole {
    CardInfoManager,
    NetworkManager,
    PowerManager,
}

/// A callback on its way to the delegate's owning thread.
#[derive(Clone, Copy, Debug, PartialEq, Eq)]
pub struct DelegateCall<C> {
    pub delegate: ThreadPtrHandle,
    pub callback: C,
}

/// A delegate, wrapped as the session object `(service_id, object_id)`.
#[derive(Clone, Copy, Debug, PartialEq, Eq, Structural)]
pub struct DelegateWrapper {
    pub role: DelegateRole,
    pub delegate: ThreadPtrHandle,
    pub service_id: TrackerId,
    pub object_id: TrackerId,
}

impl DelegateWrapper {
    /// Wraps `delegate`, in the part `role`, as the session object
    /// `(service_id, object_id)`.
    pub fn new(
        role: DelegateRole,
        delegate: ThreadPtrHandle,
        service_id: TrackerId,
        object_id: TrackerId,
    ) -> (wrapper: Self)
        ensures
            wrapper == (DelegateWrapper { role, delegate, service_id, object_id }),
    {
        DelegateWrapper { role, delegate, service_id, object_id }
    }

    /// What the delegate does with a request that quotes `request_id`.
    ///
    /// `callback` is the decoded content of the request, if it could be
    /// decoded; `accepted` is the payload that acknowledges a callback. A
    /// callback is acknowledged at once, with a response from the delegate's
    /// own address that quotes the request id, and is sent on its way to the
    /// delegate's owning thread. Content that could not be decoded is
    /// answered with nothing.
    pub open spec fn spec_on_request<C, A>(
        self,
        callback: Option<C>,
        request_id: u64,
        accepted: A,
    ) -> Option<(Outgoing<A>, DelegateCall<C>)> {
        match callback {
            Some(callback) => Some(
                (
                    Outgoing {
                        service: self.service_id,
                        object: self.object_id,
                        kind: BaseMessageKind::Response(request_id),
                        payload: accepted,
                    },
                    DelegateCall { delegate: self.delegate, callback },
                ),
            ),
            None => None,
        }
    }

    /// Handles a request of the service; see
    /// [`DelegateWrapper::spec_on_request`]. The wrapper does not change.
    pub fn on_request<C, A>(&mut self, callback: Option<C>, request_id: u64, accepted: A) -> (answer:
        Option<(Outgoing<A>, DelegateCall<C>)>)
        ensures
            answer == old(self).spec_on_request(callback, request_id, accepted),
            *final(self) == *old(self),
    {
        match callback {
            Some(callback) => {
                let message = Outgoing {
                    service: self.service_id,
                    object: self.object_id,
                    kind: BaseMessageKind::Response(request_id),
                    payload: accepted,
                };
                Some((message, DelegateCall { delegate: self.delegate, callback }))
            },
            None => None,
        }
    }

    /// Handles an event of the service: delegates ignore events.
    pub fn on_event(&mut self, event: Vec<u8>)
        ensures
            *final(self) == *old(self),
    {
    }

    /// The address of the delegate: its service id and its object id.
    pub fn get_ids(&self) -> (ids: (TrackerId, TrackerId))
        ensures
            ids == (self.service_id, self.object_id),
    {
        (self.service_id, self.object_id)
    }
}

} // verus!
