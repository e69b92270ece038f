//! The session object through which the time service notifies an observer.

use vstd::prelude::*;
use crate::message::{BaseMessageKind, Outgoing, TrackerId};
use crate::task::{SidlError, ThreadPtrHandle};

verus! {

/// Why the time service calls an observer.
#[derive(Clone, Copy, Debug, PartialEq, Eq, Structural)]
pub enum CallbackReason {
    NoReason,
    TimeChanged,
    TimezoneChanged,
}

impl CallbackReason {
    /// The number under which the observer knows the reason.
    pub open spec fn spec_code(self) -> i16 {
        match self {
            CallbackReason::NoReason => 0,
            CallbackReason::TimeChanged => 1,
            CallbackReason::TimezoneChanged => 2,
        }
    }

    /// The number under which the observer knows the reason: the position of
    /// the reason in the list of reasons, counted from 0.
    pub fn code(&self) -> (code: i16)
        ensures
            code == self.spec_code(),
    {
        match self {
            CallbackReason::NoReason => 0,
            CallbackReason::TimeChanged => 1,
            CallbackReason::TimezoneChanged => 2,
        }
    }
}

/// What the time service sends to an observer, as far as the observer reads
/// it.
#[derive(Clone, Copy, Debug, PartialEq, Eq, Structural)]
pub enum TimeServiceToClient {
    TimeObserverCallback(CallbackReason),
}

/// What an observer answers to the time service.
#[derive(Clone, Copy, Debug, PartialEq, Eq, Structural)]
pub enum TimeServiceFromClient {
    TimeObserverCallbackSuccess,
}

/// A notification on its way to the observer's owning thread.
#[derive(Clone, Copy, Debug, PartialEq, Eq, Structural)]
pub struct ObserverTask {
    pub xpcom: ThreadPtrHandle,
    pub reason: CallbackReason,
}

impl ObserverTask {
    /// Runs the task on the thread that it was dispatched to.
    ///
    /// `on_owning_thread` says whether the observer can be reached from
    /// that thread. If it can, the result names the observer and the number
    /// to notify it with; otherwise nothing is to be done.
    pub fn run(&self, on_owning_thread: bool) -> (notify: Option<(ThreadPtrHandle, i16)>)
        ensures
            notify == (if on_owning_thread {
                Some((self.xpcom, self.reason.spec_code()))
            } else {
                None
            }),
    {
        if on_owning_thread {
            Some((self.xpcom, self.reason.code()))
        } else {
            None
        }
    }

    /// Ends the task. Nothing flows back to the thread that dispatched it.
    pub fn done(&self) -> (result: Result<(), SidlError>)
        ensures
            result == Ok::<(), SidlError>(()),
    {
        Ok(())
    }
}

/// An observer of the time service, registered as the session object
/// `(service_id, object_id)`.
#[derive(Clone, Copy, Debug, PartialEq, Eq, Structural)]
pub struct ObserverWrapper {
    xpcom: ThreadPtrHandle,
    service_id: TrackerId,
    object_id: TrackerId,
}

/// Mathematical value of an [`ObserverWrapper`].
pub struct ObserverWrapperView {
    pub xpcom: ThreadPtrHandle,
    pub service_id: TrackerId,
    pub object_id: TrackerId,
}

impl ObserverWrapperView {
    /// What the observer does with a request that quotes `request_id`, where
    /// `request` is its decoded content, if it could be decoded.
    ///
    /// A callback is acknowledged at once, with a response from the
    /// observer's own address that quotes the request id, and the
    /// notification is sent on its way to the owning thread. Anything else
    /// is answered with nothing.
    pub open spec fn on_request(self, request: Option<TimeServiceToClient>, request_id: u64) -> Option<
        (Outgoing<TimeServiceFromClient>, ObserverTask),
    > {
        match request {
            Some(TimeServiceToClient::TimeObserverCallback(reason)) => Some(
                (
                    Outgoing {
                        service: self.service_id,
                        object: self.object_id,
                        kind: BaseMessageKind::Response(request_id),
                        payload: TimeServiceFromClient::TimeObserverCallbackSuccess,
                    },
                    ObserverTask { xpcom: self.xpcom, reason },
                ),
            ),
            None => None,
        }
    }
}

impl View for ObserverWrapper {
    type V = ObserverWrapperView;

    closed spec fn view(&self) -> ObserverWrapperView {
        ObserverWrapperView {
            xpcom: self.xpcom,
            service_id: self.service_id,
            object_id: self.object_id,
        }
    }
}

impl ObserverWrapper {
    /// Wraps the observer `xpcom` as the session object
    /// `(service_id, object_id)`.
    pub fn new(xpcom: ThreadPtrHandle, service_id: TrackerId, object_id: TrackerId) -> (wrapper: Self)
        ensures
            wrapper@ == (ObserverWrapperView { xpcom, service_id, object_id }),
    {
        ObserverWrapper { xpcom, service_id, object_id }
    }

    /// Handles a request of the time service.
    ///
    /// `request` is the decoded content of the request, or `None` if the
    /// content could not be decoded. See [`ObserverWrapperView::on_request`]
    /// for the answer. The observer itself does not change.
    pub fn on_request(&mut self, request: Option<TimeServiceToClient>, request_id: u64) -> (answer:
        Option<(Outgoing<TimeServiceFromClient>, ObserverTask)>)
        ensures
            answer == old(self)@.on_request(request, request_id),
            final(self)@ == old(self)@,
    {
        match request {
            Some(TimeServiceToClient::TimeObserverCallback(reason)) => {
                let task = ObserverTask { xpcom: self.xpcom, reason };
                let message = Outgoing {
                    service: self.service_id,
                    object: self.object_id,
                    kind: BaseMessageKind::Response(request_id),
                    payload: TimeServiceFromClient::TimeObserverCallbackSuccess,
                };
                Some((message, task))
            },
            None => None,
        }
    }

    /// Handles an event of the time service: the observer ignores events.
    pub fn on_event(&mut self, event: Vec<u8>)
        ensures
            final(self)@ == old(self)@,
    {
    }

    /// The address of the observer: its service id and its object id.
    pub fn get_ids(&self) -> (ids: (TrackerId, TrackerId))
        ensures
            ids == (self@.service_id, self@.object_id),
    {
        (self.service_id, self.object_id)
    }
}

} // verus!
