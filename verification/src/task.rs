//! Calls: who sends them, who waits for the response, and what the caller is
//! told when it arrives.

use vstd::prelude::*;
use crate::message::{BaseMessageKind, Outgoing, TrackerId};
use crate::transport::Transport;

verus! {

/// Names an object that lives on the thread that supplied it: a callback or
/// a delegate. The engine only stores and forwards the handle; the embedding
/// program alone can reach the object, on its owning thread.
#[derive(Clone, Copy, Debug, PartialEq, Eq, Structural)]
pub struct ThreadPtrHandle(pub u64);

/// Why an operation of a service client could not be carried out.
#[derive(Clone, Copy, Debug, PartialEq, Eq, Structural)]
pub enum SidlError {
    /// Every request id of the connection has been used.
    RequestIdsExhausted,
    /// Every object id of the service client has been used.
    ObjectIdsExhausted,
}

/// The content of a response, decoded for the call that it answers: the
/// success payload of that call, its error payload, or neither.
#[derive(Clone, Copy, Debug, PartialEq, Eq)]
pub enum CallResponse<T, E> {
    Success(T),
    Error(E),
    /// The content is not a response to this call.
    Unexpected,
}

/// Why a call failed.
#[derive(Clone, Copy, Debug, PartialEq, Eq)]
pub enum CallFailure<E> {
    /// The service answered with an error.
    Remote(E),
    /// The content of the response could not be read as an answer to the
    /// call.
    Decode,
}

/// The outcome of one call, to be handed to `callback` on its owning thread.
#[derive(Debug, PartialEq, Eq)]
pub struct Completion<T, E> {
    pub callback: ThreadPtrHandle,
    pub result: Result<T, CallFailure<E>>,
}

/// The outcome that a decoded response stands for.
pub open spec fn outcome_of<T, E>(response: CallResponse<T, E>) -> Result<T, CallFailure<E>> {
    match response {
        CallResponse::Success(value) => Ok(value),
        CallResponse::Error(error) => Err(CallFailure::Remote(error)),
        CallResponse::Unexpected => Err(CallFailure::Decode),
    }
}

/// The caller's side of one call: the callback that hears the outcome.
#[derive(Clone, Copy, Debug, PartialEq, Eq, Structural)]
pub struct SidlCallTask {
    pub callback: ThreadPtrHandle,
}

impl SidlCallTask {
    /// A call whose outcome goes to `callback`.
    pub fn new(callback: ThreadPtrHandle) -> (task: Self)
        ensures
            task.callback == callback,
    {
        SidlCallTask { callback }
    }

    /// Turns the decoded response into the outcome for the callback:
    /// success with its value, or failure for an error answer and for
    /// content that is no answer to the call.
    pub fn complete<T, E>(self, response: CallResponse<T, E>) -> (completion: Completion<T, E>)
        ensures
            completion.callback == self.callback,
            completion.result == outcome_of(response),
    {
        let result = match response {
            CallResponse::Success(value) => Ok(value),
            CallResponse::Error(error) => Err(CallFailure::Remote(error)),
            CallResponse::Unexpected => Err(CallFailure::Decode),
        };
        Completion { callback: self.callback, result }
    }
}

/// What waits for the response of one call: `method` says which call it
/// was, and with it how the content of the response is to be decoded;
/// `task` hears the outcome.
#[derive(Clone, Copy, Debug, PartialEq, Eq)]
pub struct TaskReceiver<M> {
    pub method: M,
    pub task: SidlCallTask,
}

impl<M> TaskReceiver<M> {
    /// Takes the response, decoded for this receiver's method, and gives the
    /// outcome for the caller.
    pub fn on_response<T, E>(self, response: CallResponse<T, E>) -> (completion: Completion<T, E>)
        ensures
            completion.callback == self.task.callback,
            completion.result == outcome_of(response),
    {
        self.task.complete(response)
    }
}

/// Sends calls to one session object.
#[derive(Clone, Copy, Debug, PartialEq, Eq, Structural)]
pub struct TaskSender {
    pub service_id: TrackerId,
    pub object_id: TrackerId,
}

impl TaskSender {
    /// A sender for the session object `(service_id, object_id)`.
    pub fn new(service_id: TrackerId, object_id: TrackerId) -> (sender: Self)
        ensures
            sender.service_id == service_id,
            sender.object_id == object_id,
    {
        TaskSender { service_id, object_id }
    }

    /// Sends `request` to this sender's session object and lets `receiver`
    /// wait for the response.
    ///
    /// The envelope that comes back carries the fresh request id of the
    /// call. Fails only when the request ids of the connection are used up:
    /// then nothing changes and the receiver comes back.
    pub fn send_task<H, R, P>(&self, transport: &mut Transport<H, R>, request: P, receiver: R) -> (sent:
        Result<Outgoing<P>, R>)
        ensures
            old(transport)@.wf() ==> final(transport)@.wf(),
            final(transport)@ == old(transport)@.send_request(receiver),
            sent == match old(transport)@.calls.fresh_id() {
                Some(request_id) => Ok::<Outgoing<P>, R>(
                    Outgoing {
                        service: self.service_id,
                        object: self.object_id,
                        kind: BaseMessageKind::Request(request_id),
                        payload: request,
                    },
                ),
                None => Err::<Outgoing<P>, R>(receiver),
            },
    {
        transport.send_request(self.service_id, self.object_id, request, receiver)
    }
}

} // verus!
