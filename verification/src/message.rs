//! Envelopes: the addressed unit of communication with the daemon.

use vstd::prelude::*;

verus! {

/// Identifier of a service, or of a session object inside a service.
pub type TrackerId = u32;

/// Object id of a service's own root object. Delegates never get this id.
pub const SERVICE_OBJECT: TrackerId = 0;

/// What an envelope is: a request carrying the id that its response must
/// quote, the response to such a request, or an unsolicited event.
#[derive(Clone, Copy, Debug, PartialEq, Eq, Structural)]
pub enum BaseMessageKind {
    Request(u64),
    Response(u64),
    Event,
}

impl BaseMessageKind {
    /// The request id that the kind carries, if any.
    pub open spec fn spec_request_id(self) -> Option<u64> {
        match self {
            BaseMessageKind::Request(id) => Some(id),
            BaseMessageKind::Response(id) => Some(id),
            BaseMessageKind::Event => None,
        }
    }

    /// The request id that the kind carries: that of a request or of a
    /// response, none for an event.
    pub fn request_id(&self) -> (id: Option<u64>)
        ensures
            id == self.spec_request_id(),
    {
        match self {
            BaseMessageKind::Request(id) => Some(*id),
            BaseMessageKind::Response(id) => Some(*id),
            BaseMessageKind::Event => None,
        }
    }
}

/// An envelope as it travels on the connection. `content` is the encoded
/// payload; the engine never looks inside it.
#[derive(Clone, Debug, PartialEq, Eq)]
pub struct BaseMessage {
    pub service: TrackerId,
    pub object: TrackerId,
    pub kind: BaseMessageKind,
    pub content: Vec<u8>,
}

/// Mathematical value of a [`BaseMessage`].
pub struct BaseMessageView {
    pub service: TrackerId,
    pub object: TrackerId,
    pub kind: BaseMessageKind,
    pub content: Seq<u8>,
}

impl View for BaseMessage {
    type V = BaseMessageView;

    open spec fn view(&self) -> BaseMessageView {
        BaseMessageView {
            service: self.service,
            object: self.object,
            kind: self.kind,
            content: self.content@,
        }
    }
}

/// An envelope whose payload is still a typed value. Senders and session
/// objects produce these; encoding the payload turns one into a
/// [`BaseMessage`].
#[derive(Clone, Debug, PartialEq, Eq)]
pub struct Outgoing<P> {
    pub service: TrackerId,
    pub object: TrackerId,
    pub kind: BaseMessageKind,
    pub payload: P,
}

impl<P> Outgoing<P> {
    /// Frames `content`, the encoding of the payload, with this envelope's
    /// address and kind.
    pub fn into_message(self, content: Vec<u8>) -> (message: BaseMessage)
        ensures
            message@ == (BaseMessageView {
                service: self.service,
                object: self.object,
                kind: self.kind,
                content: content@,
            }),
    {
        BaseMessage { service: self.service, object: self.object, kind: self.kind, content }
    }
}

} // verus!
