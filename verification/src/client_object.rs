//! The registration of a session object, owned by whoever created it.

use vstd::prelude::*;
use crate::message::TrackerId;
use crate::session::SessionHandler;
use crate::transport::Transport;

verus! {

/// Stands for one entry of the registry. Creating the client object makes
/// the entry; releasing it removes the entry again.
#[derive(Clone, Copy, Debug, PartialEq, Eq, Structural)]
pub struct ClientObject {
    pub service_id: TrackerId,
    pub object_id: TrackerId,
}

impl ClientObject {
    /// Registers `wrapper` with the transport under the wrapper's own
    /// address.
    pub fn new<R>(wrapper: SessionHandler, transport: &mut Transport<SessionHandler, R>) -> (object:
        Self)
        ensures
            (object.service_id, object.object_id) == wrapper.ids(),
            final(transport)@ == old(transport)@.register_session_object(
                wrapper.ids().0,
                wrapper.ids().1,
                wrapper,
            ),
    {
        let (service_id, object_id) = wrapper.get_ids();
        transport.register_session_object(service_id, object_id, wrapper);
        ClientObject { service_id, object_id }
    }

    /// The address of the registered session object.
    pub fn get_ids(&self) -> (ids: (TrackerId, TrackerId))
        ensures
            ids == (self.service_id, self.object_id),
    {
        (self.service_id, self.object_id)
    }

    /// Ends the registration: the entry under this object's address is
    /// removed from the registry, and nothing else changes. From then on
    /// the transport drops whatever is addressed to it.
    pub fn release<R>(self, transport: &mut Transport<SessionHandler, R>)
        ensures
            final(transport)@ == old(transport)@.unregister_session_object(
                self.service_id,
                self.object_id,
            ),
    {
        transport.unregister_session_object(self.service_id, self.object_id);
    }
}

} // verus!
