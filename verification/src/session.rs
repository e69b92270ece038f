//! The kinds of session object that a connection carries.

use vstd::prelude::*;
use crate::delegate::DelegateWrapper;
use crate::message::{TrackerId, SERVICE_OBJECT};
use crate::observer::ObserverWrapper;

verus! {

/// A session object as the registry holds it: the root object of a service
/// client, a delegate, or an observer of the time service.
#[derive(Clone, Copy, Debug, PartialEq, Eq, Structural)]
pub enum SessionHandler {
    Service { service_id: TrackerId },
    Delegate(DelegateWrapper),
    Observer(ObserverWrapper),
}

impl SessionHandler {
    /// The address of the session object. The root object of a service has
    /// the object id 0.
    pub open spec fn ids(self) -> (TrackerId, TrackerId) {
        match self {
            SessionHandler::Service { service_id } => (service_id, SERVICE_OBJECT),
            SessionHandler::Delegate(wrapper) => (wrapper.service_id, wrapper.object_id),
            SessionHandler::Observer(wrapper) => (wrapper@.service_id, wrapper@.object_id),
        }
    }

    /// The address of the session object: its service id and its object id.
    pub fn get_ids(&self) -> (ids: (TrackerId, TrackerId))
        ensures
            ids == self.ids(),
    {
        match self {
            SessionHandler::Service { service_id } => (*service_id, SERVICE_OBJECT),
            SessionHandler::Delegate(wrapper) => wrapper.get_ids(),
            SessionHandler::Observer(wrapper) => wrapper.get_ids(),
        }
    }
}

} // verus!
