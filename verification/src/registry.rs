//! The session objects that the daemon can address.

use std::collections::HashMap;
use vstd::prelude::*;
use vstd::std_specs::hash::*;
use crate::message::TrackerId;

verus! {

broadcast use vstd::std_specs::hash::group_hash_axioms;

/// The service id and the object id of a session object, in one number:
/// the service id in the upper half, the object id in the lower.
pub open spec fn session_key(service: TrackerId, object: TrackerId) -> u64 {
    (service as u64 * 0x1_0000_0000 + object as u64) as u64
}

/// Different session objects have different keys.
pub proof fn lemma_session_key_is_injective(
    service: TrackerId,
    object: TrackerId,
    other_service: TrackerId,
    other_object: TrackerId,
)
    ensures
        session_key(service, object) == session_key(other_service, other_object) <==> (service
            == other_service && object == other_object),
{
}

fn key_of(service: TrackerId, object: TrackerId) -> (key: u64)
    ensures
        key == session_key(service, object),
{
    (service as u64) * 0x1_0000_0000u64 + (object as u64)
}

/// The handlers of the registered session objects, by service id and object
/// id.
///
/// The view maps the pair `(service id, object id)` to the handler
/// registered under it.
pub struct SessionRegistry<H> {
    sessions: HashMap<u64, H>,
}

impl<H> View for SessionRegistry<H> {
    type V = Map<(TrackerId, TrackerId), H>;

    closed spec fn view(&self) -> Map<(TrackerId, TrackerId), H> {
        Map::new(
            |ids: (TrackerId, TrackerId)| self.sessions@.contains_key(session_key(ids.0, ids.1)),
            |ids: (TrackerId, TrackerId)| self.sessions@[session_key(ids.0, ids.1)],
        )
    }
}

impl<H> SessionRegistry<H> {
    /// A registry without any session object.
    pub fn new() -> (registry: Self)
        ensures
            registry@ == Map::<(TrackerId, TrackerId), H>::empty(),
    {
        let registry = SessionRegistry { sessions: HashMap::new() };
        assert(registry@ =~= Map::<(TrackerId, TrackerId), H>::empty());
        registry
    }

    /// Whether a session object is registered under `(service, object)`.
    pub fn contains(&self, service: TrackerId, object: TrackerId) -> (found: bool)
        ensures
            found == self@.contains_key((service, object)),
    {
        let key: u64 = key_of(service, object);
        self.sessions.contains_key(&key)
    }

    /// The handler registered under `(service, object)`, if there is one.
    pub fn lookup(&self, service: TrackerId, object: TrackerId) -> (handler: Option<&H>)
        ensures
            match handler {
                Some(h) => self@.contains_key((service, object)) && *h == self@[(service, object)],
                None => !self@.contains_key((service, object)),
            },
    {
        let key: u64 = key_of(service, object);
        self.sessions.get(&key)
    }

    /// Registers `handler` under `(service, object)`.
    ///
    /// A handler that was registered under the same pair is replaced and
    /// handed out. No other entry changes.
    pub fn register(&mut self, service: TrackerId, object: TrackerId, handler: H) -> (previous:
        Option<H>)
        ensures
            final(self)@ == old(self)@.insert((service, object), handler),
            previous == (if old(self)@.contains_key((service, object)) {
                Some(old(self)@[(service, object)])
            } else {
                None
            }),
    {
        let key: u64 = key_of(service, object);
        let previous = self.sessions.insert(key, handler);
        proof {
            assert forall|ids: (TrackerId, TrackerId)|
                session_key(ids.0, ids.1) == key <==> ids == (service, object) by {
                lemma_session_key_is_injective(ids.0, ids.1, service, object);
            }
            assert(final(self)@ =~= old(self)@.insert((service, object), handler));
        }
        previous
    }

    /// Removes the entry of `(service, object)` and hands its handler out.
    ///
    /// If nothing is registered under the pair nothing changes. No other
    /// entry changes.
    pub fn unregister(&mut self, service: TrackerId, object: TrackerId) -> (removed: Option<H>)
        ensures
            final(self)@ == old(self)@.remove((service, object)),
            removed == (if old(self)@.contains_key((service, object)) {
                Some(old(self)@[(service, object)])
            } else {
                None
            }),
    {
        let key: u64 = key_of(service, object);
        let removed = self.sessions.remove(&key);
        proof {
            assert forall|ids: (TrackerId, TrackerId)|
                session_key(ids.0, ids.1) == key <==> ids == (service, object) by {
                lemma_session_key_is_injective(ids.0, ids.1, service, object);
            }
            assert(final(self)@ =~= old(self)@.remove((service, object)));
        }
        removed
    }
}

} // verus!
