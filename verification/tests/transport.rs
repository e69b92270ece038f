use gecko_sidl::client_object::ClientObject;
use gecko_sidl::correlation::{PendingCalls, FIRST_REQUEST_ID};
use gecko_sidl::delegate::{DelegateCall, DelegateRole, DelegateWrapper};
use gecko_sidl::message::{BaseMessage, BaseMessageKind, Outgoing, SERVICE_OBJECT};
use gecko_sidl::registry::SessionRegistry;
use gecko_sidl::session::SessionHandler;
use gecko_sidl::task::{
    CallFailure, CallResponse, Completion, SidlCallTask, TaskReceiver, TaskSender, ThreadPtrHandle,
};
use gecko_sidl::transport::{Delivery, Transport};

fn message(service: u32, object: u32, kind: BaseMessageKind) -> BaseMessage {
    BaseMessage { service, object, kind, content: vec![1, 2, 3] }
}

#[test]
fn kind_carries_request_id() {
    assert_eq!(BaseMessageKind::Request(4).request_id(), Some(4));
    assert_eq!(BaseMessageKind::Response(u64::MAX).request_id(), Some(u64::MAX));
    assert_eq!(BaseMessageKind::Event.request_id(), None);
}

#[test]
fn outgoing_is_framed_with_its_content() {
    let outgoing =
        Outgoing { service: 3, object: 9, kind: BaseMessageKind::Response(77), payload: "ack" };
    assert_eq!(
        outgoing.into_message(vec![0xab, 0xcd]),
        BaseMessage {
            service: 3,
            object: 9,
            kind: BaseMessageKind::Response(77),
            content: vec![0xab, 0xcd]
        }
    );
}

#[test]
fn registry_keeps_services_and_objects_apart() {
    let mut registry: SessionRegistry<&str> = SessionRegistry::new();
    assert!(!registry.contains(0, 0));
    assert_eq!(registry.register(1, 2, "one-two"), None);
    assert_eq!(registry.register(2, 1, "two-one"), None);
    assert_eq!(registry.register(0, u32::MAX, "zero-max"), None);
    assert_eq!(registry.register(u32::MAX, 0, "max-zero"), None);
    assert_eq!(registry.register(u32::MAX, u32::MAX, "max-max"), None);
    assert_eq!(registry.lookup(1, 2), Some(&"one-two"));
    assert_eq!(registry.lookup(2, 1), Some(&"two-one"));
    assert_eq!(registry.lookup(0, u32::MAX), Some(&"zero-max"));
    assert_eq!(registry.lookup(u32::MAX, 0), Some(&"max-zero"));
    assert_eq!(registry.lookup(u32::MAX, u32::MAX), Some(&"max-max"));
    assert_eq!(registry.lookup(1, 1), None);
    assert!(registry.contains(1, 2));
    assert!(!registry.contains(2, 2));
}

#[test]
fn registry_replaces_and_removes_one_entry_only() {
    let mut registry: SessionRegistry<u8> = SessionRegistry::new();
    registry.register(5, 0, 1);
    registry.register(5, 1, 2);
    assert_eq!(registry.register(5, 1, 3), Some(2));
    assert_eq!(registry.lookup(5, 1), Some(&3));
    assert_eq!(registry.lookup(5, 0), Some(&1));
    assert_eq!(registry.unregister(5, 1), Some(3));
    assert_eq!(registry.unregister(5, 1), None);
    assert_eq!(registry.lookup(5, 1), None);
    assert_eq!(registry.lookup(5, 0), Some(&1));
}

#[test]
fn request_ids_are_handed_out_in_increasing_order() {
    let mut calls: PendingCalls<&str> = PendingCalls::new();
    assert_eq!(FIRST_REQUEST_ID, 1);
    assert_eq!(calls.register("a"), Ok(1));
    assert_eq!(calls.register("b"), Ok(2));
    assert_eq!(calls.register("c"), Ok(3));
    assert_eq!(calls.len(), 3);
    assert!(calls.is_pending(2));
    assert!(!calls.is_pending(4));
    assert!(!calls.is_pending(0));
}

#[test]
fn response_completes_its_call_and_no_other() {
    let mut calls: PendingCalls<&str> = PendingCalls::new();
    calls.register("a").unwrap();
    calls.register("b").unwrap();
    calls.register("c").unwrap();
    assert_eq!(calls.complete(2), Some("b"));
    assert_eq!(calls.complete(2), None);
    assert_eq!(calls.len(), 2);
    assert!(calls.is_pending(1));
    assert!(calls.is_pending(3));
    // A completed id is not handed out again.
    assert_eq!(calls.register("d"), Ok(4));
    assert_eq!(calls.complete(1), Some("a"));
    assert_eq!(calls.complete(3), Some("c"));
    assert_eq!(calls.complete(4), Some("d"));
    assert_eq!(calls.len(), 0);
}

#[test]
fn response_without_pending_call_is_discarded() {
    let mut calls: PendingCalls<&str> = PendingCalls::new();
    assert_eq!(calls.complete(1), None);
    calls.register("a").unwrap();
    assert_eq!(calls.complete(99), None);
    assert_eq!(calls.len(), 1);
    assert!(calls.is_pending(1));
}

#[test]
fn dispatch_routes_by_address_and_kind() {
    let mut transport: Transport<&str, &str> = Transport::new();
    transport.register_session_object(7, 0, "root");
    transport.register_session_object(7, 1, "delegate");
    assert_eq!(
        transport.dispatch(&message(7, 1, BaseMessageKind::Request(42))),
        Delivery::Request { service: 7, object: 1, request_id: 42 }
    );
    assert_eq!(
        transport.dispatch(&message(7, 0, BaseMessageKind::Event)),
        Delivery::Event { service: 7, object: 0 }
    );
    assert_eq!(transport.session_object(7, 1), Some(&"delegate"));
    assert_eq!(transport.session_object(7, 0), Some(&"root"));
    assert_eq!(transport.session_object(7, 2), None);
}

#[test]
fn dispatch_drops_envelopes_for_unknown_destinations() {
    let mut transport: Transport<&str, &str> = Transport::new();
    transport.register_session_object(7, 0, "root");
    let sent = transport.send_request(7, 0, (), "receiver").unwrap();
    assert_eq!(sent.kind, BaseMessageKind::Request(1));
    for kind in
        [BaseMessageKind::Request(1), BaseMessageKind::Response(1), BaseMessageKind::Event]
    {
        assert_eq!(transport.dispatch(&message(7, 1, kind)), Delivery::UnknownDestination);
        assert_eq!(transport.dispatch(&message(8, 0, kind)), Delivery::UnknownDestination);
    }
    // The call still waits: a response to a known destination completes it.
    assert!(transport.is_pending(1));
    assert_eq!(
        transport.dispatch(&message(7, 0, BaseMessageKind::Response(1))),
        Delivery::Response { request_id: 1, receiver: "receiver" }
    );
}

#[test]
fn dispatch_delivers_a_response_once() {
    let mut transport: Transport<&str, &str> = Transport::new();
    transport.register_session_object(7, 0, "root");
    let first = transport.send_request(7, 0, "payload one", "first").unwrap();
    let second = transport.send_request(7, 0, "payload two", "second").unwrap();
    assert_eq!(
        first,
        Outgoing {
            service: 7,
            object: 0,
            kind: BaseMessageKind::Request(1),
            payload: "payload one"
        }
    );
    assert_eq!(
        second,
        Outgoing {
            service: 7,
            object: 0,
            kind: BaseMessageKind::Request(2),
            payload: "payload two"
        }
    );
    assert_eq!(
        transport.dispatch(&message(7, 0, BaseMessageKind::Response(2))),
        Delivery::Response { request_id: 2, receiver: "second" }
    );
    assert_eq!(
        transport.dispatch(&message(7, 0, BaseMessageKind::Response(2))),
        Delivery::UnmatchedResponse
    );
    assert!(transport.is_pending(1));
    assert!(!transport.is_pending(2));
    assert_eq!(
        transport.dispatch(&message(7, 0, BaseMessageKind::Response(3))),
        Delivery::UnmatchedResponse
    );
    assert_eq!(
        transport.dispatch(&message(7, 0, BaseMessageKind::Response(1))),
        Delivery::Response { request_id: 1, receiver: "first" }
    );
}

#[test]
fn unregistered_object_is_an_unknown_destination() {
    let mut transport: Transport<SessionHandler, ()> = Transport::new();
    let wrapper =
        DelegateWrapper::new(DelegateRole::PowerManager, ThreadPtrHandle(11), 7, 1);
    let object = ClientObject::new(SessionHandler::Delegate(wrapper), &mut transport);
    assert_eq!(object.get_ids(), (7, 1));
    assert_eq!(transport.session_object(7, 1), Some(&SessionHandler::Delegate(wrapper)));
    assert_eq!(
        transport.dispatch(&message(7, 1, BaseMessageKind::Request(5))),
        Delivery::Request { service: 7, object: 1, request_id: 5 }
    );
    object.release(&mut transport);
    assert_eq!(transport.session_object(7, 1), None);
    assert_eq!(
        transport.dispatch(&message(7, 1, BaseMessageKind::Request(6))),
        Delivery::UnknownDestination
    );
    assert_eq!(
        transport.dispatch(&message(7, 1, BaseMessageKind::Event)),
        Delivery::UnknownDestination
    );
}

#[test]
fn releasing_one_object_leaves_the_others() {
    let mut transport: Transport<SessionHandler, ()> = Transport::new();
    let root = ClientObject::new(SessionHandler::Service { service_id: 7 }, &mut transport);
    let first = ClientObject::new(
        SessionHandler::Delegate(DelegateWrapper::new(
            DelegateRole::CardInfoManager,
            ThreadPtrHandle(1),
            7,
            1,
        )),
        &mut transport,
    );
    let second = ClientObject::new(
        SessionHandler::Delegate(DelegateWrapper::new(
            DelegateRole::NetworkManager,
            ThreadPtrHandle(2),
            7,
            2,
        )),
        &mut transport,
    );
    assert_eq!(root.get_ids(), (7, SERVICE_OBJECT));
    first.release(&mut transport);
    assert_eq!(
        transport.dispatch(&message(7, 1, BaseMessageKind::Event)),
        Delivery::UnknownDestination
    );
    assert_eq!(
        transport.dispatch(&message(7, 2, BaseMessageKind::Event)),
        Delivery::Event { service: 7, object: 2 }
    );
    assert_eq!(
        transport.dispatch(&message(7, 0, BaseMessageKind::Event)),
        Delivery::Event { service: 7, object: 0 }
    );
    assert_eq!(second.get_ids(), (7, 2));
}

#[test]
fn session_handlers_know_their_address() {
    assert_eq!(SessionHandler::Service { service_id: 21 }.get_ids(), (21, 0));
    let mut wrapper = DelegateWrapper::new(DelegateRole::NetworkManager, ThreadPtrHandle(5), 21, 3);
    assert_eq!(wrapper.get_ids(), (21, 3));
    assert_eq!(SessionHandler::Delegate(wrapper).get_ids(), (21, 3));
    wrapper.on_event(vec![1, 2, 3]);
    assert_eq!(wrapper.get_ids(), (21, 3));
}

#[test]
fn delegate_acknowledges_a_callback_and_forwards_it() {
    let mut wrapper = DelegateWrapper::new(DelegateRole::PowerManager, ThreadPtrHandle(5), 21, 3);
    let answer = wrapper.on_request(Some("screen off"), 88, "accepted");
    assert_eq!(
        answer,
        Some((
            Outgoing {
                service: 21,
                object: 3,
                kind: BaseMessageKind::Response(88),
                payload: "accepted"
            },
            DelegateCall { delegate: ThreadPtrHandle(5), callback: "screen off" }
        ))
    );
    let nothing = wrapper.on_request(None::<&str>, 89, "accepted");
    assert_eq!(nothing, None);
}

#[test]
fn sender_addresses_its_session_object() {
    let mut transport: Transport<(), u8> = Transport::new();
    let sender = TaskSender::new(12, 4);
    assert_eq!(
        sender.send_task(&mut transport, "hello", 1),
        Ok(Outgoing {
            service: 12,
            object: 4,
            kind: BaseMessageKind::Request(1),
            payload: "hello"
        })
    );
    assert_eq!(
        sender.send_task(&mut transport, "again", 2),
        Ok(Outgoing {
            service: 12,
            object: 4,
            kind: BaseMessageKind::Request(2),
            payload: "again"
        })
    );
    assert!(transport.is_pending(1));
    assert!(transport.is_pending(2));
}

#[test]
fn receiver_turns_a_response_into_the_callers_outcome() {
    let task = SidlCallTask::new(ThreadPtrHandle(40));
    let receiver = TaskReceiver { method: "get", task };
    assert_eq!(
        receiver.on_response(CallResponse::<u32, &str>::Success(5)),
        Completion { callback: ThreadPtrHandle(40), result: Ok(5) }
    );
    assert_eq!(
        receiver.on_response(CallResponse::<u32, &str>::Error("denied")),
        Completion { callback: ThreadPtrHandle(40), result: Err(CallFailure::Remote("denied")) }
    );
    assert_eq!(
        receiver.on_response(CallResponse::<u32, &str>::Unexpected),
        Completion { callback: ThreadPtrHandle(40), result: Err(CallFailure::Decode) }
    );
    assert_eq!(
        task.complete(CallResponse::<(), ()>::Success(())),
        Completion { callback: ThreadPtrHandle(40), result: Ok(()) }
    );
}

#[test]
fn last_request_id_is_never_handed_out_twice() {
    let mut calls: PendingCalls<&str> = PendingCalls::starting_at(u64::MAX - 2);
    assert_eq!(calls.register("a"), Ok(u64::MAX - 2));
    assert_eq!(calls.register("b"), Ok(u64::MAX - 1));
    assert_eq!(calls.register("c"), Err("c"));
    assert_eq!(calls.register("d"), Err("d"));
    assert_eq!(calls.len(), 2);
    assert_eq!(calls.complete(u64::MAX - 1), Some("b"));
    assert_eq!(calls.register("e"), Err("e"));

    let mut transport: Transport<(), &str> = Transport::starting_at(u64::MAX);
    assert_eq!(transport.send_request(1, 0, "payload", "receiver"), Err("receiver"));
    assert!(!transport.is_pending(u64::MAX));
}
