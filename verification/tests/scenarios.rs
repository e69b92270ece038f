use gecko_sidl::bridge::messages::{
    GeckoBridgeFromClient, GeckoBridgeMethod, GeckoBridgeToClient, ObjectRef,
};
use gecko_sidl::bridge::client::{CallStep, GeckoBridge};
use gecko_sidl::bridge::tasks::UdsTransport;
use gecko_sidl::bridge::xpcom::{gecko_bridge_construct, GeckoBridgeXpcom, UdsConnection};
use gecko_sidl::delegate::{DelegateRole, DelegateWrapper};
use gecko_sidl::message::{BaseMessage, BaseMessageKind, Outgoing};
use gecko_sidl::observer::ObserverWrapper;
use gecko_sidl::session::SessionHandler;
use gecko_sidl::task::{Completion, SidlCallTask, TaskReceiver, ThreadPtrHandle};
use gecko_sidl::transport::Delivery;
use std::sync::Arc;

fn response(service: u32, object: u32, id: u64) -> BaseMessage {
    BaseMessage { service, object, kind: BaseMessageKind::Response(id), content: vec![0] }
}

#[test]
fn delegate_set_before_resolution_is_sent_after_it_and_answered_once() {
    let mut transport = UdsTransport::new();
    let mut bridge = GeckoBridge::new();
    let delegate = ThreadPtrHandle(500);
    let callback = ThreadPtrHandle(600);

    // The service id is not known: the call is queued and the lookup starts.
    assert_eq!(
        bridge.set_power_manager_delegate(&mut transport, delegate, callback),
        Ok(CallStep::Queued { lookup: true })
    );
    assert_eq!(bridge.pending_len(), 1);

    // Resolution completes with id 7: the queued call is sent as a request of service 7
    // for object 1, the first object id that the client hands out.
    let sent = bridge.service_resolved(&mut transport, 7);
    assert_eq!(
        sent,
        vec![Outgoing {
            service: 7,
            object: 1,
            kind: BaseMessageKind::Request(1),
            payload: GeckoBridgeFromClient::GeckoFeaturesSetPowerManagerDelegate(ObjectRef(1)),
        }]
    );
    assert_eq!(bridge.pending_len(), 0);
    assert_eq!(
        transport.session_object(7, 1),
        Some(&SessionHandler::Delegate(DelegateWrapper {
            role: DelegateRole::PowerManager,
            delegate,
            service_id: 7,
            object_id: 1,
        }))
    );

    // The daemon replies with success: the caller's receiver hears it, once.
    let delivery = transport.dispatch(&response(7, 1, 1));
    let receiver = TaskReceiver {
        method: GeckoBridgeMethod::SetPowerManagerDelegate,
        task: SidlCallTask::new(callback),
    };
    assert_eq!(delivery, Delivery::Response { request_id: 1, receiver });
    let decoded = receiver
        .method
        .response(Some(GeckoBridgeToClient::GeckoFeaturesSetPowerManagerDelegateSuccess));
    assert_eq!(receiver.on_response(decoded), Completion { callback, result: Ok(()) });
    assert_eq!(transport.dispatch(&response(7, 1, 1)), Delivery::UnmatchedResponse);
    assert_eq!(transport.dispatch(&response(7, 0, 1)), Delivery::UnmatchedResponse);
}

#[test]
fn two_holders_of_the_bridge_send_one_lookup() {
    let connection = UdsConnection::new();
    let bridge = Arc::new(GeckoBridgeXpcom::new(Some(connection.share())).unwrap());
    let holders = [Arc::clone(&bridge), Arc::clone(&bridge)];
    let mut lookups = 0;
    for (n, holder) in holders.iter().enumerate() {
        match holder.bool_pref_changed(format!("pref{}", n), true, ThreadPtrHandle(n as u64)) {
            Ok(CallStep::Queued { lookup }) => {
                if lookup {
                    lookups += 1;
                }
            }
            other => panic!("unexpected step: {:?}", other),
        }
    }
    assert_eq!(lookups, 1);
    assert_eq!(bridge.service_id(), None);
    // Both calls are replayed when the id arrives, each once.
    let sent = bridge.service_resolved(3);
    assert_eq!(
        sent,
        vec![
            Outgoing {
                service: 3,
                object: 0,
                kind: BaseMessageKind::Request(1),
                payload: GeckoBridgeFromClient::GeckoFeaturesBoolPrefChanged("pref0".to_string(), true),
            },
            Outgoing {
                service: 3,
                object: 0,
                kind: BaseMessageKind::Request(2),
                payload: GeckoBridgeFromClient::GeckoFeaturesBoolPrefChanged("pref1".to_string(), true),
            },
        ]
    );
    assert_eq!(bridge.service_resolved(3), vec![]);
    assert_eq!(bridge.service_id(), Some(3));
}

#[test]
fn two_callers_in_turn_send_one_lookup() {
    let mut transport = UdsTransport::new();
    let mut bridge = GeckoBridge::new();
    assert_eq!(
        bridge.int_pref_changed(&mut transport, "a".to_string(), 1, ThreadPtrHandle(1)),
        Ok(CallStep::Queued { lookup: true })
    );
    assert_eq!(
        bridge.int_pref_changed(&mut transport, "b".to_string(), 2, ThreadPtrHandle(2)),
        Ok(CallStep::Queued { lookup: false })
    );
    assert_eq!(bridge.pending_len(), 2);
}

#[test]
fn event_for_an_unregistered_delegate_reaches_nobody() {
    let connection = UdsConnection::new();
    let wrapper = ObserverWrapper::new(ThreadPtrHandle(9), 2, 5);
    let object = connection.register(SessionHandler::Observer(wrapper));
    assert_eq!(object.get_ids(), (2, 5));
    let event = BaseMessage { service: 2, object: 5, kind: BaseMessageKind::Event, content: vec![] };
    assert_eq!(connection.dispatch(&event), Delivery::Event { service: 2, object: 5 });
    assert_eq!(connection.session_object(2, 5), Some(SessionHandler::Observer(wrapper)));
    connection.unregister(object);
    // Nothing is found to call and nothing to answer with.
    assert_eq!(connection.dispatch(&event), Delivery::UnknownDestination);
    assert_eq!(connection.session_object(2, 5), None);
    let request =
        BaseMessage { service: 2, object: 5, kind: BaseMessageKind::Request(3), content: vec![] };
    assert_eq!(connection.dispatch(&request), Delivery::UnknownDestination);
}

#[test]
fn bridge_needs_a_connection() {
    assert!(gecko_bridge_construct(None).is_none());
    assert!(GeckoBridgeXpcom::new(None).is_none());
    let connection = UdsConnection::new();
    let bridge = gecko_bridge_construct(Some(connection.share())).unwrap();
    assert_eq!(bridge.service_id(), None);
}

#[test]
fn shared_bridge_makes_calls_through_the_shared_transport() {
    let connection = UdsConnection::new();
    let bridge = gecko_bridge_construct(Some(connection.share())).unwrap();
    assert_eq!(
        bridge.set_card_info_manager_delegate(ThreadPtrHandle(1), ThreadPtrHandle(2)),
        Ok(CallStep::Queued { lookup: true })
    );
    assert_eq!(
        bridge.set_network_manager_delegate(ThreadPtrHandle(3), ThreadPtrHandle(4)),
        Ok(CallStep::Queued { lookup: false })
    );
    bridge.resolution_failed();
    assert_eq!(
        bridge.char_pref_changed("k".to_string(), "v".to_string(), ThreadPtrHandle(5)),
        Ok(CallStep::Queued { lookup: true })
    );
    let sent = bridge.service_resolved(11);
    assert_eq!(
        sent,
        vec![
            Outgoing {
                service: 11,
                object: 1,
                kind: BaseMessageKind::Request(1),
                payload: GeckoBridgeFromClient::GeckoFeaturesSetCardInfoManagerDelegate(ObjectRef(1)),
            },
            Outgoing {
                service: 11,
                object: 2,
                kind: BaseMessageKind::Request(2),
                payload: GeckoBridgeFromClient::GeckoFeaturesSetNetworkManagerDelegate(ObjectRef(2)),
            },
            Outgoing {
                service: 11,
                object: 0,
                kind: BaseMessageKind::Request(3),
                payload: GeckoBridgeFromClient::GeckoFeaturesCharPrefChanged(
                    "k".to_string(),
                    "v".to_string()
                ),
            },
        ]
    );
    assert_eq!(bridge.service_id(), Some(11));
    assert_eq!(
        bridge.set_power_manager_delegate(ThreadPtrHandle(6), ThreadPtrHandle(7)),
        Ok(CallStep::Sent(Outgoing {
            service: 11,
            object: 3,
            kind: BaseMessageKind::Request(4),
            payload: GeckoBridgeFromClient::GeckoFeaturesSetPowerManagerDelegate(ObjectRef(3)),
        }))
    );
    assert_eq!(
        bridge.int_pref_changed("n".to_string(), 5, ThreadPtrHandle(8)),
        Ok(CallStep::Sent(Outgoing {
            service: 11,
            object: 0,
            kind: BaseMessageKind::Request(5),
            payload: GeckoBridgeFromClient::GeckoFeaturesIntPrefChanged("n".to_string(), 5),
        }))
    );
    // The reader of the connection sees the registrations and the waiting calls.
    assert_eq!(
        connection.dispatch(&response(11, 3, 4)),
        Delivery::Response {
            request_id: 4,
            receiver: TaskReceiver {
                method: GeckoBridgeMethod::SetPowerManagerDelegate,
                task: SidlCallTask::new(ThreadPtrHandle(7)),
            },
        }
    );
    assert_eq!(connection.dispatch(&response(11, 0, 4)), Delivery::UnmatchedResponse);
    assert_eq!(
        connection.session_object(11, 3),
        Some(SessionHandler::Delegate(DelegateWrapper {
            role: DelegateRole::PowerManager,
            delegate: ThreadPtrHandle(6),
            service_id: 11,
            object_id: 3,
        }))
    );
    bridge.release();
    assert_eq!(connection.session_object(11, 0), None);
    assert_eq!(connection.session_object(11, 3), None);
    assert_eq!(bridge.service_id(), None);
}
