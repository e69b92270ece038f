use gecko_sidl::message::{BaseMessageKind, Outgoing};
use gecko_sidl::observer::{
    CallbackReason, ObserverTask, ObserverWrapper, TimeServiceFromClient, TimeServiceToClient,
};
use gecko_sidl::session::SessionHandler;
use gecko_sidl::task::ThreadPtrHandle;

#[test]
fn observer_knows_its_address() {
    let wrapper = ObserverWrapper::new(ThreadPtrHandle(3), 9, 4);
    assert_eq!(wrapper.get_ids(), (9, 4));
    assert_eq!(SessionHandler::Observer(wrapper).get_ids(), (9, 4));
}

#[test]
fn observer_acknowledges_a_callback_and_dispatches_it() {
    let mut wrapper = ObserverWrapper::new(ThreadPtrHandle(3), 9, 4);
    let answer = wrapper.on_request(
        Some(TimeServiceToClient::TimeObserverCallback(CallbackReason::TimezoneChanged)),
        123,
    );
    assert_eq!(
        answer,
        Some((
            Outgoing {
                service: 9,
                object: 4,
                kind: BaseMessageKind::Response(123),
                payload: TimeServiceFromClient::TimeObserverCallbackSuccess,
            },
            ObserverTask { xpcom: ThreadPtrHandle(3), reason: CallbackReason::TimezoneChanged },
        ))
    );
    assert_eq!(wrapper, ObserverWrapper::new(ThreadPtrHandle(3), 9, 4));
}

#[test]
fn observer_answers_nothing_to_what_it_cannot_read() {
    let mut wrapper = ObserverWrapper::new(ThreadPtrHandle(3), 9, 4);
    assert_eq!(wrapper.on_request(None, 124), None);
    assert_eq!(wrapper.get_ids(), (9, 4));
}

#[test]
fn observer_ignores_events() {
    let mut wrapper = ObserverWrapper::new(ThreadPtrHandle(3), 9, 4);
    wrapper.on_event(vec![0, 1, 2]);
    assert_eq!(wrapper, ObserverWrapper::new(ThreadPtrHandle(3), 9, 4));
}

#[test]
fn observer_task_notifies_on_the_owning_thread_only() {
    let task = ObserverTask { xpcom: ThreadPtrHandle(8), reason: CallbackReason::TimeChanged };
    assert_eq!(task.run(true), Some((ThreadPtrHandle(8), 1)));
    assert_eq!(task.run(false), None);
    assert_eq!(task.done(), Ok(()));
}

#[test]
fn reasons_are_numbered_from_zero() {
    assert_eq!(CallbackReason::NoReason.code(), 0);
    assert_eq!(CallbackReason::TimeChanged.code(), 1);
    assert_eq!(CallbackReason::TimezoneChanged.code(), 2);
}
