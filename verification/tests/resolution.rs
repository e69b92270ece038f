use gecko_sidl::queue::TaskQueue;
use gecko_sidl::resolution::{ResolutionState, ServiceAvailability, ServiceClient};

#[test]
fn new_client_is_unresolved_and_empty() {
    let client: ServiceClient<u32> = ServiceClient::new();
    assert_eq!(client.state(), ResolutionState::Unresolved);
    assert_eq!(client.service_id(), None);
    assert_eq!(client.pending_len(), 0);
}

#[test]
fn first_caller_starts_the_lookup_later_callers_wait() {
    let mut client: ServiceClient<u32> = ServiceClient::new();
    let first = client.ensure_service_id();
    assert_eq!(first, ServiceAvailability::LookupStarted);
    assert!(first.starts_lookup());
    assert!(!first.is_available());
    assert_eq!(client.state(), ResolutionState::Resolving);
    for _ in 0..5 {
        let later = client.ensure_service_id();
        assert_eq!(later, ServiceAvailability::LookupPending);
        assert!(!later.starts_lookup());
        assert!(!later.is_available());
    }
    assert_eq!(client.state(), ResolutionState::Resolving);
}

#[test]
fn all_callers_observe_the_same_resolved_id() {
    let mut client: ServiceClient<u32> = ServiceClient::new();
    client.ensure_service_id();
    assert_eq!(client.service_resolved(7), Vec::<u32>::new());
    for _ in 0..3 {
        let answer = client.ensure_service_id();
        assert_eq!(answer, ServiceAvailability::Available(7));
        assert!(answer.is_available());
    }
    // A second answer of the directory changes nothing.
    assert_eq!(client.service_resolved(9), Vec::<u32>::new());
    assert_eq!(client.service_id(), Some(7));
    assert_eq!(client.ensure_service_id(), ServiceAvailability::Available(7));
}

#[test]
fn queued_tasks_are_released_in_order_exactly_once() {
    let mut client: ServiceClient<u32> = ServiceClient::new();
    assert_eq!(client.ensure_service_id(), ServiceAvailability::LookupStarted);
    assert_eq!(client.queue_task(10), None);
    assert_eq!(client.ensure_service_id(), ServiceAvailability::LookupPending);
    assert_eq!(client.queue_task(20), None);
    assert_eq!(client.queue_task(30), None);
    assert_eq!(client.pending_len(), 3);
    assert_eq!(client.service_resolved(4), vec![10, 20, 30]);
    assert_eq!(client.state(), ResolutionState::Resolved(4));
    assert_eq!(client.pending_len(), 0);
    assert_eq!(client.service_resolved(4), Vec::<u32>::new());
}

#[test]
fn nothing_is_queued_once_the_id_is_known() {
    let mut client: ServiceClient<u32> = ServiceClient::new();
    client.ensure_service_id();
    client.service_resolved(12);
    assert_eq!(client.queue_task(99), Some((12, 99)));
    assert_eq!(client.pending_len(), 0);
}

#[test]
fn answer_without_lookup_is_ignored() {
    let mut client: ServiceClient<u32> = ServiceClient::new();
    assert_eq!(client.queue_task(1), None);
    assert_eq!(client.service_resolved(3), Vec::<u32>::new());
    assert_eq!(client.state(), ResolutionState::Unresolved);
    assert_eq!(client.pending_len(), 1);
}

#[test]
fn failed_lookup_keeps_the_tasks_and_allows_another_attempt() {
    let mut client: ServiceClient<u32> = ServiceClient::new();
    client.ensure_service_id();
    client.queue_task(1);
    client.queue_task(2);
    client.resolution_failed();
    assert_eq!(client.state(), ResolutionState::Unresolved);
    assert_eq!(client.service_id(), None);
    assert_eq!(client.pending_len(), 2);
    // The next caller starts a new lookup, and only that one.
    assert_eq!(client.ensure_service_id(), ServiceAvailability::LookupStarted);
    assert_eq!(client.ensure_service_id(), ServiceAvailability::LookupPending);
    client.queue_task(3);
    assert_eq!(client.service_resolved(5), vec![1, 2, 3]);
}

#[test]
fn failure_without_lookup_changes_nothing() {
    let mut client: ServiceClient<u32> = ServiceClient::new();
    client.resolution_failed();
    assert_eq!(client.state(), ResolutionState::Unresolved);
    client.ensure_service_id();
    client.service_resolved(8);
    client.resolution_failed();
    assert_eq!(client.state(), ResolutionState::Resolved(8));
}

#[test]
fn task_queue_is_first_in_first_out() {
    let mut queue: TaskQueue<&str> = TaskQueue::new();
    assert!(queue.is_empty());
    assert_eq!(queue.len(), 0);
    queue.enqueue("a");
    queue.enqueue("b");
    queue.enqueue("c");
    assert!(!queue.is_empty());
    assert_eq!(queue.len(), 3);
    assert_eq!(queue.drain(), vec!["a", "b", "c"]);
    assert!(queue.is_empty());
    assert_eq!(queue.drain(), Vec::<&str>::new());
    queue.enqueue("d");
    assert_eq!(queue.drain(), vec!["d"]);
}
