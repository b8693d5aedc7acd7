use std::sync::Arc;

use messages_actix::identity::IdentityAllocator;
use messages_actix::shared_log::SharedMessageLog;
use messages_actix::worker::{WorkerState, PAYLOAD_LIMIT_BYTES};
use messages_actix::MessageApp;

#[test]
fn two_workers_share_the_log_but_not_counters() {
    let log = Arc::new(SharedMessageLog::new());
    let mut alloc = IdentityAllocator::new();
    let mut worker_a = WorkerState::new(alloc.next_identity(), Arc::clone(&log));
    let mut worker_b = WorkerState::new(alloc.next_identity(), Arc::clone(&log));

    let posted = worker_a.handle_append("hi".to_owned());
    assert_eq!(posted.server_id, 0);
    assert_eq!(posted.request_count, 1);
    assert_eq!(posted.message, "hi");

    let viewed = worker_a.handle_view();
    assert_eq!(viewed.server_id, 0);
    assert_eq!(viewed.request_count, 2);
    assert_eq!(viewed.message, vec!["hi".to_owned()]);

    let viewed_b = worker_b.handle_view();
    assert_eq!(viewed_b.server_id, 1);
    assert_eq!(viewed_b.request_count, 1);
    assert_eq!(viewed_b.message, vec!["hi".to_owned()]);
}

#[test]
fn interleaved_appends_keep_call_order() {
    let log = Arc::new(SharedMessageLog::new());
    let mut alloc = IdentityAllocator::new();
    let mut worker_a = WorkerState::new(alloc.next_identity(), Arc::clone(&log));
    let mut worker_b = WorkerState::new(alloc.next_identity(), Arc::clone(&log));

    worker_a.handle_append("a1".to_owned());
    worker_b.handle_append("b1".to_owned());
    worker_a.handle_append("a2".to_owned());

    assert_eq!(
        log.snapshot(),
        vec!["a1".to_owned(), "b1".to_owned(), "a2".to_owned()]
    );
    assert_eq!(worker_a.request_count(), 2);
    assert_eq!(worker_b.request_count(), 1);
}

#[test]
fn malformed_append_still_counts_the_request() {
    let log = Arc::new(SharedMessageLog::new());
    let mut worker = WorkerState::new(0, log);
    let response =
        worker.handle_append_error("Json deserialize error: expected value".to_owned());
    assert_eq!(response.server_id, 0);
    assert_eq!(response.request_count, 1);
    assert!(response.error.contains("deserialize"));
    assert_eq!(worker.request_count(), 1);
}

#[test]
fn lookup_on_empty_log_reports_absent() {
    let log = Arc::new(SharedMessageLog::new());
    let mut worker = WorkerState::new(0, log);
    let response = worker.handle_lookup(0);
    assert_eq!(response.server_id, 0);
    assert_eq!(response.request_count, 1);
    assert_eq!(response.result, None);
}

#[test]
fn every_handler_counts_exactly_one_request() {
    let log = Arc::new(SharedMessageLog::new());
    let mut worker = WorkerState::new(7, log);
    worker.handle_view();
    assert_eq!(worker.request_count(), 1);
    worker.handle_append("text".to_owned());
    assert_eq!(worker.request_count(), 2);
    worker.handle_lookup(0);
    assert_eq!(worker.request_count(), 3);
    worker.handle_clear();
    assert_eq!(worker.request_count(), 4);
    worker.handle_append_error("bad payload".to_owned());
    assert_eq!(worker.request_count(), 5);
    assert_eq!(worker.server_id(), 7);
}

#[test]
fn clear_handler_reports_an_empty_list() {
    let log = Arc::new(SharedMessageLog::new());
    let mut worker = WorkerState::new(0, Arc::clone(&log));
    worker.handle_append("soon gone".to_owned());
    let cleared = worker.handle_clear();
    assert!(cleared.message.is_empty());
    assert!(log.snapshot().is_empty());
}

#[test]
fn app_holds_the_configured_port() {
    let app = MessageApp::new(8000);
    assert_eq!(app.port(), 8000);
}

#[test]
fn payload_limit_is_4096_bytes() {
    assert_eq!(PAYLOAD_LIMIT_BYTES, 4096);
}
