use kantocurses::messages::KantoRequest;
use kantocurses::queue::BoundedQueue;
use kantocurses::worker::{request_to_call, BackendCall};

#[test]
fn burst_beyond_capacity_never_blocks_and_caps_out() {
    let mut q: BoundedQueue<u32> = BoundedQueue::new(32);
    let mut accepted = 0;
    for i in 0..100u32 {
        if q.best_effort_send(i) {
            accepted += 1;
        }
    }
    assert_eq!(accepted, 32);
    assert_eq!(q.len(), 32);
    // the queue kept the first 32 sends, in order
    for i in 0..32u32 {
        assert_eq!(q.recv(), Some(i));
    }
    assert_eq!(q.recv(), None);
}

#[test]
fn recv_on_empty_queue_returns_none() {
    let mut q: BoundedQueue<u32> = BoundedQueue::new(4);
    assert_eq!(q.recv(), None);
    assert!(q.best_effort_send(7));
    assert_eq!(q.recv(), Some(7));
    assert_eq!(q.recv(), None);
}

#[test]
fn zero_capacity_queue_drops_everything() {
    let mut q: BoundedQueue<u32> = BoundedQueue::new(0);
    assert!(!q.best_effort_send(1));
    assert_eq!(q.len(), 0);
    assert_eq!(q.recv(), None);
}

#[test]
fn commands_processed_in_submission_order() {
    // a stop submitted while an earlier start is still queued is handed to
    // the worker only after the start
    let mut q: BoundedQueue<KantoRequest> = BoundedQueue::new(32);
    assert!(q.best_effort_send(KantoRequest::StartContainer("y".to_string())));
    assert!(q.best_effort_send(KantoRequest::StopContainer("x".to_string(), 5)));

    let first = q.recv().expect("first command");
    match request_to_call(&first) {
        BackendCall::Start { id } => assert_eq!(id, "y"),
        _ => panic!("the start command must be dispatched first"),
    }
    let second = q.recv().expect("second command");
    match request_to_call(&second) {
        BackendCall::Stop { id, timeout, force, signal } => {
            assert_eq!(id, "x");
            assert_eq!(timeout, 5);
            assert!(force);
            assert_eq!(signal, "SIGTERM");
        }
        _ => panic!("the stop command must be dispatched second"),
    }
    assert!(q.recv().is_none());
}
