//! The in-process follow-up buffer.

use openprot::ipc_event_queue::PendingQueue;

#[test]
fn pending_drains_in_fifo_order() {
    let mut q: PendingQueue<u8, 4> = PendingQueue::new();
    assert!(q.is_empty());
    q.push(1).unwrap();
    q.push(2).unwrap();
    assert_eq!(q.pop(), Some(1));
    assert_eq!(q.pop(), Some(2));
    assert_eq!(q.pop(), None);
    assert!(q.is_empty());
}

#[test]
fn pending_reports_and_rejects_overflow() {
    let mut q: PendingQueue<u8, 2> = PendingQueue::new();
    q.push(1).unwrap();
    q.push(2).unwrap();
    assert!(q.is_full());
    assert_eq!(q.push(3), Err(3));
}

#[test]
fn a_popped_slot_can_be_filled_again() {
    let mut q: PendingQueue<u8, 2> = PendingQueue::default();
    q.push(1).unwrap();
    q.push(2).unwrap();
    assert_eq!(q.pop(), Some(1));
    assert!(!q.is_full());
    assert_eq!(q.push(3), Ok(()));
    assert_eq!(q.pop(), Some(2));
    assert_eq!(q.pop(), Some(3));
    assert!(q.is_empty());
}
