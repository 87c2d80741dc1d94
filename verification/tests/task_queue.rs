use dtx_core::machine::Job;
use dtx_core::queue::TaskQueue;
use dtx_core::queue::QUEUE_CAPACITY;

#[test]
fn runs_jobs_in_submission_order() {
    let mut q = TaskQueue::new();
    assert!(q.try_enqueue(Job::Detach));
    assert!(q.try_enqueue(Job::DetachAbort));
    assert!(q.try_enqueue(Job::Attach { delay_ms: 10 }));
    assert_eq!(q.dequeue(), Some(Job::Detach));
    assert_eq!(q.dequeue(), Some(Job::DetachAbort));
    assert_eq!(q.dequeue(), Some(Job::Attach { delay_ms: 10 }));
    assert_eq!(q.dequeue(), None);
}

#[test]
fn dequeue_on_empty_queue_yields_nothing() {
    let mut q = TaskQueue::new();
    assert_eq!(q.len(), 0);
    assert_eq!(q.dequeue(), None);
}

#[test]
fn burst_of_33_drops_exactly_one_and_keeps_order() {
    let mut q = TaskQueue::new();
    let mut accepted: usize = 0;
    let mut dropped: usize = 0;
    for i in 0..33u64 {
        if q.try_enqueue(Job::Attach { delay_ms: i }) {
            accepted += 1;
        } else {
            dropped += 1;
        }
    }
    assert_eq!(accepted, 32);
    assert_eq!(dropped, 1);
    assert_eq!(q.len(), QUEUE_CAPACITY);
    // the 32 kept jobs run in submission order; the 33rd is gone
    for i in 0..32u64 {
        assert_eq!(q.dequeue(), Some(Job::Attach { delay_ms: i }));
    }
    assert_eq!(q.dequeue(), None);
}

#[test]
fn room_freed_by_the_consumer_is_usable_again() {
    let mut q = TaskQueue::new();
    for _ in 0..QUEUE_CAPACITY {
        assert!(q.try_enqueue(Job::Detach));
    }
    assert!(!q.try_enqueue(Job::DetachAbort));
    assert_eq!(q.dequeue(), Some(Job::Detach));
    assert!(q.try_enqueue(Job::DetachAbort));
    assert_eq!(q.len(), QUEUE_CAPACITY);
}
