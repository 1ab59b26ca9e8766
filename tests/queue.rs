use elusiv::queue::BoundedQueue;
use elusiv::types::ElusivError;

#[test]
fn queue_admits_capacity_then_full_and_serves_in_order() {
    let mut q: BoundedQueue<u64> = BoundedQueue::new(3);
    assert_eq!(q.enqueue(10), Ok(()));
    assert_eq!(q.enqueue(20), Ok(()));
    assert_eq!(q.enqueue(30), Ok(()));
    assert_eq!(q.enqueue(40), Err(ElusivError::QueueFull));
    assert_eq!(q.len(), 3);
    assert!(q.is_full());
    assert_eq!(q.dequeue_first(), Ok(10));
    assert_eq!(q.dequeue_first(), Ok(20));
    assert_eq!(q.dequeue_first(), Ok(30));
    assert_eq!(q.dequeue_first(), Err(ElusivError::QueueEmpty));
    assert!(q.is_empty());
}

#[test]
fn queue_of_capacity_zero_refuses_everything() {
    let mut q: BoundedQueue<u8> = BoundedQueue::new(0);
    assert_eq!(q.enqueue(1), Err(ElusivError::QueueFull));
    assert_eq!(q.dequeue_first(), Err(ElusivError::QueueEmpty));
    assert_eq!(q.capacity(), 0);
}

#[test]
fn queue_space_freed_by_dequeue_is_reusable() {
    let mut q: BoundedQueue<u8> = BoundedQueue::new(1);
    assert_eq!(q.enqueue(1), Ok(()));
    assert_eq!(q.first(), Some(&1));
    assert_eq!(q.enqueue(2), Err(ElusivError::QueueFull));
    assert_eq!(q.dequeue_first(), Ok(1));
    assert_eq!(q.enqueue(2), Ok(()));
    assert_eq!(q.dequeue_first(), Ok(2));
}
