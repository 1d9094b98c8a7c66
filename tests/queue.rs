use radishmq::queue::Queue;

#[test]
fn queue_is_first_in_first_out() {
    let mut q: Queue<u32> = Queue::new();
    assert!(q.is_empty());
    q.enqueue(1);
    q.enqueue(2);
    q.enqueue(3);
    assert!(!q.is_empty());
    assert_eq!(q.dequeue(), Some(1));
    assert_eq!(q.dequeue(), Some(2));
    q.enqueue(4);
    assert_eq!(q.dequeue(), Some(3));
    assert_eq!(q.dequeue(), Some(4));
    assert_eq!(q.dequeue(), None);
    assert!(q.is_empty());
}

#[test]
fn default_queue_is_empty() {
    let mut q: Queue<u32> = Queue::default();
    assert!(q.is_empty());
    assert_eq!(q.dequeue(), None);
}
