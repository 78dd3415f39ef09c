use kernel_core::queue::Queue;
use kernel_core::queue::QUEUE_CAPACITY;

#[test]
fn queue_in_out() {
    let mut q = Queue::<u8>::new();

    assert_eq!(None, q.try_dequeue());

    for i in 1..8 {
        q.enqueue(i).unwrap();
    }
    for i in 1..8 {
        assert_eq!(i, q.try_dequeue().unwrap());
    }

    assert_eq!(None, q.try_dequeue());

    for i in 1..8 {
        q.enqueue(i).unwrap();
    }
    for i in 1..8 {
        assert_eq!(i, q.try_dequeue().unwrap());
    }

    assert_eq!(None, q.try_dequeue());
}

#[test]
fn queue_full_enqueue_fails_and_preserves_contents() {
    let mut q = Queue::<u32>::new();
    for i in 0..QUEUE_CAPACITY as u32 {
        assert_eq!(Ok(()), q.enqueue(i));
    }
    assert_eq!(QUEUE_CAPACITY, q.count);
    assert_eq!(Err(()), q.enqueue(999));
    assert_eq!(QUEUE_CAPACITY, q.count);
    for i in 0..QUEUE_CAPACITY as u32 {
        assert_eq!(Some(i), q.try_dequeue());
    }
    assert_eq!(None, q.try_dequeue());
}

#[test]
fn queue_empty_dequeue_changes_nothing() {
    let mut q = Queue::<u8>::new();
    assert_eq!(None, q.try_dequeue());
    assert_eq!(None, q.try_dequeue());
    assert_eq!(0, q.count);
    q.enqueue(5).unwrap();
    assert_eq!(Some(5), q.try_dequeue());
}

#[test]
fn queue_wraps_around_the_ring() {
    let mut q = Queue::<usize>::new();
    // walk the cursors several times around the ring while partly full
    for i in 0..QUEUE_CAPACITY * 4 {
        q.enqueue(i).unwrap();
        q.enqueue(i + 1000).unwrap();
        assert_eq!(Some(i), q.try_dequeue());
        assert_eq!(Some(i + 1000), q.try_dequeue());
    }
    assert_eq!(None, q.try_dequeue());
}

#[test]
fn queue_len_tracks_pending_items() {
    let mut q = Queue::<u8>::new();
    assert_eq!(0, q.len());
    q.enqueue(1).unwrap();
    q.enqueue(2).unwrap();
    assert_eq!(2, q.len());
    assert_eq!(2, q.count);
    q.try_dequeue().unwrap();
    assert_eq!(1, q.len());
}
