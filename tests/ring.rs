use voteperfx::CircularBuffer;

fn contents(b: &CircularBuffer<u64>) -> Vec<u64> {
    b.iter().into_iter().copied().collect()
}

#[test]
fn ring_keeps_everything_below_capacity() {
    let mut b: CircularBuffer<u64> = CircularBuffer::new(4);
    assert_eq!(b.len(), 0);
    b.push(1);
    b.push(2);
    b.push(3);
    assert_eq!(b.len(), 3);
    assert_eq!(contents(&b), vec![1, 2, 3]);
}

#[test]
fn ring_overflow_keeps_last_capacity_items_in_order() {
    let mut b: CircularBuffer<u64> = CircularBuffer::new(3);
    for x in 1..=5u64 {
        b.push(x);
    }
    assert_eq!(b.len(), 3);
    assert_eq!(contents(&b), vec![3, 4, 5]);
    assert_eq!(*b.get(0), 3);
    assert_eq!(*b.get(2), 5);
}

#[test]
fn ring_exactly_full_then_many_more() {
    let mut b: CircularBuffer<u64> = CircularBuffer::new(50);
    for x in 0..50u64 {
        b.push(x);
    }
    assert_eq!(contents(&b), (0..50).collect::<Vec<u64>>());
    for x in 50..177u64 {
        b.push(x);
    }
    assert_eq!(b.len(), 50);
    assert_eq!(contents(&b), (127..177).collect::<Vec<u64>>());
}

#[test]
fn ring_of_one() {
    let mut b: CircularBuffer<u64> = CircularBuffer::new(1);
    b.push(7);
    b.push(8);
    assert_eq!(contents(&b), vec![8]);
}
