use chartfun::RollingBuffer;

#[test]
fn new_buffer_is_empty() {
    let b = RollingBuffer::new(60);
    assert_eq!(b.len(), 0);
    assert!(b.is_empty());
    assert!(!b.is_full());
    assert_eq!(b.capacity(), 60);
    assert!(b.to_vec().is_empty());
}

#[test]
fn len_counts_pushes_up_to_capacity() {
    let mut b = RollingBuffer::new(60);
    for n in 1..=60 {
        b.push(n);
        assert_eq!(b.len(), n as usize);
    }
    assert!(b.is_full());
    for n in 61..=80 {
        b.push(n);
        assert_eq!(b.len(), 60);
    }
}

#[test]
fn sixty_five_pushes_keep_last_sixty() {
    let mut b = RollingBuffer::new(60);
    for v in 0..65 {
        b.push(v);
    }
    let expected: Vec<i32> = (5..65).collect();
    assert_eq!(b.to_vec(), expected);
    assert_eq!(b.len(), 60);
}

#[test]
fn capacity_one_keeps_newest() {
    let mut b = RollingBuffer::new(1);
    b.push(7);
    b.push(-3);
    assert_eq!(b.to_vec(), vec![-3]);
    assert!(b.is_full());
}

#[test]
fn snapshot_is_oldest_first_and_repeatable() {
    let mut b = RollingBuffer::new(3);
    b.push(1);
    b.push(2);
    assert_eq!(b.to_vec(), vec![1, 2]);
    assert_eq!(b.to_vec(), vec![1, 2]);
    b.push(3);
    b.push(4);
    assert_eq!(b.to_vec(), vec![2, 3, 4]);
}
