use universal_robot::rolling_buffer::RollingBuffer;

#[test]
fn keeps_the_last_capacity_items_in_order() {
    for capacity in 1usize..5 {
        for k in 0usize..6 {
            let mut b = RollingBuffer::new(capacity);
            let n = capacity + k;
            for i in 0..n {
                b.add(i);
            }
            let expected: Vec<usize> = (k..n).collect();
            assert_eq!(b.values(), expected);
            assert_eq!(b.len(), capacity);
        }
    }
}

#[test]
fn below_capacity_keeps_everything() {
    let mut b = RollingBuffer::new(10);
    b.add("a".to_string());
    b.add("b".to_string());
    assert_eq!(b.values(), vec!["a".to_string(), "b".to_string()]);
    assert_eq!(b.capacity(), 10);
}

#[test]
fn values_leave_the_buffer_unchanged() {
    let mut b = RollingBuffer::new(2);
    b.add(1);
    b.add(2);
    b.add(3);
    assert_eq!(b.values(), vec![2, 3]);
    assert_eq!(b.values(), vec![2, 3]);
    assert_eq!(b.into_values(), vec![2, 3]);
}

#[test]
fn zero_capacity_keeps_nothing() {
    let mut b = RollingBuffer::new(0);
    b.add(1);
    assert!(b.values().is_empty());
}
