use octane::transition_cache::{transition_size, LruOrder};

#[test]
fn transition_bytes_for_small_dims() {
    // obs 4, action 2: (4 + 2 + 1 + 4 + 1) * 4
    assert_eq!(transition_size(4, 2), 48);
    assert_eq!(transition_size(0, 0), 8);
}

#[test]
fn lru_moves_hits_to_front_and_evicts_oldest() {
    let mut lru = LruOrder::new(3);
    assert_eq!(lru.access(1), (false, None));
    assert_eq!(lru.access(2), (false, None));
    assert_eq!(lru.access(3), (false, None));
    assert_eq!(lru.slots().clone(), vec![3, 2, 1]);
    // Hit: 1 moves to the front, nothing leaves.
    assert_eq!(lru.access(1), (true, None));
    assert_eq!(lru.slots().clone(), vec![1, 3, 2]);
    // Miss at full size: the least recently used (2) leaves.
    assert_eq!(lru.access(4), (false, Some(2)));
    assert_eq!(lru.slots().clone(), vec![4, 1, 3]);
    assert_eq!(lru.len(), 3);
    assert!(lru.contains(3));
    assert!(!lru.contains(2));
}

#[test]
fn lru_invalidate_and_clear() {
    let mut lru = LruOrder::new(10);
    for k in 0..5 {
        lru.access(k);
    }
    lru.invalidate(2);
    assert_eq!(lru.slots().clone(), vec![4, 3, 1, 0]);
    lru.invalidate(7);
    assert_eq!(lru.len(), 4);
    lru.clear();
    assert_eq!(lru.len(), 0);
}

#[test]
fn lru_of_size_zero_keeps_one_entry() {
    let mut lru = LruOrder::new(0);
    assert_eq!(lru.access(5), (false, None));
    assert_eq!(lru.access(6), (false, Some(5)));
    assert_eq!(lru.slots().clone(), vec![6]);
}
