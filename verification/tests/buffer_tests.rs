use octane::buffer_index::{minibatch_indices, shuffled_range, split_into_batches, RingCursor, RolloutError, RolloutProgress};
use rand::rngs::StdRng;
use rand::SeedableRng;

#[test]
fn ring_cursor_wraps_and_saturates() {
    let mut c = RingCursor::new(10).unwrap();
    for _ in 0..25 {
        c.advance();
    }
    assert_eq!(c.len(), 10);
    assert_eq!(c.position(), 5);
    assert_eq!(c.capacity(), 10);
    assert!(c.can_sample(10));
    assert!(!c.can_sample(11));
    c.clear();
    assert!(c.is_empty());
    assert_eq!(c.position(), 0);
    assert!(RingCursor::new(0).is_none());
}

#[test]
fn ring_cursor_partial_fill() {
    let mut c = RingCursor::new(100).unwrap();
    for _ in 0..50 {
        c.advance();
    }
    assert_eq!(c.len(), 50);
    assert_eq!(c.position(), 50);
    let mut rng = StdRng::seed_from_u64(7);
    let idx = c.sample_uniform(&mut rng, 32).unwrap();
    assert_eq!(idx.len(), 32);
    assert!(idx.iter().all(|&i| i < 50));
    assert!(c.sample_uniform(&mut rng, 51).is_none());
}

#[test]
fn rollout_progress_fills_and_refuses() {
    assert_eq!(RolloutProgress::new(0, 4), Err(RolloutError::ZeroBufferSize));
    assert_eq!(RolloutProgress::new(3, 0), Err(RolloutError::ZeroEnvs));
    let mut p = RolloutProgress::new(2, 4).unwrap();
    assert_eq!(p.record_step(), Ok(false));
    assert_eq!(p.record_step(), Ok(true));
    assert!(p.is_full());
    assert_eq!(p.record_step(), Err(RolloutError::Full));
    assert_eq!(p.position(), 2);
    p.reset();
    assert!(!p.is_full());
    assert_eq!(p.position(), 0);
    assert_eq!(p.buffer_size(), 2);
}

#[test]
fn minibatches_cover_a_permutation() {
    let order = shuffled_range(10);
    let mut sorted = order.clone();
    sorted.sort();
    assert_eq!(sorted, (0..10).collect::<Vec<usize>>());

    let bs = split_into_batches(&vec![4, 2, 0, 1, 3, 5, 6], 3);
    assert_eq!(bs, vec![vec![4u32, 2, 0], vec![1, 3, 5]]);

    let plan = minibatch_indices(8, 3).unwrap();
    assert_eq!(plan.len(), 2);
    assert!(plan.iter().all(|b| b.len() == 3));
    let mut seen: Vec<u32> = plan.concat();
    seen.sort();
    seen.dedup();
    assert_eq!(seen.len(), 6);
    assert!(minibatch_indices(8, 0).is_none());
    assert!(minibatch_indices(8, 9).is_none());
    assert_eq!(minibatch_indices(8, 8).unwrap().len(), 1);
}

#[test]
fn ring_cursor_restores_saved_state() {
    let c = RingCursor::restore(10, 3, 10).unwrap();
    assert_eq!((c.capacity(), c.position(), c.len()), (10, 3, 10));
    assert!(RingCursor::restore(10, 10, 0).is_none());
    assert!(RingCursor::restore(10, 0, 11).is_none());
    assert!(RingCursor::restore(0, 0, 0).is_none());
}

#[test]
fn segment_tree_numbering() {
    let t = octane::tree_layout::TreeLayout::new(4);
    assert_eq!(t.node_count(), 7);
    assert_eq!(t.leaf_node(0), 3);
    assert_eq!(t.leaf_node(3), 6);
    assert_eq!(t.leaf_index(5), 2);
    assert_eq!(t.parent(6), 2);
    assert_eq!(t.parent(1), 0);
    assert_eq!(t.children(0), (1, 2));
    assert_eq!(t.children(2), (5, 6));
    assert!(t.is_inner(2));
    assert!(!t.is_inner(3));
    let odd = octane::tree_layout::TreeLayout::new(3);
    assert_eq!(odd.node_count(), 5);
    assert_eq!(odd.children(1), (3, 4));
    assert_eq!(odd.leaf_index(2), 0);
    let single = octane::tree_layout::TreeLayout::new(1);
    assert_eq!(single.node_count(), 1);
    assert!(!single.is_inner(0));
    assert_eq!(single.leaf_node(0), 0);
}

#[test]
fn shuffled_range_is_rearranged() {
    let order = shuffled_range(200);
    assert_ne!(order, (0..200).collect::<Vec<usize>>());
    let mut sorted = order.clone();
    sorted.sort();
    assert_eq!(sorted, (0..200).collect::<Vec<usize>>());
}

#[test]
fn rollout_is_full_once_every_step_is_recorded() {
    let mut p = RolloutProgress::new(1, 1).unwrap();
    assert!(!p.is_full());
    assert_eq!(p.record_step(), Ok(true));
    assert!(p.is_full());
    assert_eq!(p.position(), p.buffer_size());
    assert_eq!(p.record_step(), Err(RolloutError::Full));
}
