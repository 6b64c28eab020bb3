use octane::recent::RecentWindow;
use octane::wrappers::template_assignment;
use octane::space::DiscreteSpace;
use octane::wrappers::{TimeLimit, WrappedEnv};
use rand::rngs::StdRng;
use rand::SeedableRng;

#[test]
fn time_limit_truncates_at_limit() {
    let mut t = TimeLimit::new("env", 3);
    assert_eq!(t.remaining_steps(), 3);
    assert!(!t.on_step(false));
    assert!(!t.on_step(false));
    assert_eq!(t.remaining_steps(), 1);
    assert!(t.on_step(false));
    assert_eq!(t.remaining_steps(), 0);
    // A terminated step is never reported truncated.
    assert!(!t.on_step(true));
    t.on_reset();
    assert_eq!(t.current_step(), 0);
    assert_eq!(t.max_steps(), 3);
    assert_eq!(*t.inner(), "env");
    *t.inner_mut() = "other";
    assert_eq!(*t.inner(), "other");
}

#[test]
fn wrapped_env_builds_back() {
    let w = WrappedEnv::new(vec![1, 2, 3]);
    assert_eq!(w.build(), vec![1, 2, 3]);
}

#[test]
fn discrete_space() {
    let s = DiscreteSpace::new(4);
    assert_eq!(s.n, 4);
    assert_eq!(s.flat_dim(), 4);
    assert_eq!(s.shape(), vec![1]);
    assert!(s.contains_index(3));
    assert!(!s.contains_index(4));
    let mut rng = StdRng::seed_from_u64(1);
    for _ in 0..50 {
        assert!(s.sample_index(&mut rng) < 4);
    }
}

#[test]
fn recent_window_keeps_newest() {
    let mut w: RecentWindow<u32> = RecentWindow::new(3);
    assert!(w.is_empty());
    assert_eq!(w.newest(), None);
    for x in 1..=5 {
        w.push(x);
    }
    assert_eq!(w.items().iter().copied().collect::<Vec<u32>>(), vec![3, 4, 5]);
    assert_eq!(w.newest(), Some(&5));
    assert_eq!(w.len(), 3);
    assert_eq!(w.limit(), 3);
    w.clear();
    assert_eq!(w.len(), 0);
    // A zero limit keeps the newest entry only.
    let mut z: RecentWindow<u32> = RecentWindow::new(0);
    z.push(1);
    z.push(2);
    assert_eq!(z.items().iter().copied().collect::<Vec<u32>>(), vec![2]);
}

#[test]
fn templates_are_used_in_turn() {
    assert_eq!(template_assignment(5, 2), vec![0, 1, 0, 1, 0]);
    assert_eq!(template_assignment(0, 3), Vec::<usize>::new());
    assert_eq!(template_assignment(3, 1), vec![0, 0, 0]);
}
