use octane::hindsight::{relabel_plan, GoalSource, HERStrategy, HerEpisodes, Relabel};
use rand::rngs::StdRng;
use rand::SeedableRng;

fn run_episode(h: &mut HerEpisodes<u32>, steps: u32, rng: &mut StdRng) -> Vec<Relabel> {
    let mut out = None;
    for i in 0..steps {
        let r = h.add(i, i + 1 == steps, rng);
        if i + 1 < steps {
            assert!(r.is_none());
        } else {
            out = r;
        }
    }
    out.unwrap()
}

#[test]
fn default_strategy_is_future_four() {
    assert_eq!(HERStrategy::default(), HERStrategy::Future { k: 4 });
}

#[test]
fn final_strategy_doubles_the_episode() {
    let mut rng = StdRng::seed_from_u64(1);
    let mut h: HerEpisodes<u32> = HerEpisodes::new(HERStrategy::Final, 1000);
    assert_eq!(h.max_episodes(), 20);
    let plan = run_episode(&mut h, 10, &mut rng);
    assert_eq!(plan.len(), 20);
    for t in 0..10 {
        assert_eq!(plan[t], Relabel { step: t, goal: GoalSource::Desired });
        assert_eq!(plan[10 + t], Relabel { step: t, goal: GoalSource::Achieved(9) });
    }
    assert_eq!(h.finished().clone(), (0..10).collect::<Vec<u32>>());
    assert_eq!(h.current_len(), 0);
    assert_eq!(h.stored_len(), 0);
}

#[test]
fn future_strategy_draws_later_goals() {
    let mut rng = StdRng::seed_from_u64(2);
    let mut h: HerEpisodes<u32> = HerEpisodes::new(HERStrategy::Future { k: 4 }, 10000);
    let mut total = 0;
    for _ in 0..5 {
        let plan = run_episode(&mut h, 20, &mut rng);
        // 20 with their own goals, then min(4, later steps) per step: 16 * 4 + 3 + 2 + 1 + 0.
        assert_eq!(plan.len(), 90);
        for r in &plan[20..] {
            match r.goal {
                GoalSource::Achieved(g) => assert!(r.step < g && g < 20),
                _ => panic!("future goals come from the episode"),
            }
        }
        total += plan.len();
    }
    assert!(total >= 32);
}

#[test]
fn episode_strategy_goals_stay_in_episode() {
    let mut rng = StdRng::seed_from_u64(3);
    let plan = relabel_plan(HERStrategy::Episode, 10, &Vec::new(), &mut rng);
    assert_eq!(plan.len(), 20);
    assert!(plan.len() > 10);
    for (t, r) in plan[10..].iter().enumerate() {
        assert_eq!(r.step, t);
        match r.goal {
            GoalSource::Achieved(g) => assert!(g < 10),
            _ => panic!("episode goals come from the episode"),
        }
    }
}

#[test]
fn random_strategy_archives_and_draws_from_store() {
    let mut rng = StdRng::seed_from_u64(4);
    let mut h: HerEpisodes<u32> = HerEpisodes::new(HERStrategy::Random, 10000);
    let first = run_episode(&mut h, 10, &mut rng);
    // Nothing stored yet: goals come from the episode itself.
    assert!(first[10..].iter().all(|r| matches!(r.goal, GoalSource::Achieved(g) if g < 10)));
    assert_eq!(h.stored_len(), 1);
    let mut total = first.len();
    for _ in 1..5 {
        let plan = run_episode(&mut h, 10, &mut rng);
        assert_eq!(plan.len(), 20);
        assert!(plan[10..].iter().all(|r| matches!(r.goal, GoalSource::Stored(e, g) if e < h.stored_len() && g < 10)));
        total += plan.len();
    }
    assert_eq!(h.stored_len(), 5);
    assert_eq!(h.finished().len(), 10);
    assert!(total > 50);
}

#[test]
fn random_store_evicts_oldest() {
    let mut rng = StdRng::seed_from_u64(5);
    // capacity 100 keeps two episodes.
    let mut h: HerEpisodes<u32> = HerEpisodes::new(HERStrategy::Random, 100);
    assert_eq!(h.max_episodes(), 2);
    for len in [3u32, 4, 5] {
        run_episode(&mut h, len, &mut rng);
    }
    assert_eq!(h.stored_len(), 2);
    assert_eq!(h.stored_episode(0).len(), 4);
    assert_eq!(h.stored_episode(1).len(), 5);
}

#[test]
fn empty_episode_and_clear() {
    let mut rng = StdRng::seed_from_u64(6);
    let mut h: HerEpisodes<u32> = HerEpisodes::new(HERStrategy::Random, 1000);
    assert!(h.end_episode(&mut rng).is_none());
    run_episode(&mut h, 10, &mut rng);
    h.add(99, false, &mut rng);
    h.clear();
    assert_eq!(h.current_len(), 0);
    assert_eq!(h.stored_len(), 0);
}
