use octane::array_window::{ActionTooShort, ArrayShapeError, ArrayWindow, RewardShape, StepRows};
use rand::rngs::StdRng;
use rand::SeedableRng;

#[test]
fn rejects_inconsistent_shapes() {
    // data 3 elems, obs_dim 2 -> not a multiple.
    let e = ArrayWindow::new(3, 2, RewardShape::Regression { len: 1, target_dim: 1 });
    assert!(e.is_err());
    assert_eq!(e.unwrap_err(), ArrayShapeError::NotMultiple { data_len: 3, obs_dim: 2 });
    // reward rows mismatch.
    let e = ArrayWindow::new(2, 1, RewardShape::Regression { len: 3, target_dim: 1 });
    assert!(e.is_err());
    assert_eq!(e.unwrap_err(), ArrayShapeError::RowMismatch { reward_rows: 3, data_rows: 2 });
}

#[test]
fn action_dim_follows_reward() {
    let env = ArrayWindow::new(4, 1, RewardShape::Weighted { len: 8, n_assets: 2 }).unwrap();
    assert_eq!(env.act_dim(), 2);
    assert_eq!(env.obs_dim(), 1);
}

#[test]
fn shape_error_messages() {
    assert_eq!(ArrayShapeError::ZeroObsDim.message(), "obs_dim must be > 0");
    assert_eq!(
        ArrayShapeError::NotMultiple { data_len: 3, obs_dim: 2 }.message(),
        "data length 3 is not a multiple of obs_dim 2"
    );
    assert_eq!(ArrayShapeError::TooFewRows.message(), "ArrayEnv needs at least 2 rows");
    assert_eq!(
        ArrayShapeError::RowMismatch { reward_rows: 3, data_rows: 2 }.message(),
        "reward matrix implies 3 rows but data has 2"
    );
    assert_eq!(ActionTooShort { got: 1, expected: 2 }.message(), "action has 1 elements, expected 2");
    assert_eq!(ArrayWindow::new(1, 1, RewardShape::Weighted { len: 1, n_assets: 1 }).unwrap_err(), ArrayShapeError::TooFewRows);
    assert_eq!(ArrayWindow::new(4, 0, RewardShape::Weighted { len: 1, n_assets: 1 }).unwrap_err(), ArrayShapeError::ZeroObsDim);
    // A zero width counts as one row per number.
    assert!(ArrayWindow::new(4, 2, RewardShape::Regression { len: 2, target_dim: 0 }).is_ok());
}

#[test]
fn two_row_episode_truncates_after_last_row() {
    let mut rng = StdRng::seed_from_u64(0);
    let mut w = ArrayWindow::new(2, 1, RewardShape::Regression { len: 2, target_dim: 1 }).unwrap();
    assert_eq!(w.reset(&mut rng), 0);
    assert_eq!(w.step(1), Ok(StepRows { scored_row: 0, truncated: false, obs_row: 1 }));
    assert_eq!(w.step(1), Ok(StepRows { scored_row: 1, truncated: true, obs_row: 1 }));
}

#[test]
fn episode_cap_and_short_actions() {
    let mut rng = StdRng::seed_from_u64(1);
    let mut w = ArrayWindow::new(10, 1, RewardShape::Weighted { len: 20, n_assets: 2 })
        .unwrap()
        .with_episode_len(3);
    assert_eq!(w.episode_end(), 3);
    w.reset(&mut rng);
    assert_eq!(w.step(1), Err(ActionTooShort { got: 1, expected: 2 }));
    assert_eq!(w.cursor(), 0);
    assert!(!w.step(2).unwrap().truncated);
    assert!(!w.step(2).unwrap().truncated);
    assert!(w.step(2).unwrap().truncated);
    assert_eq!(ArrayWindow::new(10, 1, RewardShape::Weighted { len: 10, n_assets: 1 }).unwrap().with_episode_len(0).episode_end(), 1);
    assert_eq!(ArrayWindow::new(10, 1, RewardShape::Weighted { len: 10, n_assets: 1 }).unwrap().with_episode_len(99).episode_end(), 10);
}

#[test]
fn random_starts_stay_in_range() {
    let mut rng = StdRng::seed_from_u64(2);
    let mut w = ArrayWindow::new(5, 1, RewardShape::Weighted { len: 5, n_assets: 1 })
        .unwrap()
        .with_random_start(true);
    for _ in 0..50 {
        let row = w.reset(&mut rng);
        assert!(row < 5);
        assert_eq!(w.cursor(), row);
    }
}
