use octane::trading_window::{SeriesTooShort, TradingWindow};
use rand::rngs::StdRng;
use rand::SeedableRng;

#[test]
fn series_must_hold_lookback_and_episode() {
    let err = TradingWindow::new(100, 8, 20, 252).unwrap_err();
    assert_eq!(err, SeriesTooShort { data_len: 100, lookback: 20, episode_length: 252 });
    assert_eq!(err.message(), "Data length 100 too short for lookback 20 + episode_length 252");
    let w = TradingWindow::new(272, 8, 20, 252).unwrap();
    assert_eq!(w.obs_dim(), 20 * 8 + 2);
    assert_eq!(w.current_step(), 0);
}

#[test]
fn reset_starts_within_range() {
    let mut rng = StdRng::seed_from_u64(7);
    let mut w = TradingWindow::new(40, 8, 5, 10).unwrap();
    for _ in 0..50 {
        let start = w.reset(&mut rng);
        assert!(start <= 25);
        assert_eq!(w.current_step(), 5);
    }
    let mut tight = TradingWindow::new(15, 8, 5, 10).unwrap();
    assert_eq!(tight.reset(&mut rng), 0);
}

#[test]
fn episode_runs_its_length() {
    let mut rng = StdRng::seed_from_u64(1);
    let mut w = TradingWindow::new(30, 2, 3, 4).unwrap();
    let start = w.reset(&mut rng);
    assert_eq!(w.history_rows(), (start, start + 3));
    let mut steps = 0;
    loop {
        steps += 1;
        if w.advance() {
            break;
        }
    }
    assert_eq!(steps, 4);
    assert_eq!(w.episode_steps(), 4);
    assert_eq!(w.price_row(), std::cmp::min(start + 7, 29));
}

#[test]
fn price_row_is_clamped_and_history_is_cut() {
    let mut w = TradingWindow::new(6, 1, 2, 2).unwrap();
    assert_eq!(w.history_rows(), (0, 0));
    for _ in 0..10 {
        w.advance();
    }
    assert_eq!(w.current_step(), 10);
    assert_eq!(w.price_row(), 5);
    assert_eq!(w.history_rows(), (8, 6));
}
