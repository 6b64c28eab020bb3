use octane::nstep::{NStepError, NStepWindow};

/// Feeds rewards into a window and returns the discounted return of every
/// transition that left, with its done flag.
fn feed(window: &mut NStepWindow<f32>, gamma: f32, steps: &[(f32, bool)]) -> (Vec<f32>, Vec<bool>) {
    let mut returns = Vec::new();
    let mut dones = Vec::new();
    for &(reward, done) in steps {
        let d = window.push(reward, done);
        let snapshot: Vec<f32> = d.left.iter().copied().chain(window.pending().iter().copied()).collect();
        for (j, h) in d.horizons.iter().enumerate() {
            let mut ret = 0.0;
            let mut disc = 1.0;
            for r in &snapshot[j..j + h] {
                ret += disc * r;
                disc *= gamma;
            }
            returns.push(ret);
            dones.push(done);
        }
    }
    (returns, dones)
}

#[test]
fn test_nstep_return_computation() {
    let mut w = NStepWindow::new(3).unwrap();
    let steps: Vec<(f32, bool)> = (0..5).map(|i| ((i + 1) as f32, false)).collect();
    let (returns, dones) = feed(&mut w, 1.0, &steps);
    assert_eq!(returns.len(), 3);
    assert_eq!(returns, vec![6.0, 9.0, 12.0]);
    assert_eq!(dones, vec![false, false, false]);
    assert_eq!(w.pending_len(), 2);
}

#[test]
fn test_nstep_episode_boundary() {
    let mut w = NStepWindow::new(3).unwrap();
    let (returns, dones) = feed(&mut w, 1.0, &[(1.0, false), (1.0, false), (1.0, true)]);
    assert_eq!(returns.len(), 3);
    assert_eq!(returns, vec![3.0, 2.0, 1.0]);
    assert_eq!(dones, vec![true, true, true]);
    assert_eq!(w.pending_len(), 0);
}

#[test]
fn test_nstep_gamma_discount() {
    let mut w = NStepWindow::new(3).unwrap();
    let (returns, _) = feed(&mut w, 0.9, &[(1.0, false), (1.0, false), (1.0, true)]);
    assert_eq!(returns.len(), 3);
    assert!((returns[0] - 2.71).abs() < 0.01);
    assert!((returns[1] - 1.9).abs() < 0.01);
    assert!((returns[2] - 1.0).abs() < 0.01);
}

#[test]
fn window_horizons_and_clear() {
    let mut w: NStepWindow<u32> = NStepWindow::new(2).unwrap();
    assert_eq!(w.n_step(), 2);
    let d = w.push(1, false);
    assert!(d.left.is_empty() && d.horizons.is_empty());
    let d = w.push(2, false);
    assert_eq!(d.left, vec![1]);
    assert_eq!(d.horizons, vec![2]);
    w.clear();
    assert_eq!(w.pending_len(), 0);
    let mut one: NStepWindow<u32> = NStepWindow::new(1).unwrap();
    let d = one.push(7, false);
    assert_eq!((d.left, d.horizons), (vec![7], vec![1]));
}

#[test]
fn zero_steps_refused() {
    assert_eq!(NStepWindow::<f32>::new(0).err(), Some(NStepError::ZeroSteps));
    assert_eq!(NStepError::ZeroSteps.message(), "n_step must be at least 1");
}
