use octane::checkpoint::{
    best_file_name, checkpoint_file_name, checkpoints_to_remove, extract_timestep, latest_checkpoint,
    ranked_checkpoints, should_save, BestMetric,
};

fn names(v: &[&str]) -> Vec<String> {
    v.iter().map(|s| s.to_string()).collect()
}

#[test]
fn file_names() {
    assert_eq!(checkpoint_file_name("checkpoint", 100), "checkpoint_0000000100.safetensors");
    assert_eq!(checkpoint_file_name("run", 12345678901), "run_12345678901.safetensors");
    assert_eq!(best_file_name("checkpoint"), "checkpoint_best.safetensors");
    assert_eq!(BestMetric::default(), BestMetric::MeanReward);
}

#[test]
fn timesteps_from_names() {
    assert_eq!(extract_timestep("checkpoint", "checkpoint_0000000100.safetensors"), Some(100));
    assert_eq!(extract_timestep("checkpoint", "checkpoint_best.safetensors"), None);
    assert_eq!(extract_timestep("checkpoint", "checkpoint_.safetensors"), None);
    assert_eq!(extract_timestep("ck", "ck_+7.safetensors"), Some(7));
    assert_eq!(extract_timestep("ck", "ck_99999999999999999999.safetensors"), None);
    // The separator itself is not checked, only skipped.
    assert_eq!(extract_timestep("ck", "ckX42.safetensors"), Some(42));
}

#[test]
fn save_schedule() {
    assert!(!should_save(0, 1000, 999));
    assert!(should_save(0, 1000, 1000));
    assert!(should_save(500, 1000, 2000));
}

#[test]
fn rotation_keeps_newest() {
    let listing = names(&[
        "checkpoint_0000000300.safetensors",
        "checkpoint_0000000100.safetensors",
        "checkpoint_best.safetensors",
        ".checkpoint_0000000900.safetensors.tmp",
        "checkpoint_0000000500.safetensors",
        "checkpoint_0000000300.json",
        "checkpoint_0000000200.safetensors",
        "checkpoint_0000000400.safetensors",
    ]);
    let ranked = ranked_checkpoints("checkpoint", &listing, true);
    assert_eq!(ranked, vec![(4, 500), (7, 400), (0, 300), (6, 200), (1, 100)]);
    assert_eq!(checkpoints_to_remove("checkpoint", &listing, 3), vec![6, 1]);
    assert_eq!(checkpoints_to_remove("checkpoint", &listing, 0), Vec::<usize>::new());
    assert_eq!(checkpoints_to_remove("checkpoint", &listing, 9), Vec::<usize>::new());
    assert_eq!(latest_checkpoint("checkpoint", &listing), Some((4, 500)));
    assert_eq!(latest_checkpoint("other", &listing), None);
}

#[test]
fn ties_keep_listing_order() {
    let listing = names(&["a_2.safetensors", "a_02.safetensors", "a_1.safetensors"]);
    assert_eq!(ranked_checkpoints("a", &listing, true), vec![(0, 2), (1, 2), (2, 1)]);
    assert_eq!(checkpoints_to_remove("a", &listing, 1), vec![1, 2]);
    assert_eq!(latest_checkpoint("a", &listing), Some((0, 2)));
}

#[test]
fn hidden_files_count_only_for_latest() {
    let listing = names(&[".a_9.safetensors", "a_1.safetensors"]);
    assert_eq!(ranked_checkpoints(".a", &listing, true), vec![]);
    assert_eq!(latest_checkpoint(".a", &listing), Some((0, 9)));
}

fn save_into(dir: &mut Vec<String>, prefix: &str, ts: usize, keep_last_n: usize) {
    let name = checkpoint_file_name(prefix, ts);
    dir.push(name.replace(".safetensors", ".json"));
    dir.push(name);
    let mut remove = checkpoints_to_remove(prefix, dir, keep_last_n);
    remove.sort_unstable_by(|a, b| b.cmp(a));
    for i in remove {
        let gone = dir.remove(i);
        let meta = gone.replace(".safetensors", ".json");
        dir.retain(|n| *n != meta);
    }
}

#[test]
fn test_checkpoint_manager_latest() {
    let mut dir: Vec<String> = Vec::new();
    for ts in [100, 200, 300] {
        save_into(&mut dir, "checkpoint", ts, 5);
    }
    let (i, ts) = latest_checkpoint("checkpoint", &dir).unwrap();
    assert_eq!(ts, 300);
    assert_eq!(dir[i], "checkpoint_0000000300.safetensors");
}

#[test]
fn test_checkpoint_manager_cleanup() {
    let mut dir: Vec<String> = vec![best_file_name("checkpoint")];
    for ts in [100, 200, 300, 400, 500] {
        save_into(&mut dir, "checkpoint", ts, 2);
    }
    let regular = ranked_checkpoints("checkpoint", &dir, true);
    assert_eq!(regular.len(), 2);
    assert!(regular.iter().any(|c| c.1 == 500));
    assert!(regular.iter().any(|c| c.1 == 400));
    assert!(dir.contains(&best_file_name("checkpoint")));
}
