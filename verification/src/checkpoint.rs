//! Checkpoint naming and rotation: file names of checkpoints, the timestep a
//! name carries, which checkpoints are newest, and which ones rotation
//! deletes.  Reading and writing the files happens outside the library.
use vstd::prelude::*;
use std::path::PathBuf;
use vstd::utf8::{encode_utf8, is_char_boundary};
use vstd::string::StringSliceAdditionalSpecFns;
use crate::text::{
    bytes_contain, bytes_end_with, bytes_of, bytes_start_with, has_infix, has_prefix, has_suffix,
    parse_u64_bytes, spec_parse_u64, spec_zero_padded, zero_padded_decimal,
};

verus! {

#[verifier::external_type_specification]
#[verifier::external_body]
pub struct ExPathBuf(PathBuf);

/// Metric to track for the best model.
#[derive(Debug, Clone, Copy, PartialEq, Eq, Structural)]
pub enum BestMetric {
    /// Mean episode reward.
    MeanReward,
    /// Minimum loss.
    MinLoss,
    /// Custom metric from metadata.
    Custom,
}

impl Default for BestMetric {
    fn default() -> (m: Self)
        ensures
            m == BestMetric::MeanReward,
    {
        BestMetric::MeanReward
    }
}

/// Information about an available checkpoint.
#[derive(Debug)]
pub struct CheckpointInfo {
    /// Path to checkpoint file.
    pub path: PathBuf,
    /// Timesteps at which checkpoint was saved.
    pub timesteps: usize,
    /// Timestamp when saved.
    pub timestamp: Option<String>,
    /// Whether this is the best model.
    pub is_best: bool,
}

/// The file name of the checkpoint saved at `timesteps`:
/// `{prefix}_{timesteps:010}.safetensors`.
pub open spec fn spec_checkpoint_file_name(prefix: Seq<char>, timesteps: nat) -> Seq<char> {
    prefix + seq!['_'] + spec_zero_padded(timesteps, 10) + ".safetensors"@
}

/// Builds the file name of the checkpoint saved at `timesteps`.
pub fn checkpoint_file_name(prefix: &str, timesteps: usize) -> (s: String)
    ensures
        s@ == spec_checkpoint_file_name(prefix@, timesteps as nat),
{
    let mut s = String::from_str(prefix);
    s.append("_");
    let digits = zero_padded_decimal(timesteps as u128, 10);
    s.append(digits.as_str());
    s.append(".safetensors");
    proof {
        reveal_strlit("_");
    }
    s
}

/// Builds the file name of the best model: `{prefix}_best.safetensors`.
pub fn best_file_name(prefix: &str) -> (s: String)
    ensures
        s@ == prefix@ + "_best.safetensors"@,
{
    let mut s = String::from_str(prefix);
    s.append("_best.safetensors");
    s
}

/// Whether a checkpoint is due: `save_interval` timesteps have passed since
/// the last save.
pub fn should_save(last_save_timesteps: usize, save_interval: usize, timesteps: usize) -> (b: bool)
    requires
        last_save_timesteps + save_interval <= usize::MAX,
    ensures
        b == (timesteps >= last_save_timesteps + save_interval),
{
    timesteps >= last_save_timesteps + save_interval
}

/// Length in bytes of the `.safetensors` suffix.
pub open spec fn suffix_len() -> int {
    12
}

/// The timestep that a checkpoint file name carries: the bytes between
/// `prefix_` and `.safetensors`, parsed as a `u64`.  The name is cut by
/// length only; what the cut-out bytes are is left to the parser.
pub open spec fn spec_extract_timestep(prefix: Seq<u8>, name: Seq<u8>) -> Option<u64> {
    let start: int = prefix.len() as int + 1;
    if name.len() > start + suffix_len() {
        spec_parse_u64(name.subrange(start, name.len() - suffix_len()))
    } else {
        None
    }
}

/// Cutting the timestep out of `name` falls on character boundaries (text
/// slicing needs this).
pub open spec fn timestep_cut_ok(prefix: Seq<u8>, name: Seq<u8>) -> bool {
    let start: int = prefix.len() as int + 1;
    name.len() > start + suffix_len() ==> {
        &&& is_char_boundary(name, start)
        &&& is_char_boundary(name, name.len() - suffix_len())
    }
}

/// Reads the timestep out of a checkpoint file name.
pub fn extract_timestep(prefix: &str, filename: &str) -> (r: Option<u64>)
    requires
        prefix.spec_bytes().len() + 13 <= usize::MAX,
        timestep_cut_ok(prefix.spec_bytes(), filename.spec_bytes()),
    ensures
        r == spec_extract_timestep(prefix.spec_bytes(), filename.spec_bytes()),
{
    let name = bytes_of(filename);
    let prefix_len = prefix.len() + 1;
    let suffix_len: usize = 12;
    if name.len() > prefix_len + suffix_len {
        parse_u64_bytes(&name, prefix_len, name.len() - suffix_len)
    } else {
        None
    }
}

/// A directory entry that may be a numbered checkpoint of `prefix`: it
/// starts with the prefix, ends with `.safetensors`, does not contain
/// `_best`, and (when hidden files are skipped) does not start with a dot.
pub open spec fn spec_prefiltered(prefix: Seq<u8>, name: Seq<u8>, skip_hidden: bool) -> bool {
    &&& !has_infix(name, encode_utf8("_best"@))
    &&& !(skip_hidden && has_prefix(name, encode_utf8("."@)))
    &&& has_prefix(name, prefix)
    &&& has_suffix(name, encode_utf8(".safetensors"@))
}

/// Every name that passes the filter can have its timestep cut out.
pub open spec fn names_cut_ok(prefix: Seq<u8>, names: Seq<Seq<u8>>, skip_hidden: bool) -> bool {
    forall|i: int| 0 <= i < names.len() && spec_prefiltered(prefix, #[trigger] names[i], skip_hidden)
        ==> timestep_cut_ok(prefix, names[i])
}

/// The numbered checkpoints among `names`, as (position, timestep) pairs in
/// name order.
pub open spec fn spec_candidates(prefix: Seq<u8>, names: Seq<Seq<u8>>, skip_hidden: bool) -> Seq<(usize, u64)>
    decreases names.len(),
{
    if names.len() == 0 {
        Seq::empty()
    } else {
        let rest = spec_candidates(prefix, names.drop_last(), skip_hidden);
        let name = names.last();
        if spec_prefiltered(prefix, name, skip_hidden) && spec_extract_timestep(prefix, name) is Some {
            rest.push(((names.len() - 1) as usize, spec_extract_timestep(prefix, name)->0))
        } else {
            rest
        }
    }
}

/// Newer checkpoints come first; among equal timesteps, earlier names first.
pub open spec fn ranked_before(a: (usize, u64), b: (usize, u64)) -> bool {
    a.1 > b.1 || (a.1 == b.1 && a.0 < b.0)
}

/// `r` lists exactly the entries of `c`, newest first.
pub open spec fn is_ranking(r: Seq<(usize, u64)>, c: Seq<(usize, u64)>) -> bool {
    &&& r.len() == c.len()
    &&& forall|x: (usize, u64)| r.contains(x) <==> c.contains(x)
    &&& forall|i: int, j: int| 0 <= i < j < r.len() ==> ranked_before(#[trigger] r[i], #[trigger] r[j])
}

/// The ranking of the entries (newest first, ties in name order).
pub open spec fn spec_ranking(c: Seq<(usize, u64)>) -> Seq<(usize, u64)> {
    choose|r: Seq<(usize, u64)>| is_ranking(r, c)
}

/// There is only one ranking of a set of entries.
pub proof fn lemma_ranking_unique(r1: Seq<(usize, u64)>, r2: Seq<(usize, u64)>, c: Seq<(usize, u64)>)
    requires
        is_ranking(r1, c),
        is_ranking(r2, c),
    ensures
        r1 == r2,
    decreases r1.len(),
{
    if r1.len() > 0 {
        // The first entry of each ranking is ranked before every other entry.
        let a = r1[0];
        let b = r2[0];
        assert(r1.contains(a));
        assert(r2.contains(b));
        assert(c.contains(a) && c.contains(b));
        assert(a == b) by {
            if a != b {
                let ia = choose|i: int| 0 <= i < r2.len() && r2[i] == a;
                let ib = choose|i: int| 0 <= i < r1.len() && r1[i] == b;
                assert(ia != 0);
                assert(ib != 0);
                assert(ranked_before(r1[0], r1[ib]));
                assert(ranked_before(r2[0], r2[ia]));
            }
        }
        let t1 = r1.drop_first();
        let t2 = r2.drop_first();
        let ct = t1;
        assert forall|x: (usize, u64)| t2.contains(x) <==> ct.contains(x) by {
            if t2.contains(x) {
                let i = choose|i: int| 0 <= i < t2.len() && t2[i] == x;
                assert(r2[i + 1] == x);
                assert(ranked_before(r2[0], r2[i + 1]));
                assert(r1.contains(x));
                let k = choose|k: int| 0 <= k < r1.len() && r1[k] == x;
                assert(k != 0);
                assert(t1[k - 1] == x);
            }
            if ct.contains(x) {
                let i = choose|i: int| 0 <= i < t1.len() && t1[i] == x;
                assert(r1[i + 1] == x);
                assert(ranked_before(r1[0], r1[i + 1]));
                assert(r2.contains(x));
                let k = choose|k: int| 0 <= k < r2.len() && r2[k] == x;
                assert(k != 0);
                assert(t2[k - 1] == x);
            }
        }
        assert forall|i: int, j: int| 0 <= i < j < t1.len() implies ranked_before(#[trigger] t1[i], #[trigger] t1[j]) by {
            assert(ranked_before(r1[i + 1], r1[j + 1]));
        }
        assert forall|i: int, j: int| 0 <= i < j < t2.len() implies ranked_before(#[trigger] t2[i], #[trigger] t2[j]) by {
            assert(ranked_before(r2[i + 1], r2[j + 1]));
        }
        assert forall|x: (usize, u64)| t1.contains(x) <==> ct.contains(x) by {}
        lemma_ranking_unique(t1, t2, ct);
        assert(r1 =~= seq![a] + t1);
        assert(r2 =~= seq![b] + t2);
    } else {
        if r2.len() > 0 {
            assert(r2.contains(r2[0]));
            assert(c.contains(r2[0]));
            assert(r1.contains(r2[0]));
        }
        assert(r1 =~= r2);
    }
}

/// Inserts `e`, which comes after every entry of equal timestep, into a
/// ranking at its place.
fn insert_ranked(r: &mut Vec<(usize, u64)>, e: (usize, u64))
    requires
        forall|i: int, j: int| 0 <= i < j < old(r)@.len() ==> ranked_before(#[trigger] old(r)@[i], #[trigger] old(r)@[j]),
        forall|i: int| 0 <= i < old(r)@.len() ==> (#[trigger] old(r)@[i]).0 < e.0,
    ensures
        final(r)@.len() == old(r)@.len() + 1,
        forall|x: (usize, u64)| final(r)@.contains(x) <==> (old(r)@.contains(x) || x == e),
        forall|i: int, j: int| 0 <= i < j < final(r)@.len() ==> ranked_before(#[trigger] final(r)@[i], #[trigger] final(r)@[j]),
{
    let ghost before = r@;
    let mut p: usize = 0;
    while p < r.len() && r[p].1 >= e.1
        invariant
            p <= r.len(),
            r@ == before,
            forall|i: int| 0 <= i < p ==> (#[trigger] r@[i]).1 >= e.1,
        decreases r.len() - p,
    {
        p = p + 1;
    }
    r.insert(p, e);
    proof {
        let after = r@;
        assert(after == before.insert(p as int, e));
        assert forall|x: (usize, u64)| after.contains(x) <==> (before.contains(x) || x == e) by {
            if after.contains(x) {
                let i = choose|i: int| 0 <= i < after.len() && after[i] == x;
                if i < p {
                    assert(before[i] == x);
                } else if i > p {
                    assert(before[i - 1] == x);
                }
            }
            if before.contains(x) {
                let i = choose|i: int| 0 <= i < before.len() && before[i] == x;
                if i < p {
                    assert(after[i] == x);
                } else {
                    assert(after[i + 1] == x);
                }
            }
            if x == e {
                assert(after[p as int] == e);
            }
        }
        assert forall|i: int, j: int| 0 <= i < j < after.len() implies ranked_before(#[trigger] after[i], #[trigger] after[j]) by {
            if j < p {
                assert(ranked_before(before[i], before[j]));
            } else if j == p {
                assert(after[i] == before[i]);
                assert(before[i].1 >= e.1);
                assert(before[i].0 < e.0);
            } else if i == p {
                assert(after[j] == before[j - 1]);
                assert(before[j - 1].0 < e.0);
                if p < before.len() {
                    assert(before[p as int].1 < e.1);
                    if j - 1 > p {
                        assert(ranked_before(before[p as int], before[j - 1]));
                    }
                }
            } else if i < p {
                assert(after[i] == before[i]);
                assert(after[j] == before[j - 1]);
                assert(ranked_before(before[i], before[j - 1]));
            } else {
                assert(after[i] == before[i - 1]);
                assert(after[j] == before[j - 1]);
                assert(ranked_before(before[i - 1], before[j - 1]));
            }
        }
    }
}

/// Lists the numbered checkpoints among `names` (position and timestep),
/// newest first, ties in name order.
pub fn ranked_checkpoints(prefix: &str, names: &Vec<String>, skip_hidden: bool) -> (r: Vec<(usize, u64)>)
    requires
        prefix.spec_bytes().len() + 13 <= usize::MAX,
        names_cut_ok(prefix.spec_bytes(), names@.map_values(|s: String| encode_utf8(s@)), skip_hidden),
    ensures
        r@ == spec_ranking(spec_candidates(prefix.spec_bytes(), names@.map_values(|s: String| encode_utf8(s@)), skip_hidden)),
        is_ranking(r@, spec_candidates(prefix.spec_bytes(), names@.map_values(|s: String| encode_utf8(s@)), skip_hidden)),
{
    let ghost all = names@.map_values(|s: String| encode_utf8(s@));
    let ghost pb = prefix.spec_bytes();
    let p = bytes_of(prefix);
    let best = bytes_of("_best");
    let dot = bytes_of(".");
    let suffix = bytes_of(".safetensors");
    let mut r: Vec<(usize, u64)> = Vec::new();
    let mut i: usize = 0;
    while i < names.len()
        invariant
            i <= names.len(),
            all == names@.map_values(|s: String| encode_utf8(s@)),
            pb == prefix.spec_bytes(),
            p@ == pb,
            best@ == encode_utf8("_best"@),
            dot@ == encode_utf8("."@),
            suffix@ == encode_utf8(".safetensors"@),
            pb.len() + 13 <= usize::MAX,
            names_cut_ok(pb, all, skip_hidden),
            is_ranking(r@, spec_candidates(pb, all.take(i as int), skip_hidden)),
            forall|k: int| 0 <= k < r@.len() ==> (#[trigger] r@[k]).0 < i,
        decreases names.len() - i,
    {
        let name = bytes_of(names[i].as_str());
        assert(name@ == all[i as int]);
        let ghost cands_before = spec_candidates(pb, all.take(i as int), skip_hidden);
        assert(all.take(i + 1).drop_last() =~= all.take(i as int));
        assert(all.take(i + 1).last() == all[i as int]);
        let passes = !bytes_contain(&name, &best)
            && !(skip_hidden && bytes_start_with(&name, &dot))
            && bytes_start_with(&name, &p)
            && bytes_end_with(&name, &suffix);
        assert(passes == spec_prefiltered(pb, all[i as int], skip_hidden));
        if passes {
            let ts = extract_timestep(prefix, names[i].as_str());
            match ts {
                Some(t) => {
                    let ghost old_r = r@;
                    insert_ranked(&mut r, (i, t));
                    proof {
                        let cands = spec_candidates(pb, all.take(i + 1), skip_hidden);
                        assert(cands == cands_before.push((i, t)));
                        assert forall|x: (usize, u64)| r@.contains(x) <==> cands.contains(x) by {
                            if cands.contains(x) && x != (i, t) {
                                let k = choose|k: int| 0 <= k < cands.len() && cands[k] == x;
                                assert(cands_before[k] == x);
                            }
                            if cands_before.contains(x) {
                                let k = choose|k: int| 0 <= k < cands_before.len() && cands_before[k] == x;
                                assert(cands[k] == x);
                            }
                            if x == (i, t) {
                                assert(cands[cands_before.len() as int] == x);
                            }
                        }
                        assert forall|k: int| 0 <= k < r@.len() implies (#[trigger] r@[k]).0 < i + 1 by {
                            assert(r@.contains(r@[k]));
                            if r@[k] != (i, t) {
                                assert(old_r.contains(r@[k]));
                                let m = choose|m: int| 0 <= m < old_r.len() && old_r[m] == r@[k];
                            }
                        }
                    }
                },
                None => {
                    assert(spec_candidates(pb, all.take(i + 1), skip_hidden) == cands_before);
                },
            }
        } else {
            assert(spec_candidates(pb, all.take(i + 1), skip_hidden) == cands_before);
        }
        i = i + 1;
    }
    proof {
        assert(all.take(names.len() as int) =~= all);
        lemma_ranking_unique(r@, spec_ranking(spec_candidates(pb, all, skip_hidden)), spec_candidates(pb, all, skip_hidden));
    }
    r
}

/// The positions of the checkpoints that rotation deletes: every numbered
/// checkpoint after the newest `keep_last_n` (nothing when `keep_last_n` is
/// zero), newest first.  Hidden (dot) files and the best model never count.
pub fn checkpoints_to_remove(prefix: &str, names: &Vec<String>, keep_last_n: usize) -> (v: Vec<usize>)
    requires
        prefix.spec_bytes().len() + 13 <= usize::MAX,
        names_cut_ok(prefix.spec_bytes(), names@.map_values(|s: String| encode_utf8(s@)), true),
    ensures
        ({
            let cands = spec_candidates(prefix.spec_bytes(),
                names@.map_values(|s: String| encode_utf8(s@)), true);
            let ranking = spec_ranking(cands);
            &&& is_ranking(ranking, cands)
            &&& v@ == (if keep_last_n == 0 || keep_last_n >= ranking.len() {
                Seq::<usize>::empty()
            } else {
                ranking.skip(keep_last_n as int).map_values(|e: (usize, u64)| e.0)
            })
        }),
{
    let mut v: Vec<usize> = Vec::new();
    let ranked = ranked_checkpoints(prefix, names, true);
    if keep_last_n == 0 {
        assert(v@ =~= Seq::<usize>::empty());
        return v;
    }
    if keep_last_n >= ranked.len() {
        return v;
    }
    let mut i: usize = keep_last_n;
    while i < ranked.len()
        invariant
            keep_last_n <= i <= ranked.len(),
            v@ == ranked@.subrange(keep_last_n as int, i as int).map_values(|e: (usize, u64)| e.0),
        decreases ranked.len() - i,
    {
        v.push(ranked[i].0);
        i = i + 1;
        assert(v@ =~= ranked@.subrange(keep_last_n as int, i as int).map_values(|e: (usize, u64)| e.0));
    }
    assert(ranked@.skip(keep_last_n as int) =~= ranked@.subrange(keep_last_n as int, i as int));
    v
}

/// The position of the newest numbered checkpoint (the first one among equal
/// timesteps), if any; dot files are not skipped.
pub fn latest_checkpoint(prefix: &str, names: &Vec<String>) -> (r: Option<(usize, u64)>)
    requires
        prefix.spec_bytes().len() + 13 <= usize::MAX,
        names_cut_ok(prefix.spec_bytes(), names@.map_values(|s: String| encode_utf8(s@)), false),
    ensures
        ({
            let cands = spec_candidates(prefix.spec_bytes(),
                names@.map_values(|s: String| encode_utf8(s@)), false);
            let ranking = spec_ranking(cands);
            &&& is_ranking(ranking, cands)
            &&& r == (if ranking.len() == 0 { None } else { Some(ranking[0]) })
        }),
{
    let ranked = ranked_checkpoints(prefix, names, false);
    if ranked.len() == 0 {
        None
    } else {
        Some(ranked[0])
    }
}

/// Rotation keeps the newest checkpoints: every deleted checkpoint is
/// strictly older than, or as old as and listed after, every kept one, and
/// exactly `keep_last_n` stay when there are more than that.
pub proof fn lemma_rotation_keeps_newest(c: Seq<(usize, u64)>, keep_last_n: nat, i: int, j: int)
    requires
        keep_last_n > 0,
        0 <= i < keep_last_n,
        keep_last_n <= j < spec_ranking(c).len(),
        exists|r: Seq<(usize, u64)>| is_ranking(r, c),
    ensures
        spec_ranking(c)[i].1 >= spec_ranking(c)[j].1,
        ranked_before(spec_ranking(c)[i], spec_ranking(c)[j]),
        spec_ranking(c).skip(keep_last_n as int).len() == c.len() - keep_last_n,
{
}

} // verus!
