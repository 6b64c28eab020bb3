//! Layout and cache policy of the disk-backed replay buffer: the byte size of
//! a stored transition, and which transitions stay cached in memory
//! (least recently used first out).
use vstd::prelude::*;

verus! {

/// Bytes of one stored transition: observation, action, reward, next
/// observation and done flag, four bytes per number.
pub open spec fn spec_transition_size(obs_dim: nat, action_dim: nat) -> nat {
    (obs_dim + action_dim + 1 + obs_dim + 1) * 4
}

/// Bytes of one stored transition.
pub fn transition_size(obs_dim: usize, action_dim: usize) -> (n: usize)
    requires
        spec_transition_size(obs_dim as nat, action_dim as nat) <= usize::MAX,
    ensures
        n == spec_transition_size(obs_dim as nat, action_dim as nat),
{
    (obs_dim + action_dim + 1 + obs_dim + 1) * 4
}

/// Statistics about the disk-backed buffer.
#[derive(Debug, Clone, Copy, PartialEq, Eq, Structural)]
pub struct MmapBufferStats {
    /// Number of stored transitions.
    pub size: usize,
    /// Maximum capacity.
    pub capacity: usize,
    /// Current write position.
    pub position: usize,
    /// Current cache size.
    pub cache_size: usize,
    /// Maximum cache size.
    pub max_cache_size: usize,
    /// Total file size in bytes.
    pub file_size_bytes: usize,
    /// Bytes per transition.
    pub transition_size_bytes: usize,
}

/// Recency order of the cached transition slots, most recent first.
#[derive(Debug, Clone)]
pub struct LruOrder {
    order: Vec<usize>,
    max_entries: usize,
}

/// The order with `key` taken out.
pub open spec fn spec_without(order: Seq<usize>, key: usize) -> Seq<usize> {
    order.filter(|x: usize| x != key)
}

/// The order after `key` is used: it moves (or is added) to the front.
pub open spec fn spec_to_front(order: Seq<usize>, key: usize) -> Seq<usize> {
    seq![key] + spec_without(order, key)
}

/// What an access to `key` evicts: nothing on a hit; on a miss, the least
/// recently used slot when the cache is at its size (nothing if it is empty).
pub open spec fn spec_evicted(order: Seq<usize>, max_entries: nat, key: usize) -> Option<usize> {
    if order.contains(key) || order.len() < max_entries || order.len() == 0 {
        None
    } else {
        Some(order.last())
    }
}

/// The order after an access to `key`.
pub open spec fn spec_after_access(order: Seq<usize>, max_entries: nat, key: usize) -> Seq<usize> {
    match spec_evicted(order, max_entries, key) {
        Some(_) => spec_to_front(order.drop_last(), key),
        None => spec_to_front(order, key),
    }
}

impl LruOrder {
    /// Cached slots, most recent first.
    pub closed spec fn spec_order(&self) -> Seq<usize> {
        self.order@
    }

    /// Size the cache is kept to.
    pub closed spec fn spec_max_entries(&self) -> nat {
        self.max_entries as nat
    }

    /// Well formed: each slot at most once.
    pub closed spec fn wf(&self) -> bool {
        self.order@.no_duplicates()
    }

    /// An empty order for a cache of `max_entries` transitions.
    pub fn new(max_entries: usize) -> (o: Self)
        ensures
            o.wf(),
            o.spec_order() == Seq::<usize>::empty(),
            o.spec_max_entries() == max_entries,
    {
        LruOrder { order: Vec::new(), max_entries }
    }

    /// Number of cached slots.
    pub fn len(&self) -> (n: usize)
        ensures
            n == self.spec_order().len(),
    {
        self.order.len()
    }

    /// The cached slots, most recent first.
    pub fn slots(&self) -> (v: &Vec<usize>)
        ensures
            v@ == self.spec_order(),
    {
        &self.order
    }

    /// Whether `key` is cached.
    pub fn contains(&self, key: usize) -> (b: bool)
        ensures
            b == self.spec_order().contains(key),
    {
        let mut i: usize = 0;
        while i < self.order.len()
            invariant
                i <= self.order.len(),
                forall|j: int| 0 <= j < i ==> self.order@[j] != key,
            decreases self.order.len() - i,
        {
            if self.order[i] == key {
                return true;
            }
            i = i + 1;
        }
        false
    }

    /// Removes `key` from the order (a slot overwritten on disk).
    pub fn invalidate(&mut self, key: usize)
        requires
            old(self).wf(),
        ensures
            final(self).wf(),
            final(self).spec_max_entries() == old(self).spec_max_entries(),
            final(self).spec_order() == spec_without(old(self).spec_order(), key),
    {
        let ghost old_order = self.order@;
        let mut kept: Vec<usize> = Vec::new();
        let mut i: usize = 0;
        while i < self.order.len()
            invariant
                i <= self.order.len(),
                self.order@ == old_order,
                old_order.no_duplicates(),
                kept@ == spec_without(old_order.take(i as int), key),
            decreases self.order.len() - i,
        {
            proof {
                lemma_filter_take_step(old_order, i as int, key);
            }
            if self.order[i] != key {
                kept.push(self.order[i]);
            }
            i = i + 1;
        }
        assert(old_order.take(old_order.len() as int) =~= old_order);
        proof {
            lemma_filter_no_duplicates(old_order, key);
        }
        self.order = kept;
    }

    /// Records an access to `key`: on a hit it moves to the front; on a miss
    /// the least recently used slot is evicted first when the cache is at its
    /// size, and `key` is added at the front.  Returns whether it was a hit
    /// and the evicted slot.
    pub fn access(&mut self, key: usize) -> (r: (bool, Option<usize>))
        requires
            old(self).wf(),
        ensures
            final(self).wf(),
            final(self).spec_max_entries() == old(self).spec_max_entries(),
            r.0 == old(self).spec_order().contains(key),
            r.1 == spec_evicted(old(self).spec_order(), old(self).spec_max_entries(), key),
            final(self).spec_order() == spec_after_access(old(self).spec_order(), old(self).spec_max_entries(), key),
    {
        let hit = self.contains(key);
        let mut evicted: Option<usize> = None;
        if !hit && self.order.len() >= self.max_entries {
            evicted = self.order.pop();
        }
        let ghost base = self.order@;
        self.invalidate(key);
        self.order.insert(0, key);
        proof {
            assert(self.order@ =~= spec_to_front(base, key));
            lemma_to_front_no_duplicates(base, key);
        }
        (hit, evicted)
    }

    /// Forgets every cached slot.
    pub fn clear(&mut self)
        ensures
            final(self).wf(),
            final(self).spec_order() == Seq::<usize>::empty(),
            final(self).spec_max_entries() == old(self).spec_max_entries(),
    {
        self.order.clear();
    }
}

/// Filtering one more element of a prefix.
proof fn lemma_filter_take_step(s: Seq<usize>, i: int, key: usize)
    requires
        0 <= i < s.len(),
    ensures
        spec_without(s.take(i + 1), key) == if s[i] != key {
            spec_without(s.take(i), key).push(s[i])
        } else {
            spec_without(s.take(i), key)
        },
{
    assert(s.take(i + 1).drop_last() =~= s.take(i));
    assert(s.take(i + 1).last() == s[i]);
    reveal(Seq::filter);
}

/// Filtering keeps elements distinct.
proof fn lemma_filter_no_duplicates(s: Seq<usize>, key: usize)
    requires
        s.no_duplicates(),
    ensures
        spec_without(s, key).no_duplicates(),
        !spec_without(s, key).contains(key),
        forall|x: usize| spec_without(s, key).contains(x) <==> (s.contains(x) && x != key),
    decreases s.len(),
{
    reveal(Seq::filter);
    if s.len() > 0 {
        let t = s.drop_last();
        assert(t.no_duplicates());
        lemma_filter_no_duplicates(t, key);
        let ft = spec_without(t, key);
        let f = spec_without(s, key);
        if s.last() != key {
            assert(f =~= ft.push(s.last()));
        } else {
            assert(f =~= ft);
        }
        assert forall|x: usize| f.contains(x) <==> (s.contains(x) && x != key) by {
            if s.contains(x) {
                let i = choose|i: int| 0 <= i < s.len() && s[i] == x;
                if i < s.len() - 1 {
                    assert(t[i] == x);
                }
            }
            if t.contains(x) {
                let i = choose|i: int| 0 <= i < t.len() && t[i] == x;
                assert(s[i] == x);
            }
            if f.contains(x) && s.last() != key {
                let i = choose|i: int| 0 <= i < f.len() && f[i] == x;
                if i < ft.len() {
                    assert(ft[i] == x);
                }
            }
            if ft.contains(x) && s.last() != key {
                let i = choose|i: int| 0 <= i < ft.len() && ft[i] == x;
                assert(f[i] == x);
            }
            if s.last() != key && x == s.last() {
                assert(f[ft.len() as int] == x);
            }
        }
        if s.last() != key {
            assert(!t.contains(s.last())) by {
                if t.contains(s.last()) {
                    let i = choose|i: int| 0 <= i < t.len() && t[i] == s.last();
                    assert(s[i] == s[s.len() - 1]);
                }
            }
            assert forall|i: int, j: int| 0 <= i < f.len() && 0 <= j < f.len() && i != j implies f[i] != f[j] by {
                if i == ft.len() {
                    assert(ft[j] == f[j]);
                    assert(ft.contains(f[j]));
                } else if j == ft.len() {
                    assert(ft[i] == f[i]);
                    assert(ft.contains(f[i]));
                } else {
                    assert(ft[i] == f[i] && ft[j] == f[j]);
                }
            }
        }
    } else {
        assert(spec_without(s, key) =~= Seq::<usize>::empty());
    }
}

/// Putting a key in front of an order without it keeps the order distinct.
proof fn lemma_to_front_no_duplicates(s: Seq<usize>, key: usize)
    requires
        s.no_duplicates(),
    ensures
        spec_to_front(s, key).no_duplicates(),
{
    lemma_filter_no_duplicates(s, key);
    let f = spec_without(s, key);
    let r = spec_to_front(s, key);
    assert(r.len() == f.len() + 1);
    assert(r[0] == key);
    assert forall|i: int| 0 < i < r.len() implies #[trigger] r[i] == f[i - 1] by {}
    assert forall|i: int, j: int| 0 <= i < r.len() && 0 <= j < r.len() && i != j implies r[i] != r[j] by {
        if i == 0 {
            assert(r[j] == f[j - 1]);
            assert(f.contains(f[j - 1]));
        } else if j == 0 {
            assert(r[i] == f[i - 1]);
            assert(f.contains(f[i - 1]));
        } else {
            assert(r[i] == f[i - 1]);
            assert(r[j] == f[j - 1]);
        }
    }
}

/// The cache never holds more than its size (or one entry when its size is
/// zero), and the slot just accessed is the most recent one.
pub proof fn lemma_access_bounds(order: Seq<usize>, max_entries: nat, key: usize)
    requires
        order.no_duplicates(),
        order.len() <= if max_entries == 0 { 1 } else { max_entries },
    ensures
        spec_after_access(order, max_entries, key).len() <= if max_entries == 0 { 1 } else { max_entries },
        spec_after_access(order, max_entries, key)[0] == key,
{
    lemma_filter_no_duplicates(order, key);
    let ev = spec_evicted(order, max_entries, key);
    if order.contains(key) {
        lemma_filter_len_contains(order, key);
    } else {
        lemma_filter_len_absent(order, key);
        if ev is Some {
            let d = order.drop_last();
            assert(!d.contains(key));
            lemma_filter_len_absent(d, key);
        }
    }
}

/// Filtering out an absent key changes nothing.
proof fn lemma_filter_len_absent(s: Seq<usize>, key: usize)
    requires
        !s.contains(key),
    ensures
        spec_without(s, key) == s,
    decreases s.len(),
{
    reveal(Seq::filter);
    if s.len() > 0 {
        assert(!s.drop_last().contains(key)) by {
            if s.drop_last().contains(key) {
                let i = choose|i: int| 0 <= i < s.drop_last().len() && s.drop_last()[i] == key;
                assert(s[i] == key);
            }
        }
        lemma_filter_len_absent(s.drop_last(), key);
        assert(s.last() != key) by {
            assert(s[s.len() - 1] == s.last());
        }
        assert(s.drop_last().push(s.last()) =~= s);
    }
}

/// Filtering out a key present once shortens by one.
proof fn lemma_filter_len_contains(s: Seq<usize>, key: usize)
    requires
        s.contains(key),
        s.no_duplicates(),
    ensures
        spec_without(s, key).len() == s.len() - 1,
    decreases s.len(),
{
    reveal(Seq::filter);
    let t = s.drop_last();
    assert(t.no_duplicates());
    if s.last() == key {
        assert(!t.contains(key)) by {
            if t.contains(key) {
                let i = choose|i: int| 0 <= i < t.len() && t[i] == key;
                assert(s[i] == s[s.len() - 1]);
            }
        }
        lemma_filter_len_absent(t, key);
    } else {
        assert(t.contains(key)) by {
            let i = choose|i: int| 0 <= i < s.len() && s[i] == key;
            assert(i != s.len() - 1);
            assert(t[i] == key);
        }
        lemma_filter_len_contains(t, key);
    }
}

} // verus!
