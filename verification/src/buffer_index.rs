//! Index bookkeeping of the experience buffers: the circular write cursor of
//! replay buffers, the fill state of rollout buffers, and the shuffled
//! minibatch index plan.  The stored transitions themselves live outside
//! the library; these types decide where they go and which are read.
use vstd::prelude::*;
use rand::rngs::StdRng;
use rand::seq::SliceRandom;
use crate::space::index_below;

verus! {

/// Circular write cursor of a fixed-capacity replay buffer: the slot the
/// next transition goes to, and how many slots hold transitions.
#[derive(Debug, Clone, Copy, PartialEq, Eq, Structural)]
pub struct RingCursor {
    capacity: usize,
    position: usize,
    size: usize,
}

/// The cursor state (position, size) after `k` writes into an empty buffer
/// of capacity `cap`.
pub open spec fn ring_after(cap: nat, k: nat) -> (nat, nat) {
    (k % cap, if k < cap { k } else { cap })
}

impl RingCursor {
    /// Number of slots.
    pub closed spec fn spec_capacity(&self) -> nat {
        self.capacity as nat
    }

    /// Slot of the next write.
    pub closed spec fn spec_position(&self) -> nat {
        self.position as nat
    }

    /// Slots holding transitions.
    pub closed spec fn spec_size(&self) -> nat {
        self.size as nat
    }

    /// The cursor is well formed.
    pub closed spec fn wf(&self) -> bool {
        &&& self.capacity > 0
        &&& self.position < self.capacity
        &&& self.size <= self.capacity
    }

    /// An empty cursor over `capacity` slots; `None` for zero capacity.
    pub fn new(capacity: usize) -> (r: Option<Self>)
        ensures
            capacity == 0 <==> r is None,
            r matches Some(c) ==> {
                &&& c.wf()
                &&& c.spec_capacity() == capacity
                &&& c.spec_position() == 0
                &&& c.spec_size() == 0
            },
    {
        if capacity == 0 {
            None
        } else {
            Some(RingCursor { capacity, position: 0, size: 0 })
        }
    }

    /// A cursor resumed at a saved state: `position` is the slot of the next
    /// write and `size` the slots holding transitions.  `None` unless the
    /// capacity is positive, the position names a slot and the size fits.
    pub fn restore(capacity: usize, position: usize, size: usize) -> (r: Option<Self>)
        ensures
            r is Some <==> (capacity > 0 && position < capacity && size <= capacity),
            r matches Some(c) ==> {
                &&& c.wf()
                &&& c.spec_capacity() == capacity
                &&& c.spec_position() == position
                &&& c.spec_size() == size
            },
    {
        if capacity == 0 || position >= capacity || size > capacity {
            None
        } else {
            Some(RingCursor { capacity, position, size })
        }
    }

    /// Number of slots.
    pub fn capacity(&self) -> (c: usize)
        ensures
            c == self.spec_capacity(),
    {
        self.capacity
    }

    /// Slot the next transition is written to.
    pub fn position(&self) -> (p: usize)
        ensures
            p == self.spec_position(),
    {
        self.position
    }

    /// Number of stored transitions.
    pub fn len(&self) -> (n: usize)
        ensures
            n == self.spec_size(),
    {
        self.size
    }

    /// No transition is stored.
    pub fn is_empty(&self) -> (b: bool)
        ensures
            b == (self.spec_size() == 0),
    {
        self.size == 0
    }

    /// At least `batch_size` transitions are stored.
    pub fn can_sample(&self, batch_size: usize) -> (b: bool)
        ensures
            b == (self.spec_size() >= batch_size),
    {
        self.size >= batch_size
    }

    /// Records a write at the current slot: the cursor moves to the next slot,
    /// wrapping around, and the size grows until the buffer is full.
    pub fn advance(&mut self)
        requires
            old(self).wf(),
        ensures
            final(self).wf(),
            final(self).spec_capacity() == old(self).spec_capacity(),
            final(self).spec_position() == (old(self).spec_position() + 1) % old(self).spec_capacity(),
            final(self).spec_size() == (if old(self).spec_size() < old(self).spec_capacity() {
                old(self).spec_size() + 1
            } else {
                old(self).spec_capacity()
            }),
    {
        self.position = (self.position + 1) % self.capacity;
        self.size = if self.size < self.capacity { self.size + 1 } else { self.capacity };
    }

    /// Forgets every transition.
    pub fn clear(&mut self)
        requires
            old(self).wf(),
        ensures
            final(self).wf(),
            final(self).spec_capacity() == old(self).spec_capacity(),
            final(self).spec_position() == 0,
            final(self).spec_size() == 0,
    {
        self.position = 0;
        self.size = 0;
    }

    /// Draws `batch_size` stored slots uniformly with replacement; `None` when
    /// fewer than `batch_size` transitions are stored.
    pub fn sample_uniform(&self, rng: &mut StdRng, batch_size: usize) -> (r: Option<Vec<usize>>)
        requires
            self.wf(),
        ensures
            r is None <==> self.spec_size() < batch_size,
            r matches Some(v) ==> v@.len() == batch_size
                && forall|i: int| 0 <= i < batch_size ==> (#[trigger] v@[i]) < self.spec_size(),
    {
        if self.size < batch_size {
            return None;
        }
        let mut v: Vec<usize> = Vec::new();
        let mut i: usize = 0;
        while i < batch_size
            invariant
                i <= batch_size,
                batch_size <= self.size,
                v@.len() == i,
                forall|k: int| 0 <= k < i ==> (#[trigger] v@[k]) < self.size,
            decreases batch_size - i,
        {
            v.push(index_below(rng, self.size));
            i = i + 1;
        }
        Some(v)
    }
}

/// One more write moves a cursor that has seen `k` writes to the state of
/// `k + 1` writes: the cursor after `k` writes always sits at `k % capacity`
/// and holds `min(k, capacity)` transitions.
pub proof fn lemma_ring_step(cap: nat, k: nat)
    requires
        cap > 0,
    ensures
        ring_after(cap, k + 1) == (
            (ring_after(cap, k).0 + 1) % cap,
            if ring_after(cap, k).1 < cap { ring_after(cap, k).1 + 1 } else { cap },
        ),
{
    vstd::arithmetic::div_mod::lemma_add_mod_noop(k as int, 1, cap as int);
    if cap > 1 {
        vstd::arithmetic::div_mod::lemma_small_mod(1, cap);
    } else {
        vstd::arithmetic::div_mod::lemma_mod_self_0(cap as int);
        assert(k % 1 == 0);
        assert((k + 1) % 1 == 0);
    }
}

/// Fill state of an on-policy rollout buffer: how many steps were recorded
/// and whether the rollout is complete.
#[derive(Debug, Clone, Copy, PartialEq, Eq, Structural)]
pub struct RolloutProgress {
    buffer_size: usize,
    pos: usize,
    full: bool,
}

/// Why a rollout buffer cannot be made or filled.
#[derive(Debug, Clone, Copy, PartialEq, Eq, Structural)]
pub enum RolloutError {
    /// Buffer size must be positive.
    ZeroBufferSize,
    /// Number of environments must be positive.
    ZeroEnvs,
    /// The rollout is complete; it must be reset before adding more steps.
    Full,
}

impl RolloutProgress {
    /// Steps the rollout holds when complete.
    pub closed spec fn spec_buffer_size(&self) -> nat {
        self.buffer_size as nat
    }

    /// Steps recorded so far.
    pub closed spec fn spec_pos(&self) -> nat {
        self.pos as nat
    }

    /// The rollout is complete.
    pub closed spec fn spec_full(&self) -> bool {
        self.full
    }

    /// Well formed: complete exactly when all steps are recorded.
    pub closed spec fn wf(&self) -> bool {
        &&& self.buffer_size > 0
        &&& self.pos <= self.buffer_size
        &&& self.full == (self.pos == self.buffer_size)
    }

    /// A new, empty rollout of `buffer_size` steps over `num_envs`
    /// environments; both must be positive (buffer size checked first).
    pub fn new(buffer_size: usize, num_envs: usize) -> (r: Result<Self, RolloutError>)
        ensures
            buffer_size == 0 ==> r == Err::<Self, RolloutError>(RolloutError::ZeroBufferSize),
            buffer_size > 0 && num_envs == 0 ==> r == Err::<Self, RolloutError>(RolloutError::ZeroEnvs),
            buffer_size > 0 && num_envs > 0 ==> (r matches Ok(p) && p.wf() && p.spec_pos() == 0
                && !p.spec_full() && p.spec_buffer_size() == buffer_size),
    {
        if buffer_size == 0 {
            return Err(RolloutError::ZeroBufferSize);
        }
        if num_envs == 0 {
            return Err(RolloutError::ZeroEnvs);
        }
        Ok(RolloutProgress { buffer_size, pos: 0, full: false })
    }

    /// Steps recorded so far.
    pub fn position(&self) -> (p: usize)
        ensures
            p == self.spec_pos(),
    {
        self.pos
    }

    /// The rollout is complete.
    pub fn is_full(&self) -> (b: bool)
        ensures
            b == self.spec_full(),
    {
        self.full
    }

    /// Steps the rollout holds when complete.
    pub fn buffer_size(&self) -> (n: usize)
        ensures
            n == self.spec_buffer_size(),
    {
        self.buffer_size
    }

    /// Records one step.  Refused when the rollout is complete; otherwise
    /// returns whether this step completed it.
    pub fn record_step(&mut self) -> (r: Result<bool, RolloutError>)
        requires
            old(self).wf(),
        ensures
            final(self).wf(),
            final(self).spec_buffer_size() == old(self).spec_buffer_size(),
            old(self).spec_full() ==> r == Err::<bool, RolloutError>(RolloutError::Full) && *final(self) == *old(self),
            !old(self).spec_full() ==> {
                &&& final(self).spec_pos() == old(self).spec_pos() + 1
                &&& r == Ok::<bool, RolloutError>(final(self).spec_full())
            },
            final(self).spec_full() == (final(self).spec_pos() == final(self).spec_buffer_size()),
            final(self).spec_pos() <= final(self).spec_buffer_size(),
    {
        if self.full {
            return Err(RolloutError::Full);
        }
        self.pos = self.pos + 1;
        if self.pos >= self.buffer_size {
            self.full = true;
        }
        Ok(self.full)
    }

    /// In a well-formed rollout the buffer size is positive, at most that
    /// many steps are recorded, and the rollout is complete exactly when all
    /// of them are.
    pub proof fn lemma_full_when_all_recorded(&self)
        requires
            self.wf(),
        ensures
            self.spec_buffer_size() > 0,
            self.spec_pos() <= self.spec_buffer_size(),
            self.spec_full() == (self.spec_pos() == self.spec_buffer_size()),
    {
    }

    /// Empties the rollout.
    pub fn reset(&mut self)
        requires
            old(self).wf(),
        ensures
            final(self).wf(),
            final(self).spec_buffer_size() == old(self).spec_buffer_size(),
            final(self).spec_pos() == 0,
            !final(self).spec_full(),
    {
        self.pos = 0;
        self.full = false;
    }
}

/// Shuffles a vector in place with `SliceRandom::shuffle` on
/// `rand::thread_rng`; the source swaps elements only, so the result is a
/// rearrangement of the input.
#[verifier::external_body]
fn shuffle_in_place(v: &mut Vec<usize>)
    ensures
        final(v)@.to_multiset() == old(v)@.to_multiset(),
        final(v)@.len() == old(v)@.len(),
{
    v.shuffle(&mut rand::thread_rng());
}

/// `0, 1, ..., n - 1` in a random order: every index exactly once.
pub fn shuffled_range(n: usize) -> (v: Vec<usize>)
    ensures
        v@.len() == n,
        v@.to_multiset() == Seq::new(n as nat, |i: int| i as usize).to_multiset(),
{
    let mut v: Vec<usize> = Vec::new();
    let mut i: usize = 0;
    while i < n
        invariant
            i <= n,
            v@ == Seq::new(i as nat, |k: int| k as usize),
        decreases n - i,
    {
        v.push(i);
        i = i + 1;
        assert(v@ =~= Seq::new(i as nat, |k: int| k as usize));
    }
    shuffle_in_place(&mut v);
    v
}

/// The minibatches of an index order: `len / batch_size` consecutive runs of
/// `batch_size` indices (a shorter tail is dropped), each index as a `u32`.
pub open spec fn spec_batches(order: Seq<usize>, batch_size: nat) -> Seq<Seq<u32>> {
    Seq::new(order.len() / batch_size, |b: int|
        Seq::new(batch_size, |k: int| order[b * batch_size + k] as u32))
}

/// Cuts an index order into minibatches.
pub fn split_into_batches(order: &Vec<usize>, batch_size: usize) -> (bs: Vec<Vec<u32>>)
    requires
        batch_size > 0,
    ensures
        bs@.len() == order@.len() / (batch_size as nat),
        forall|b: int| 0 <= b < bs@.len() ==> (#[trigger] bs@[b])@ == spec_batches(order@, batch_size as nat)[b],
{
    let num_batches = order.len() / batch_size;
    let mut bs: Vec<Vec<u32>> = Vec::new();
    let mut b: usize = 0;
    while b < num_batches
        invariant
            batch_size > 0,
            num_batches == order@.len() / (batch_size as nat),
            b <= num_batches,
            bs@.len() == b,
            forall|j: int| 0 <= j < b ==> (#[trigger] bs@[j])@ == spec_batches(order@, batch_size as nat)[j],
        decreases num_batches - b,
    {
        proof {
            assert((b + 1) * batch_size <= num_batches * batch_size) by (nonlinear_arith)
                requires b + 1 <= num_batches;
            assert(num_batches * batch_size <= order@.len()) by (nonlinear_arith)
                requires num_batches == order@.len() / (batch_size as nat), batch_size > 0;
            assert((b + 1) * batch_size == b * batch_size + batch_size) by (nonlinear_arith);
            assert(b * batch_size + batch_size <= order.len());
        }
        let start = b * batch_size;
        let mut batch: Vec<u32> = Vec::new();
        let mut k: usize = 0;
        while k < batch_size
            invariant
                k <= batch_size,
                start == b * batch_size,
                start + batch_size <= order.len(),
                batch@ == Seq::new(k as nat, |m: int| order@[b * batch_size + m] as u32),
            decreases batch_size - k,
        {
            batch.push(order[start + k] as u32);
            k = k + 1;
            assert(batch@ =~= Seq::new(k as nat, |m: int| order@[b * batch_size + m] as u32));
        }
        bs.push(batch);
        b = b + 1;
    }
    bs
}

/// `bs` cuts `order` into minibatches, and `order` lists every index below
/// `total` exactly once.
pub open spec fn is_epoch_plan(bs: Seq<Vec<u32>>, order: Seq<usize>, total: nat, batch_size: nat) -> bool {
    &&& order.len() == total
    &&& order.to_multiset() == Seq::new(total, |i: int| i as usize).to_multiset()
    &&& bs.len() == total / batch_size
    &&& forall|b: int| 0 <= b < bs.len() ==> (#[trigger] bs[b])@ == spec_batches(order, batch_size)[b]
}

/// Plans the minibatches of one optimisation epoch over `total_size`
/// transitions: a random order of all indices cut into runs of
/// `batch_size`.  `None` when `batch_size` is zero or exceeds `total_size`.
pub fn minibatch_indices(total_size: usize, batch_size: usize) -> (r: Option<Vec<Vec<u32>>>)
    ensures
        r is None <==> (batch_size == 0 || batch_size > total_size),
        r matches Some(bs) ==> exists|order: Seq<usize>| #[trigger] is_epoch_plan(bs@, order, total_size as nat, batch_size as nat),
{
    if batch_size == 0 || batch_size > total_size {
        return None;
    }
    let order = shuffled_range(total_size);
    let bs = split_into_batches(&order, batch_size);
    assert(is_epoch_plan(bs@, order@, total_size as nat, batch_size as nat));
    let r = Some(bs);
    assert(r is Some);
    assert(r->0@ == bs@);
    assert(is_epoch_plan(r->0@, order@, total_size as nat, batch_size as nat));
    r
}

} // verus!
