//! Mixed-precision selection: compute precisions and the choice of the
//! precision in which each operation runs.
use vstd::prelude::*;
use crate::text::{chars_contain, chars_of, has_infix};

verus! {

/// Compute precision for tensor operations.
#[derive(Debug, Clone, Copy, PartialEq, Eq, Structural)]
pub enum Precision {
    /// 32-bit floating point (default, full precision).
    F32,
    /// 16-bit floating point (half precision).
    F16,
    /// Brain floating point 16 (better range than F16, less precision).
    BF16,
}

impl Default for Precision {
    fn default() -> (p: Self)
        ensures
            p == Precision::F32,
    {
        Precision::F32
    }
}

impl Precision {
    /// A reduced-precision format (F16 or BF16).
    pub open spec fn spec_is_reduced(self) -> bool {
        !(self is F32)
    }

    /// Check if this is a reduced precision format.
    pub fn is_reduced(&self) -> (b: bool)
        ensures
            b == self.spec_is_reduced(),
    {
        match self {
            Precision::F32 => false,
            Precision::F16 | Precision::BF16 => true,
        }
    }

    /// Get the number of bytes per element.
    pub fn bytes_per_element(&self) -> (n: usize)
        ensures
            n == (if self.spec_is_reduced() { 2usize } else { 4usize }),
    {
        match self {
            Precision::F32 => 4,
            Precision::F16 | Precision::BF16 => 2,
        }
    }

    /// Get display name.
    pub fn name(&self) -> (s: &'static str)
        ensures
            s@ == (match *self {
                Precision::F32 => "FP32"@,
                Precision::F16 => "FP16"@,
                Precision::BF16 => "BF16"@,
            }),
    {
        match self {
            Precision::F32 => "FP32",
            Precision::F16 => "FP16",
            Precision::BF16 => "BF16",
        }
    }
}

/// The Unicode lower-case mapping of a text, as `str::to_lowercase` computes it.
pub uninterp spec fn spec_lowercase(s: Seq<char>) -> Seq<char>;

/// Calls `str::to_lowercase`.  The result is named, not described: it is the
/// Unicode lower-case mapping of the argument and depends on nothing else.
#[verifier::external_body]
pub(crate) fn lowercase(s: &str) -> (r: String)
    ensures
        r@ == spec_lowercase(s@),
{
    s.to_lowercase()
}

/// The default operations that stay in full precision.
pub open spec fn spec_default_fp32_ops() -> Seq<Seq<char>> {
    seq!["softmax"@, "log_softmax"@, "layer_norm"@, "batch_norm"@, "loss"@]
}

/// Context for automatic precision casting: which precision tensors are cast
/// to for the forward pass, for master weights, and for each operation.
#[derive(Debug)]
pub struct AutocastContext {
    /// Compute precision for forward/backward.
    compute_precision: Precision,
    /// Master weight precision (always F32 for stability).
    master_precision: Precision,
    /// Whether autocast is enabled.
    enabled: bool,
    /// Operations that should stay in full precision.
    fp32_ops: Vec<String>,
}

impl AutocastContext {
    /// Master weights are always kept in full precision.
    #[verifier::type_invariant]
    spec fn master_is_full(&self) -> bool {
        self.master_precision == Precision::F32
    }

    /// Compute precision.
    pub closed spec fn spec_compute(&self) -> Precision {
        self.compute_precision
    }

    /// Master precision.
    pub closed spec fn spec_master(&self) -> Precision {
        self.master_precision
    }

    /// Whether casting is enabled.
    pub closed spec fn spec_enabled(&self) -> bool {
        self.enabled
    }

    /// The operation names kept in full precision, in insertion order.
    pub closed spec fn spec_fp32_ops(&self) -> Seq<Seq<char>> {
        self.fp32_ops@.map_values(|s: String| s@)
    }

    /// Create a new autocast context, enabled exactly for reduced precisions.
    pub fn new(compute_precision: Precision) -> (c: Self)
        ensures
            c.spec_compute() == compute_precision,
            c.spec_master() == Precision::F32,
            c.spec_enabled() == compute_precision.spec_is_reduced(),
            c.spec_fp32_ops() == spec_default_fp32_ops(),
    {
        let mut ops: Vec<String> = Vec::new();
        ops.push(String::from_str("softmax"));
        ops.push(String::from_str("log_softmax"));
        ops.push(String::from_str("layer_norm"));
        ops.push(String::from_str("batch_norm"));
        ops.push(String::from_str("loss"));
        let c = Self {
            compute_precision,
            master_precision: Precision::F32,
            enabled: compute_precision.is_reduced(),
            fp32_ops: ops,
        };
        assert(c.spec_fp32_ops() =~= spec_default_fp32_ops());
        c
    }

    /// Create a disabled context (F32 everywhere).
    pub fn disabled() -> (c: Self)
        ensures
            c.spec_compute() == Precision::F32,
            c.spec_master() == Precision::F32,
            !c.spec_enabled(),
            c.spec_fp32_ops() == Seq::<Seq<char>>::empty(),
    {
        let c = Self {
            compute_precision: Precision::F32,
            master_precision: Precision::F32,
            enabled: false,
            fp32_ops: Vec::new(),
        };
        assert(c.spec_fp32_ops() =~= Seq::<Seq<char>>::empty());
        c
    }

    /// Check if autocast is enabled.
    pub fn is_enabled(&self) -> (b: bool)
        ensures
            b == self.spec_enabled(),
    {
        self.enabled
    }

    /// Get compute precision.
    pub fn compute_precision(&self) -> (p: Precision)
        ensures
            p == self.spec_compute(),
    {
        self.compute_precision
    }

    /// Get master weight precision: always full precision.
    pub fn master_precision(&self) -> (p: Precision)
        ensures
            p == self.spec_master(),
            p == Precision::F32,
    {
        proof { use_type_invariant(self); }
        self.master_precision
    }

    /// Add an operation to the FP32 list.
    pub fn add_fp32_op(&mut self, op_name: &str)
        ensures
            final(self).spec_fp32_ops() == old(self).spec_fp32_ops().push(op_name@),
            final(self).spec_compute() == old(self).spec_compute(),
            final(self).spec_master() == old(self).spec_master(),
            final(self).spec_enabled() == old(self).spec_enabled(),
    {
        proof { use_type_invariant(&*self); }
        let mut ops: Vec<String> = Vec::new();
        std::mem::swap(&mut ops, &mut self.fp32_ops);
        ops.push(String::from_str(op_name));
        self.fp32_ops = ops;
        assert(self.spec_fp32_ops() =~= old(self).spec_fp32_ops().push(op_name@));
    }

    /// The precision a tensor is cast to for the forward pass: the compute
    /// precision when enabled, no cast otherwise.
    pub fn compute_cast_target(&self) -> (t: Option<Precision>)
        ensures
            t == (if self.spec_enabled() { Some(self.spec_compute()) } else { None }),
    {
        if self.enabled { Some(self.compute_precision) } else { None }
    }

    /// Some listed operation name occurs in the (already lower-cased) `lowered`.
    pub open spec fn spec_keeps_lowered(&self, lowered: Seq<char>) -> bool {
        exists|k: int| 0 <= k < self.spec_fp32_ops().len()
            && has_infix(lowered, #[trigger] self.spec_fp32_ops()[k])
    }

    /// Some listed operation name occurs in the lower-cased `op_name`.
    pub open spec fn spec_keeps_full_precision(&self, op_name: Seq<char>) -> bool {
        self.spec_keeps_lowered(spec_lowercase(op_name))
    }

    /// The precision a tensor is cast to before the operation whose
    /// lower-cased name is `lowered`: no cast when disabled; full precision
    /// (the master precision) when a listed operation name occurs in it; the
    /// compute precision otherwise.
    pub fn cast_target_for_lowered(&self, lowered: &str) -> (t: Option<Precision>)
        ensures
            t == (if !self.spec_enabled() {
                None
            } else if self.spec_keeps_lowered(lowered@) {
                Some(Precision::F32)
            } else {
                Some(self.spec_compute())
            }),
    {
        proof { use_type_invariant(self); }
        if !self.enabled {
            return None;
        }
        let hay = chars_of(lowered);
        let mut i: usize = 0;
        while i < self.fp32_ops.len()
            invariant
                i <= self.fp32_ops.len(),
                hay@ == lowered@,
                self.enabled,
                self.master_precision == Precision::F32,
                forall|k: int| 0 <= k < i ==> !has_infix(hay@, #[trigger] self.spec_fp32_ops()[k]),
            decreases self.fp32_ops.len() - i,
        {
            let needle = chars_of(self.fp32_ops[i].as_str());
            assert(needle@ == self.spec_fp32_ops()[i as int]);
            if chars_contain(&hay, &needle) {
                assert(has_infix(lowered@, self.spec_fp32_ops()[i as int]));
                return Some(self.master_precision);
            }
            i = i + 1;
        }
        Some(self.compute_precision)
    }

    /// The precision a tensor is cast to before `op_name`: no cast when
    /// disabled; full precision (the master precision) when a listed
    /// operation name occurs in the lower-cased name; the compute precision
    /// otherwise.
    pub fn cast_target_for_op(&self, op_name: &str) -> (t: Option<Precision>)
        ensures
            t == (if !self.spec_enabled() {
                None
            } else if self.spec_keeps_full_precision(op_name@) {
                Some(Precision::F32)
            } else {
                Some(self.spec_compute())
            }),
    {
        if !self.enabled {
            return None;
        }
        let lower = lowercase(op_name);
        self.cast_target_for_lowered(lower.as_str())
    }
}

impl Clone for AutocastContext {
    fn clone(&self) -> (c: Self)
        ensures
            c.spec_compute() == self.spec_compute(),
            c.spec_master() == self.spec_master(),
            c.spec_enabled() == self.spec_enabled(),
    {
        proof { use_type_invariant(self); }
        AutocastContext {
            compute_precision: self.compute_precision,
            master_precision: self.master_precision,
            enabled: self.enabled,
            fp32_ops: self.fp32_ops.clone(),
        }
    }
}

/// An operation added to the full-precision list runs in full precision
/// from then on, whenever its name occurs in the lower-cased name of the
/// operation, and every operation kept in full precision before still is.
pub proof fn lemma_added_op_stays_full(
    before: AutocastContext,
    after: AutocastContext,
    name: Seq<char>,
    lowered: Seq<char>,
)
    requires
        after.spec_fp32_ops() == before.spec_fp32_ops().push(name),
    ensures
        has_infix(lowered, name) ==> after.spec_keeps_lowered(lowered),
        before.spec_keeps_lowered(lowered) ==> after.spec_keeps_lowered(lowered),
{
    let n = before.spec_fp32_ops().len() as int;
    if has_infix(lowered, name) {
        assert(after.spec_fp32_ops()[n] == name);
    }
    if before.spec_keeps_lowered(lowered) {
        let k = choose|k: int| 0 <= k < before.spec_fp32_ops().len()
            && has_infix(lowered, #[trigger] before.spec_fp32_ops()[k]);
        assert(after.spec_fp32_ops()[k] == before.spec_fp32_ops()[k]);
    }
}

/// Runs `f` under the autocast context `ctx` and returns what it returns.
pub fn with_autocast<F: FnOnce() -> R, R>(ctx: &AutocastContext, f: F) -> (r: R)
    requires
        f.requires(()),
    ensures
        f.ensures((), r),
{
    f()
}

/// What a loss-scale update does to the scale.
#[derive(Debug, Clone, Copy, PartialEq, Eq, Structural)]
pub enum ScaleStep {
    /// The scale stays as it is.
    Unchanged,
    /// Overflow: the scale is multiplied by the backoff factor (not below
    /// its minimum).
    Backoff,
    /// Enough clean steps: the scale is multiplied by the growth factor (not
    /// above its maximum).
    Grow,
}

/// The step counting of the gradient scaler: whether scaling is on, how
/// many clean steps make the scale grow, the clean steps since the scale
/// last changed, and how many overflows were seen.
#[derive(Debug, Clone, Copy, PartialEq, Eq, Structural)]
pub struct ScaleSchedule {
    enabled: bool,
    growth_interval: usize,
    growth_counter: usize,
    overflow_count: usize,
}

impl ScaleSchedule {
    /// Whether scaling is on.
    pub closed spec fn spec_enabled(&self) -> bool {
        self.enabled
    }

    /// Clean steps that make the scale grow.
    pub closed spec fn spec_interval(&self) -> nat {
        self.growth_interval as nat
    }

    /// Clean steps since the scale last changed.
    pub closed spec fn spec_counter(&self) -> nat {
        self.growth_counter as nat
    }

    /// Overflows seen.
    pub closed spec fn spec_overflows(&self) -> nat {
        self.overflow_count as nat
    }

    /// Counting for `precision`: on for reduced precisions, growth every
    /// 2000 clean steps.
    pub fn new(precision: Precision) -> (s: Self)
        ensures
            s.spec_enabled() == precision.spec_is_reduced(),
            s.spec_interval() == 2000,
            s.spec_counter() == 0,
            s.spec_overflows() == 0,
    {
        ScaleSchedule { enabled: precision.is_reduced(), growth_interval: 2000, growth_counter: 0, overflow_count: 0 }
    }

    /// The same counting with another growth interval.
    pub fn with_growth_interval(self, interval: usize) -> (s: Self)
        ensures
            s.spec_enabled() == self.spec_enabled(),
            s.spec_interval() == interval,
            s.spec_counter() == self.spec_counter(),
            s.spec_overflows() == self.spec_overflows(),
    {
        ScaleSchedule { growth_interval: interval, ..self }
    }

    /// Turns scaling on or off.
    pub fn set_enabled(&mut self, enabled: bool)
        ensures
            final(self).spec_enabled() == enabled,
            final(self).spec_interval() == old(self).spec_interval(),
            final(self).spec_counter() == old(self).spec_counter(),
            final(self).spec_overflows() == old(self).spec_overflows(),
    {
        self.enabled = enabled;
    }

    /// Whether scaling is on.
    pub fn is_enabled(&self) -> (b: bool)
        ensures
            b == self.spec_enabled(),
    {
        self.enabled
    }

    /// Clean steps that make the scale grow.
    pub fn growth_interval(&self) -> (n: usize)
        ensures
            n == self.spec_interval(),
    {
        self.growth_interval
    }

    /// Clean steps since the scale last changed.
    pub fn growth_counter(&self) -> (n: usize)
        ensures
            n == self.spec_counter(),
    {
        self.growth_counter
    }

    /// Overflows seen.
    pub fn overflow_count(&self) -> (n: usize)
        ensures
            n == self.spec_overflows(),
    {
        self.overflow_count
    }

    /// Records an optimizer step, `overflow` when the gradients held inf or
    /// nan.  Off: nothing changes.  Overflow: the scale backs off, the clean
    /// count restarts and the overflow is counted.  Clean: the count goes up,
    /// and when it reaches the interval the scale grows and the count restarts.
    pub fn update(&mut self, overflow: bool) -> (step: ScaleStep)
        requires
            old(self).spec_enabled() && overflow ==> old(self).spec_overflows() < usize::MAX,
            old(self).spec_enabled() && !overflow ==> old(self).spec_counter() < usize::MAX,
        ensures
            final(self).spec_enabled() == old(self).spec_enabled(),
            final(self).spec_interval() == old(self).spec_interval(),
            !old(self).spec_enabled() ==> step == ScaleStep::Unchanged && *final(self) == *old(self),
            old(self).spec_enabled() && overflow ==> {
                &&& step == ScaleStep::Backoff
                &&& final(self).spec_counter() == 0
                &&& final(self).spec_overflows() == old(self).spec_overflows() + 1
            },
            old(self).spec_enabled() && !overflow ==> {
                &&& final(self).spec_overflows() == old(self).spec_overflows()
                &&& if old(self).spec_counter() + 1 >= old(self).spec_interval() {
                    step == ScaleStep::Grow && final(self).spec_counter() == 0
                } else {
                    step == ScaleStep::Unchanged && final(self).spec_counter() == old(self).spec_counter() + 1
                }
            },
    {
        if !self.enabled {
            return ScaleStep::Unchanged;
        }
        if overflow {
            self.growth_counter = 0;
            self.overflow_count = self.overflow_count + 1;
            ScaleStep::Backoff
        } else {
            self.growth_counter = self.growth_counter + 1;
            if self.growth_counter >= self.growth_interval {
                self.growth_counter = 0;
                ScaleStep::Grow
            } else {
                ScaleStep::Unchanged
            }
        }
    }

    /// The counters saved with a checkpoint: clean steps and overflows.
    pub fn state(&self) -> (r: (usize, usize))
        ensures
            r == (self.spec_counter() as usize, self.spec_overflows() as usize),
    {
        (self.growth_counter, self.overflow_count)
    }

    /// Restores the counters saved with a checkpoint.
    pub fn load_state(&mut self, growth_counter: usize, overflow_count: usize)
        ensures
            final(self).spec_enabled() == old(self).spec_enabled(),
            final(self).spec_interval() == old(self).spec_interval(),
            final(self).spec_counter() == growth_counter,
            final(self).spec_overflows() == overflow_count,
    {
        self.growth_counter = growth_counter;
        self.overflow_count = overflow_count;
    }
}

/// Scale steps of `k` clean updates from clean count `c` with interval `g`
/// (enabled): how many of them grow the scale, and the count after them.
pub open spec fn spec_clean_run(g: nat, c: nat, k: nat) -> (nat, nat)
    decreases k,
{
    if k == 0 {
        (0, c)
    } else {
        let (grows, c2) = spec_clean_run(g, c, (k - 1) as nat);
        if c2 + 1 >= g { (grows + 1, 0) } else { (grows, c2 + 1) }
    }
}

/// With a positive interval and no overflow, the scale grows once every
/// `interval` clean steps: after `k` clean steps from a fresh count it has
/// grown `k / interval` times and the count is `k % interval`.
pub proof fn lemma_clean_run(g: nat, k: nat)
    requires
        g > 0,
    ensures
        spec_clean_run(g, 0, k) == (k / g, k % g),
    decreases k,
{
    if k > 0 {
        lemma_clean_run(g, (k - 1) as nat);
        let km = (k - 1) as nat;
        let q = km / g;
        let r = km % g;
        assert(q * g + r == km && 0 <= r < g) by (nonlinear_arith) requires g > 0, q == km / g, r == km % g;
        let (grows, c2) = spec_clean_run(g, 0, km);
        assert(grows == q && c2 == r);
        if r + 1 >= g {
            assert(r + 1 == g);
            assert(k == (q + 1) * g) by (nonlinear_arith) requires q * g + r == km, r + 1 == g, k == km + 1;
            assert(k / g == q + 1 && k % g == 0) by (nonlinear_arith) requires k == (q + 1) * g, g > 0;
            assert(spec_clean_run(g, 0, k) == (grows + 1, 0nat));
        } else {
            assert(k == q * g + (r + 1)) by (nonlinear_arith) requires q * g + r == km, k == km + 1;
            assert(k / g == q && k % g == r + 1) by (nonlinear_arith)
                requires k == q * g + (r + 1), 0 <= r + 1 < g, g > 0;
            assert(spec_clean_run(g, 0, k) == (grows, c2 + 1));
        }
    }
}

} // verus!
