//! Shape rules of the rollout buffer: the shape each per-step input must
//! have, and the shapes that collected `[steps, envs, ...]` data is
//! flattened to.
use vstd::prelude::*;
use crate::text::{decimal_digits, spec_decimal};

verus! {

/// A tensor's shape differs from the expected one.
#[derive(Debug, Clone, PartialEq, Eq)]
pub struct ShapeMismatch {
    /// The shape that was required.
    pub expected: Vec<usize>,
    /// The shape that was given.
    pub got: Vec<usize>,
}

/// Why collected data cannot be flattened.
#[derive(Debug, Clone, PartialEq, Eq)]
pub enum FlattenError {
    /// Fewer than two leading dimensions to merge.
    TooFewDims,
    /// A per-step scalar buffer whose shape is not `[steps, envs]`.
    NotScalarBuffer(Vec<usize>),
}

/// `[d0, d1, ...]`, as Rust's `{:?}` renders a list of numbers.
pub open spec fn spec_dims_text(dims: Seq<usize>) -> Seq<char> {
    "["@ + spec_dims_items(dims) + "]"@
}

/// The numbers of `dims` in decimal, separated by `", "`.
pub open spec fn spec_dims_items(dims: Seq<usize>) -> Seq<char>
    decreases dims.len(),
{
    if dims.len() == 0 {
        Seq::empty()
    } else if dims.len() == 1 {
        spec_decimal(dims[0] as nat)
    } else {
        spec_dims_items(dims.drop_last()) + ", "@ + spec_decimal(dims.last() as nat)
    }
}

/// Renders a shape as `[d0, d1, ...]`.
pub fn dims_text(dims: &Vec<usize>) -> (s: String)
    ensures
        s@ == spec_dims_text(dims@),
{
    let mut s = String::from_str("[");
    let mut i: usize = 0;
    while i < dims.len()
        invariant
            i <= dims.len(),
            s@ == "["@ + spec_dims_items(dims@.subrange(0, i as int)),
        decreases dims.len() - i,
    {
        let ghost before = s@;
        if i > 0 {
            s.append(", ");
        }
        let d = decimal_digits(dims[i] as u128);
        s.append(d.as_str());
        proof {
            let pre = dims@.subrange(0, i as int);
            let next = dims@.subrange(0, i + 1);
            assert(next.drop_last() =~= pre);
            assert(next.last() == dims@[i as int]);
            if i == 0 {
                assert(pre =~= Seq::<usize>::empty());
                assert(spec_dims_items(pre) =~= Seq::<char>::empty());
                assert(s@ =~= "["@ + spec_dims_items(next));
            } else {
                assert(s@ =~= "["@ + spec_dims_items(next));
            }
        }
        i = i + 1;
    }
    s.append("]");
    assert(dims@.subrange(0, dims.len() as int) =~= dims@);
    s
}

impl ShapeMismatch {
    /// The explanation text of the error.
    pub open spec fn spec_message(self) -> Seq<char> {
        "Shape mismatch: expected "@ + spec_dims_text(self.expected@) + ", got "@ + spec_dims_text(
            self.got@,
        )
    }

    /// The explanation text of the error.
    pub fn message(&self) -> (s: String)
        ensures
            s@ == self.spec_message(),
    {
        let mut s = String::from_str("Shape mismatch: expected ");
        let a = dims_text(&self.expected);
        s.append(a.as_str());
        s.append(", got ");
        let b = dims_text(&self.got);
        s.append(b.as_str());
        s
    }
}

impl FlattenError {
    /// The explanation text of the error.
    pub open spec fn spec_message(self) -> Seq<char> {
        match self {
            FlattenError::TooFewDims => "Tensor must have at least 2 dimensions"@,
            FlattenError::NotScalarBuffer(dims) => "Scalar buffer must have 2 dimensions, got "@
                + spec_dims_text(dims@),
        }
    }

    /// The explanation text of the error.
    pub fn message(&self) -> (s: String)
        ensures
            s@ == self.spec_message(),
    {
        match self {
            FlattenError::TooFewDims => String::from_str("Tensor must have at least 2 dimensions"),
            FlattenError::NotScalarBuffer(dims) => {
                let mut s = String::from_str("Scalar buffer must have 2 dimensions, got ");
                let d = dims_text(dims);
                s.append(d.as_str());
                s
            },
        }
    }
}

/// Copies a shape.
fn copy_dims(dims: &Vec<usize>) -> (v: Vec<usize>)
    ensures
        v@ == dims@,
{
    let mut v: Vec<usize> = Vec::new();
    let mut i: usize = 0;
    while i < dims.len()
        invariant
            i <= dims.len(),
            v@ == dims@.subrange(0, i as int),
        decreases dims.len() - i,
    {
        v.push(dims[i]);
        i = i + 1;
    }
    assert(dims@.subrange(0, dims.len() as int) =~= dims@);
    v
}

/// The shape of one step of data from every environment: the number of
/// environments, then the per-environment shape.
pub fn step_shape(num_envs: usize, per_env: &Vec<usize>) -> (v: Vec<usize>)
    ensures
        v@ == seq![num_envs] + per_env@,
{
    let mut v: Vec<usize> = Vec::new();
    v.push(num_envs);
    let mut i: usize = 0;
    while i < per_env.len()
        invariant
            i <= per_env.len(),
            v@ == seq![num_envs] + per_env@.subrange(0, i as int),
        decreases per_env.len() - i,
    {
        v.push(per_env[i]);
        i = i + 1;
        assert(v@ =~= seq![num_envs] + per_env@.subrange(0, i as int));
    }
    assert(per_env@.subrange(0, per_env.len() as int) =~= per_env@);
    v
}

/// Accepts `got` exactly when it equals `expected`.
pub fn check_shape(expected: &Vec<usize>, got: &Vec<usize>) -> (r: Result<(), ShapeMismatch>)
    ensures
        r is Ok <==> expected@ == got@,
        r matches Err(m) ==> m.expected@ == expected@ && m.got@ == got@,
{
    let mut same = expected.len() == got.len();
    let mut i: usize = 0;
    while same && i < expected.len()
        invariant
            i <= expected.len(),
            same ==> expected.len() == got.len(),
            same ==> expected@.subrange(0, i as int) == got@.subrange(0, i as int),
            !same ==> expected@ != got@,
        decreases expected.len() - i,
    {
        if expected[i] != got[i] {
            same = false;
            assert(expected@[i as int] != got@[i as int]);
        } else {
            assert(expected@.subrange(0, i + 1) =~= got@.subrange(0, i + 1));
        }
        i = i + 1;
    }
    if same {
        assert(expected@ =~= expected@.subrange(0, expected.len() as int));
        assert(got@ =~= got@.subrange(0, got.len() as int));
        Ok(())
    } else {
        Err(ShapeMismatch { expected: copy_dims(expected), got: copy_dims(got) })
    }
}

/// The shape `[d0 * d1, d2, ...]` that merges the two leading dimensions.
pub open spec fn spec_flattened(dims: Seq<usize>) -> Seq<int> {
    seq![dims[0] * dims[1]] + dims.skip(2).map_values(|d: usize| d as int)
}

/// Merges the two leading dimensions; a shape with fewer than two
/// dimensions is refused.
pub fn flattened_shape(dims: &Vec<usize>) -> (r: Result<Vec<usize>, FlattenError>)
    requires
        dims.len() >= 2 ==> dims[0] * dims[1] <= usize::MAX,
    ensures
        dims.len() < 2 <==> r == Err::<Vec<usize>, FlattenError>(FlattenError::TooFewDims),
        r matches Ok(v) ==> v@.map_values(|d: usize| d as int) == spec_flattened(dims@),
{
    if dims.len() < 2 {
        return Err(FlattenError::TooFewDims);
    }
    let mut v: Vec<usize> = Vec::new();
    v.push(dims[0] * dims[1]);
    let mut i: usize = 2;
    while i < dims.len()
        invariant
            2 <= i <= dims.len(),
            v@.len() == i - 1,
            v@[0] == dims@[0] * dims@[1],
            forall|k: int| 1 <= k < v@.len() ==> v@[k] == dims@[k + 1],
        decreases dims.len() - i,
    {
        v.push(dims[i]);
        i = i + 1;
    }
    assert(v@.map_values(|d: usize| d as int) =~= spec_flattened(dims@));
    Ok(v)
}

/// Length of a `[steps, envs]` scalar buffer once flattened; any other
/// number of dimensions is refused.
pub fn flattened_scalar_len(dims: &Vec<usize>) -> (r: Result<usize, FlattenError>)
    requires
        dims.len() == 2 ==> dims[0] * dims[1] <= usize::MAX,
    ensures
        dims.len() == 2 <==> r is Ok,
        r matches Ok(n) ==> n == dims[0] * dims[1],
        r matches Err(e) ==> (e matches FlattenError::NotScalarBuffer(d) && d@ == dims@),
{
    if dims.len() != 2 {
        return Err(FlattenError::NotScalarBuffer(copy_dims(dims)));
    }
    Ok(dims[0] * dims[1])
}

/// A batch of per-action values must be a matrix `[batch, actions]`; any
/// other shape is refused with the placeholder expectation `[0, 0]`.
pub fn require_matrix(dims: &Vec<usize>) -> (r: Result<(), ShapeMismatch>)
    ensures
        r is Ok <==> dims.len() == 2,
        r matches Err(m) ==> m.expected@ == seq![0usize, 0usize] && m.got@ == dims@,
{
    if dims.len() == 2 {
        Ok(())
    } else {
        let mut expected: Vec<usize> = Vec::new();
        expected.push(0);
        expected.push(0);
        assert(expected@ =~= seq![0usize, 0usize]);
        Err(ShapeMismatch { expected, got: copy_dims(dims) })
    }
}

/// How a log standard deviation shared across a batch is laid out.
#[derive(Debug, Clone, Copy, PartialEq, Eq, Structural)]
pub enum StdLayout {
    /// One value per action dimension, `[action_dim]`: add a batch axis
    /// and broadcast.
    PerDimension,
    /// A single row `[1, action_dim]`: broadcast over the batch.
    SingleRow,
    /// Anything else is used as given.
    AsGiven,
}

/// The layout of a shared log standard deviation of shape `dims` for
/// actions of `action_dim` numbers.
pub open spec fn spec_std_layout(dims: Seq<usize>, action_dim: usize) -> StdLayout {
    if dims.len() == 1 {
        StdLayout::PerDimension
    } else if dims == seq![1usize, action_dim] {
        StdLayout::SingleRow
    } else {
        StdLayout::AsGiven
    }
}

/// Decides how a shared log standard deviation is broadcast.
pub fn std_layout(dims: &Vec<usize>, action_dim: usize) -> (l: StdLayout)
    ensures
        l == spec_std_layout(dims@, action_dim),
{
    if dims.len() == 1 {
        StdLayout::PerDimension
    } else if dims.len() == 2 && dims[0] == 1 && dims[1] == action_dim {
        assert(dims@ =~= seq![1usize, action_dim]);
        StdLayout::SingleRow
    } else {
        StdLayout::AsGiven
    }
}

/// Shape of `n_stack` stacked observations of shape `base`: a flat vector
/// of `n_stack * base[0]` numbers when `base` has one dimension, otherwise
/// a new leading axis of `n_stack`.
pub open spec fn spec_stacked_shape(base: Seq<usize>, n_stack: usize) -> Seq<int> {
    if base.len() == 1 {
        seq![n_stack * base[0]]
    } else {
        seq![n_stack as int] + base.map_values(|d: usize| d as int)
    }
}

/// The observation shape of a frame stack.
pub fn stacked_shape(base: &Vec<usize>, n_stack: usize) -> (v: Vec<usize>)
    requires
        base.len() == 1 ==> n_stack * base[0] <= usize::MAX,
    ensures
        v@.map_values(|d: usize| d as int) == spec_stacked_shape(base@, n_stack),
{
    if base.len() == 1 {
        let mut v: Vec<usize> = Vec::new();
        v.push(n_stack * base[0]);
        assert(v@.map_values(|d: usize| d as int) =~= spec_stacked_shape(base@, n_stack));
        v
    } else {
        let v = step_shape(n_stack, base);
        assert(v@.map_values(|d: usize| d as int) =~= spec_stacked_shape(base@, n_stack));
        v
    }
}

/// Number of elements of a tensor of shape `dims` (1 for no dimension).
pub open spec fn spec_shape_size(dims: Seq<usize>) -> nat
    decreases dims.len(),
{
    if dims.len() == 0 {
        1
    } else {
        spec_shape_size(dims.drop_last()) * (dims.last() as nat)
    }
}

/// Every running product of the dimensions, taken from the first one on,
/// fits in `usize`.
pub open spec fn products_fit(dims: Seq<usize>) -> bool {
    forall|i: int| 0 <= i <= dims.len() ==> #[trigger] spec_shape_size(dims.take(i)) <= usize::MAX
}

/// Number of elements of a tensor of shape `dims`, multiplying the
/// dimensions in order.
pub fn shape_size(dims: &Vec<usize>) -> (n: usize)
    requires
        products_fit(dims@),
    ensures
        n == spec_shape_size(dims@),
{
    let mut n: usize = 1;
    let mut i: usize = 0;
    assert(dims@.take(0) =~= Seq::<usize>::empty());
    while i < dims.len()
        invariant
            i <= dims.len(),
            products_fit(dims@),
            n == spec_shape_size(dims@.take(i as int)),
        decreases dims.len() - i,
    {
        assert(dims@.take(i + 1).drop_last() =~= dims@.take(i as int));
        assert(spec_shape_size(dims@.take(i + 1)) <= usize::MAX);
        n = n * dims[i];
        i = i + 1;
    }
    assert(dims@.take(dims.len() as int) =~= dims@);
    n
}

/// Why bounds do not describe a box of a given shape.
#[derive(Debug, Clone, PartialEq, Eq)]
pub enum BoxBoundsError {
    /// Lower and upper bounds differ in length.
    LengthMismatch,
    /// The bounds do not hold one number per element of the shape.
    ShapeMismatch {
        /// Numbers in each bound.
        len: usize,
        /// The shape.
        shape: Vec<usize>,
    },
}

impl BoxBoundsError {
    /// The explanation text of the error.
    pub open spec fn spec_message(self) -> Seq<char> {
        match self {
            BoxBoundsError::LengthMismatch => "Low and high bounds must have same length"@,
            BoxBoundsError::ShapeMismatch { len, shape } => "Bounds length "@ + spec_decimal(len as nat)
                + " doesn't match shape "@ + spec_dims_text(shape@),
        }
    }

    /// The explanation text of the error.
    pub fn message(&self) -> (s: String)
        ensures
            s@ == self.spec_message(),
    {
        match self {
            BoxBoundsError::LengthMismatch => String::from_str("Low and high bounds must have same length"),
            BoxBoundsError::ShapeMismatch { len, shape } => {
                let mut s = String::from_str("Bounds length ");
                let a = decimal_digits(*len as u128);
                s.append(a.as_str());
                s.append(" doesn't match shape ");
                let b = dims_text(shape);
                s.append(b.as_str());
                s
            },
        }
    }
}

/// Checks that lower and upper bounds of `low_len` and `high_len` numbers
/// describe a box of shape `shape`: equal lengths first, then one number
/// per element.
pub fn check_box_bounds(low_len: usize, high_len: usize, shape: &Vec<usize>) -> (r: Result<(), BoxBoundsError>)
    requires
        low_len == high_len ==> products_fit(shape@),
    ensures
        low_len != high_len ==> r == Err::<(), BoxBoundsError>(BoxBoundsError::LengthMismatch),
        low_len == high_len && low_len != spec_shape_size(shape@) ==> (r matches Err(BoxBoundsError::ShapeMismatch {
            len,
            shape: s,
        }) && len == low_len && s@ == shape@),
        r is Ok <==> (low_len == high_len && low_len == spec_shape_size(shape@)),
{
    if low_len != high_len {
        return Err(BoxBoundsError::LengthMismatch);
    }
    if low_len != shape_size(shape) {
        return Err(BoxBoundsError::ShapeMismatch { len: low_len, shape: copy_dims(shape) });
    }
    Ok(())
}

} // verus!
