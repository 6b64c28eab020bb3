//! Node numbering of the array-backed segment trees of prioritized replay:
//! `2 * capacity - 1` nodes, node 0 the root, the children of node `i` at
//! `2i + 1` and `2i + 2`, and leaf `k` at node `k + capacity - 1`.  The
//! priorities stored in the nodes stay outside the library.
use vstd::prelude::*;

verus! {

/// Node numbering of a segment tree over `capacity` leaves.
#[derive(Debug, Clone, Copy, PartialEq, Eq, Structural)]
pub struct TreeLayout {
    capacity: usize,
}

impl TreeLayout {
    /// Number of leaves.
    pub closed spec fn spec_capacity(&self) -> nat {
        self.capacity as nat
    }

    /// Number of nodes.
    pub open spec fn spec_node_count(&self) -> nat {
        (2 * self.spec_capacity() - 1) as nat
    }

    /// The node holds a leaf.
    pub open spec fn spec_is_leaf(&self, node: int) -> bool {
        self.spec_capacity() - 1 <= node < self.spec_node_count()
    }

    /// The node is an inner node.
    pub open spec fn spec_is_inner(&self, node: int) -> bool {
        0 <= node < self.spec_capacity() - 1
    }

    /// Well formed: at least one leaf, and the node count fits in `usize`.
    pub closed spec fn wf(&self) -> bool {
        self.capacity > 0 && 2 * self.capacity - 1 <= usize::MAX
    }

    /// The numbering of a tree over `capacity` leaves.
    pub fn new(capacity: usize) -> (t: Self)
        requires
            capacity > 0,
            2 * capacity - 1 <= usize::MAX,
        ensures
            t.wf(),
            t.spec_capacity() == capacity,
    {
        TreeLayout { capacity }
    }

    /// Number of leaves.
    pub fn capacity(&self) -> (c: usize)
        ensures
            c == self.spec_capacity(),
    {
        self.capacity
    }

    /// Number of nodes.
    pub fn node_count(&self) -> (n: usize)
        requires
            self.wf(),
        ensures
            n == self.spec_node_count(),
    {
        (self.capacity - 1) + self.capacity
    }

    /// The node of leaf `index`.
    pub fn leaf_node(&self, index: usize) -> (node: usize)
        requires
            self.wf(),
            index < self.spec_capacity(),
        ensures
            node == index + self.spec_capacity() - 1,
            self.spec_is_leaf(node as int),
    {
        index + self.capacity - 1
    }

    /// The leaf index of a leaf node.
    pub fn leaf_index(&self, node: usize) -> (index: usize)
        requires
            self.wf(),
            self.spec_is_leaf(node as int),
        ensures
            index == node - (self.spec_capacity() - 1),
            index < self.spec_capacity(),
    {
        node - (self.capacity - 1)
    }

    /// Whether the node is an inner node (a descent continues below it).
    pub fn is_inner(&self, node: usize) -> (b: bool)
        requires
            self.wf(),
        ensures
            b == self.spec_is_inner(node as int),
    {
        node < self.capacity - 1
    }

    /// The parent of a node other than the root.
    pub fn parent(&self, node: usize) -> (p: usize)
        requires
            self.wf(),
            0 < node < self.spec_node_count(),
        ensures
            p == (node - 1) / 2,
            p < node,
            self.spec_is_inner(p as int),
    {
        (node - 1) / 2
    }

    /// The children `(2i + 1, 2i + 2)` of an inner node, both nodes of the
    /// tree.
    pub fn children(&self, node: usize) -> (c: (usize, usize))
        requires
            self.wf(),
            self.spec_is_inner(node as int),
        ensures
            c.0 == 2 * node + 1,
            c.1 == 2 * node + 2,
            c.1 < self.spec_node_count(),
    {
        (2 * node + 1, 2 * node + 2)
    }
}

/// A descent from the root that turns left or right at each inner node
/// ends at a leaf: the node count of the tree bounds every step of it.
pub proof fn lemma_descent_stays_in_tree(t: TreeLayout, node: int, right: bool)
    requires
        t.wf(),
        t.spec_is_inner(node),
    ensures
        ({
            let child = if right { 2 * node + 2 } else { 2 * node + 1 };
            &&& node < child < t.spec_node_count()
            &&& t.spec_is_inner(child) || t.spec_is_leaf(child)
        }),
{
}

} // verus!
