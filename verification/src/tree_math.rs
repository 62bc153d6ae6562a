//! Arithmetic on the nodes of a full binary tree laid out in two arrays: the
//! leaves, counted from the left, and the parents, each standing between the
//! leaves of its left and of its right subtree.
//!
//! A parent with index `p` has `span(p)` leaves under each of its two
//! children: the greatest power of two that divides `p + 1`. The leaves under
//! it are those from `p + 1 - span(p)` up to, but not including,
//! `p + 1 + span(p)`.

use vstd::prelude::*;
use vstd::arithmetic::div_mod::lemma_fundamental_div_mod;
use vstd::arithmetic::div_mod::lemma_fundamental_div_mod_converse;
use vstd::arithmetic::div_mod::lemma_mod_bound;

verus! {

/// Index of a leaf, counted from the left.
#[derive(Clone, Copy, Debug, PartialEq, Eq, Structural)]
pub struct LeafNodeIndex(pub u32);

/// Index of a parent node, counted from the left.
#[derive(Clone, Copy, Debug, PartialEq, Eq, Structural)]
pub struct ParentNodeIndex(pub u32);

/// Index of a node of either kind.
#[derive(Clone, Copy, Debug, PartialEq, Eq, Structural)]
pub enum TreeNodeIndex {
    Leaf(LeafNodeIndex),
    Parent(ParentNodeIndex),
}

/// The size of a full tree, as its number of nodes.
#[derive(Clone, Copy, Debug, PartialEq, Eq, Structural)]
pub struct TreeSize(u32);

/// Whether `n` is a power of two.
pub open spec fn is_pow2(n: nat) -> bool
    decreases n,
{
    n == 1 || (n >= 2 && n % 2 == 0 && is_pow2(n / 2))
}

/// Two to the power `k`.
pub open spec fn pow2(k: nat) -> nat
    decreases k,
{
    if k == 0 {
        1
    } else {
        2 * pow2((k - 1) as nat)
    }
}

/// The logarithm to base two, rounded down; 0 for 0.
pub open spec fn log2(n: nat) -> nat
    decreases n,
{
    if n <= 1 {
        0
    } else {
        1 + log2(n / 2)
    }
}

/// The greatest power of two that divides `m`; 1 for 0.
pub open spec fn low_bit(m: nat) -> nat
    decreases m,
{
    if m == 0 || m % 2 == 1 {
        1
    } else {
        2 * low_bit(m / 2)
    }
}

/// The number of leaves under each child of the parent `p`.
pub open spec fn span(p: nat) -> nat {
    low_bit(p + 1)
}

/// Whether leaf `l` lies under the parent `p`.
pub open spec fn parent_covers(p: nat, l: nat) -> bool {
    p + 1 - span(p) <= l < p + 1 + span(p)
}

/// The parent above leaf `l` whose children have `f` leaves each.
pub open spec fn ancestor(l: nat, f: nat) -> nat {
    ((l / (2 * f)) * (2 * f) + f - 1) as nat
}

/// The parents above leaf `l` in a tree of `n` leaves, from the lowest to the
/// root.
pub open spec fn spec_direct_path(l: nat, n: nat) -> Seq<nat> {
    Seq::new(log2(n), |t: int| ancestor(l, pow2(t as nat)))
}

/// The numbers of parents.
pub open spec fn parent_indices(path: Seq<ParentNodeIndex>) -> Seq<nat> {
    Seq::new(path.len(), |t: int| path[t].0 as nat)
}

/// The left child of the parent `p`.
pub open spec fn spec_left(p: nat) -> TreeNodeIndex {
    if span(p) == 1 {
        TreeNodeIndex::Leaf(LeafNodeIndex(p as u32))
    } else {
        TreeNodeIndex::Parent(ParentNodeIndex((p - span(p) / 2) as u32))
    }
}

/// The right child of the parent `p`.
pub open spec fn spec_right(p: nat) -> TreeNodeIndex {
    if span(p) == 1 {
        TreeNodeIndex::Leaf(LeafNodeIndex((p + 1) as u32))
    } else {
        TreeNodeIndex::Parent(ParentNodeIndex((p + span(p) / 2) as u32))
    }
}

/// The root of a tree of `n` leaves.
pub open spec fn spec_root(n: nat) -> TreeNodeIndex {
    if n <= 1 {
        TreeNodeIndex::Leaf(LeafNodeIndex(0))
    } else {
        TreeNodeIndex::Parent(ParentNodeIndex((n / 2 - 1) as u32))
    }
}

/// Powers of two are powers of two.
pub proof fn lemma_pow2_is_pow2(k: nat)
    ensures
        is_pow2(pow2(k)),
        pow2(k) >= 1,
    decreases k,
{
    if k > 0 {
        lemma_pow2_is_pow2((k - 1) as nat);
    }
}

/// A power of two is two to the power of its logarithm.
pub proof fn lemma_pow2_log2(n: nat)
    requires
        is_pow2(n),
    ensures
        pow2(log2(n)) == n,
    decreases n,
{
    if n >= 2 {
        lemma_pow2_log2(n / 2);
    }
}

/// A power of two that is at most half of another has a lesser logarithm.
pub proof fn lemma_log2_below(f: nat, n: nat)
    requires
        is_pow2(f),
        is_pow2(n),
        2 * f <= n,
    ensures
        log2(f) < log2(n),
    decreases f,
{
    if f >= 2 {
        lemma_log2_below(f / 2, n / 2);
    }
}

/// The greatest power of two that divides a positive number is a power of
/// two, and is no greater than the number.
pub proof fn lemma_low_bit_is_pow2(m: nat)
    requires
        m >= 1,
    ensures
        is_pow2(low_bit(m)),
        1 <= low_bit(m) <= m,
    decreases m,
{
    if m % 2 == 0 {
        lemma_low_bit_is_pow2(m / 2);
        assert(low_bit(m) / 2 == low_bit(m / 2));
    }
}

/// A positive number is an odd multiple of the greatest power of two that
/// divides it.
pub proof fn lemma_low_bit_factor(m: nat) -> (q: nat)
    requires
        m >= 1,
    ensures
        m == low_bit(m) * q,
        q % 2 == 1,
    decreases m,
{
    if m % 2 == 1 {
        assert(m == 1 * m) by (nonlinear_arith);
        m
    } else {
        let q = lemma_low_bit_factor(m / 2);
        assert(m == (2 * low_bit(m / 2)) * q) by (nonlinear_arith)
            requires
                m % 2 == 0,
                m / 2 == low_bit(m / 2) * q,
        ;
        q
    }
}

/// The greatest power of two that divides an odd multiple of a power of two
/// is that power of two.
pub proof fn lemma_low_bit_odd_multiple(g: nat, q: nat)
    requires
        is_pow2(g),
        q % 2 == 1,
    ensures
        low_bit(g * q) == g,
    decreases g,
{
    if g == 1 {
        assert(g * q == q) by (nonlinear_arith)
            requires
                g == 1,
        ;
    } else {
        let h = g / 2;
        lemma_low_bit_odd_multiple(h, q);
        assert(g * q == 2 * (h * q)) by (nonlinear_arith)
            requires
                g == 2 * h,
        ;
        assert(h * q >= 1) by (nonlinear_arith)
            requires
                h >= 1,
                q >= 1,
        ;
        assert((g * q) % 2 == 0);
        assert((g * q) / 2 == h * q);
    }
}

/// The leaves under the parent above leaf `l` include `l`.
pub proof fn lemma_ancestor_covers(l: nat, f: nat)
    requires
        f >= 1,
    ensures
        ancestor(l, f) + 1 - f <= l < ancestor(l, f) + 1 + f,
        ancestor(l, f) == (l / (2 * f)) * (2 * f) + f - 1,
{
    let w = (2 * f) as int;
    lemma_fundamental_div_mod(l as int, w);
    lemma_mod_bound(l as int, w);
    assert((l as int / w) * w == w * (l as int / w)) by (nonlinear_arith);
    assert((l as int / w) * w >= 0) by (nonlinear_arith)
        requires
            l as int / w >= 0,
            w > 0,
    ;
    assert(l as int / w >= 0) by (nonlinear_arith)
        requires
            l >= 0,
            w > 0,
    ;
}

/// The parent above leaf `l` whose children have `f` leaves each has that
/// span.
pub proof fn lemma_span_of_ancestor(l: nat, f: nat)
    requires
        is_pow2(f),
    ensures
        span(ancestor(l, f)) == f,
        parent_covers(ancestor(l, f), l),
{
    lemma_ancestor_covers(l, f);
    let j = l / (2 * f);
    assert(ancestor(l, f) + 1 == f * (2 * j + 1)) by (nonlinear_arith)
        requires
            ancestor(l, f) == j * (2 * f) + f - 1,
    ;
    lemma_low_bit_odd_multiple(f, 2 * j + 1);
}

/// A parent under which leaf `l` lies is the parent above `l` with its span.
pub proof fn lemma_ancestor_unique(p: nat, l: nat)
    requires
        parent_covers(p, l),
    ensures
        ancestor(l, span(p)) == p,
{
    let f = span(p);
    lemma_low_bit_is_pow2(p + 1);
    let q = lemma_low_bit_factor(p + 1);
    let j = (q / 2) as int;
    assert(q == 2 * j + 1);
    let w = (2 * f) as int;
    let r = l as int - (p + 1 - f);
    assert(p + 1 - f == j * w) by (nonlinear_arith)
        requires
            p + 1 == f * q,
            q == 2 * j + 1,
            w == 2 * f,
    ;
    assert(l as int == j * w + r);
    assert(0 <= r < w);
    lemma_fundamental_div_mod_converse(l as int, w, j, r);
    assert(l as int / w == j);
}

/// The children of a parent with a span of two or more are parents with
/// half its span, and the leaves under it are shared out between them.
pub proof fn lemma_children_spans(p: nat)
    requires
        span(p) >= 2,
    ensures
        span(p) % 2 == 0,
        p >= span(p) / 2,
        span((p - span(p) / 2) as nat) == span(p) / 2,
        span(p + span(p) / 2) == span(p) / 2,
{
    let f = span(p);
    lemma_low_bit_is_pow2(p + 1);
    let q = lemma_low_bit_factor(p + 1);
    let h = f / 2;
    assert(is_pow2(h));
    assert(q >= 1);
    assert(p + 1 - h == h * (2 * q - 1)) by (nonlinear_arith)
        requires
            p + 1 == f * q,
            f == 2 * h,
    ;
    assert(p + 1 + h == h * (2 * q + 1)) by (nonlinear_arith)
        requires
            p + 1 == f * q,
            f == 2 * h,
    ;
    assert(h * (2 * q - 1) >= h) by (nonlinear_arith)
        requires
            h >= 1,
            q >= 1,
    ;
    lemma_low_bit_odd_multiple(h, (2 * q - 1) as nat);
    lemma_low_bit_odd_multiple(h, 2 * q + 1);
    assert(((p - h) as nat) + 1 == h * ((2 * q - 1) as nat));
    assert((p + h) + 1 == h * (2 * q + 1));
}

impl LeafNodeIndex {
    /// The index of the leaf at position `index`.
    pub fn new(index: u32) -> (i: Self)
        ensures
            i.0 == index,
    {
        LeafNodeIndex(index)
    }

    /// The position of the leaf.
    pub fn u32(&self) -> (i: u32)
        ensures
            i == self.0,
    {
        self.0
    }

    /// The position of the leaf.
    pub fn usize(&self) -> (i: usize)
        ensures
            i == self.0,
    {
        self.0 as usize
    }
}

impl ParentNodeIndex {
    /// The index of the parent at position `index`.
    pub fn new(index: u32) -> (i: Self)
        ensures
            i.0 == index,
    {
        ParentNodeIndex(index)
    }

    /// The position of the parent.
    pub fn u32(&self) -> (i: u32)
        ensures
            i == self.0,
    {
        self.0
    }

    /// The position of the parent.
    pub fn usize(&self) -> (i: usize)
        ensures
            i == self.0,
    {
        self.0 as usize
    }
}

/// The greatest number of leaves of a tree whose nodes a `u32` can count.
pub const MAX_LEAF_COUNT: u32 = 0x8000_0000;

impl TreeSize {
    /// The number of leaves of a tree of this size.
    pub closed spec fn spec_leaf_count(self) -> nat {
        (self.0 / 2 + 1) as nat
    }

    /// Trees are full: their number of leaves is a power of two.
    pub closed spec fn wf(self) -> bool {
        &&& self.0 % 2 == 1
        &&& is_pow2(self.spec_leaf_count())
    }

    /// What a well-formed size holds.
    pub proof fn lemma_wf(self)
        requires
            self.wf(),
        ensures
            is_pow2(self.spec_leaf_count()),
            1 <= self.spec_leaf_count() <= MAX_LEAF_COUNT,
    {
    }

    /// The size of the least full tree with `leaf_count` leaves or more, and
    /// with one leaf at least. `None` where its nodes are too many to count.
    pub fn from_leaf_count(leaf_count: u32) -> (r: Option<Self>)
        ensures
            r is Some == (leaf_count <= MAX_LEAF_COUNT),
            r matches Some(size) ==> size.wf() && size.spec_leaf_count() >= leaf_count && (leaf_count
                >= 1 ==> size.spec_leaf_count() < 2 * leaf_count),
    {
        if leaf_count > MAX_LEAF_COUNT {
            return None;
        }
        let mut n: u32 = 1;
        while n < leaf_count
            invariant
                is_pow2(n as nat),
                1 <= n <= MAX_LEAF_COUNT,
                leaf_count <= MAX_LEAF_COUNT,
                n == 1 || n < 2 * leaf_count,
            decreases MAX_LEAF_COUNT - n,
        {
            assert(n < MAX_LEAF_COUNT);
            assert(n as nat <= 0x4000_0000) by {
                lemma_max_leaf_count_is_pow2();
                lemma_pow2_below(n as nat, MAX_LEAF_COUNT as nat);
            }
            n = n * 2;
            assert(is_pow2(n as nat)) by {
                assert((n as nat) / 2 == (n / 2) as nat);
            }
        }
        let size = TreeSize(n - 1 + n);
        assert(size.0 / 2 + 1 == n);
        Some(size)
    }

    /// The number of leaves.
    pub fn leaf_count(&self) -> (n: u32)
        requires
            self.wf(),
        ensures
            n == self.spec_leaf_count(),
            is_pow2(n as nat),
            1 <= n <= MAX_LEAF_COUNT,
    {
        (self.0 / 2) + 1
    }

    /// The number of parents: one less than the number of leaves.
    pub fn parent_count(&self) -> (n: u32)
        requires
            self.wf(),
        ensures
            n == self.spec_leaf_count() - 1,
    {
        self.0 / 2
    }

    /// The number of nodes.
    pub fn u32(&self) -> (n: u32)
        requires
            self.wf(),
        ensures
            n == 2 * self.spec_leaf_count() - 1,
    {
        self.0
    }
}

/// A power of two below another is at most half of it.
pub proof fn lemma_pow2_below(n: nat, b: nat)
    requires
        is_pow2(n),
        is_pow2(b),
        n < b,
    ensures
        2 * n <= b,
    decreases b,
{
    if n > 1 {
        lemma_pow2_below(n / 2, b / 2);
    }
}

/// The greatest number of leaves is a power of two.
pub proof fn lemma_max_leaf_count_is_pow2()
    ensures
        is_pow2(MAX_LEAF_COUNT as nat),
{
    reveal_with_fuel(is_pow2, 33);
}

/// The greatest power of two that divides `m`.
fn low_bit_of(m: u32) -> (f: u32)
    requires
        m >= 1,
    ensures
        f == low_bit(m as nat),
{
    let mut f: u32 = 1;
    let mut rest: u32 = m;
    while rest % 2 == 0
        invariant
            rest >= 1,
            f >= 1,
            f as nat * low_bit(rest as nat) == low_bit(m as nat),
            f as nat * rest as nat <= m,
        decreases rest,
    {
        proof {
            let lb = low_bit((rest / 2) as nat);
            assert(f as nat * (2 * lb) == (2 * f as nat) * lb) by (nonlinear_arith);
            assert(f as nat * rest as nat == (2 * f as nat) * ((rest / 2) as nat)) by (nonlinear_arith)
                requires
                    rest % 2 == 0,
            ;
            assert((2 * f as nat) * ((rest / 2) as nat) >= 2 * f as nat) by (nonlinear_arith)
                requires
                    rest / 2 >= 1,
            ;
        }
        rest = rest / 2;
        f = f * 2;
    }
    assert(f as nat * 1 == f as nat) by (nonlinear_arith);
    f
}

/// The root of a tree.
pub fn root(size: TreeSize) -> (r: TreeNodeIndex)
    requires
        size.wf(),
    ensures
        r == spec_root(size.spec_leaf_count()),
        r matches TreeNodeIndex::Parent(p) ==> span(p.0 as nat) == size.spec_leaf_count() / 2,
{
    let n: u32 = size.leaf_count();
    if n == 1 {
        TreeNodeIndex::Leaf(LeafNodeIndex(0))
    } else {
        proof {
            assert(is_pow2((n / 2) as nat));
            lemma_low_bit_odd_multiple((n / 2) as nat, 1);
            assert(((n / 2) as nat) * 1 == (n / 2) as nat) by (nonlinear_arith);
        }
        TreeNodeIndex::Parent(ParentNodeIndex(n / 2 - 1))
    }
}

/// The left child of a parent.
pub fn left(index: ParentNodeIndex) -> (r: TreeNodeIndex)
    requires
        index.0 < MAX_LEAF_COUNT - 1,
    ensures
        r == spec_left(index.0 as nat),
{
    let f: u32 = low_bit_of(index.0 + 1);
    proof {
        lemma_low_bit_is_pow2((index.0 + 1) as nat);
        if f >= 2 {
            lemma_children_spans(index.0 as nat);
        }
    }
    if f == 1 {
        TreeNodeIndex::Leaf(LeafNodeIndex(index.0))
    } else {
        TreeNodeIndex::Parent(ParentNodeIndex(index.0 - f / 2))
    }
}

/// The right child of a parent.
pub fn right(index: ParentNodeIndex) -> (r: TreeNodeIndex)
    requires
        index.0 < MAX_LEAF_COUNT - 1,
    ensures
        r == spec_right(index.0 as nat),
{
    let f: u32 = low_bit_of(index.0 + 1);
    proof {
        lemma_low_bit_is_pow2((index.0 + 1) as nat);
    }
    if f == 1 {
        TreeNodeIndex::Leaf(LeafNodeIndex(index.0 + 1))
    } else {
        TreeNodeIndex::Parent(ParentNodeIndex(index.0 + f / 2))
    }
}

/// The parents above a leaf, from the lowest to the root.
pub fn direct_path(node_index: LeafNodeIndex, size: TreeSize) -> (path: Vec<ParentNodeIndex>)
    requires
        size.wf(),
        node_index.0 < size.spec_leaf_count(),
    ensures
        parent_indices(path@) == spec_direct_path(node_index.0 as nat, size.spec_leaf_count()),
        path@.len() == log2(size.spec_leaf_count()),
        forall|t: int| 0 <= t < path@.len() ==> (#[trigger] path@[t]).0 == ancestor(node_index.0 as nat, pow2(t as nat)),
        forall|t: int| 0 <= t < path@.len() ==> (#[trigger] path@[t]).0 < size.spec_leaf_count() - 1,
        forall|t: int| 0 <= t < path@.len() ==> 2 * #[trigger] pow2(t as nat) <= size.spec_leaf_count(),
{
    let n: u32 = size.leaf_count();
    let l: u32 = node_index.0;
    let mut path: Vec<ParentNodeIndex> = Vec::new();
    let mut f: u32 = 1;
    let ghost mut rest: nat = n as nat;
    assert(f as nat * rest == n) by (nonlinear_arith)
        requires
            f == 1,
            rest == n,
    ;
    while f < n
        invariant
            n == size.spec_leaf_count(),
            is_pow2(n as nat),
            n <= MAX_LEAF_COUNT,
            l < n,
            l == node_index.0,
            1 <= f <= n,
            f == pow2(path@.len()),
            is_pow2(rest),
            f as nat * rest == n,
            path@.len() + log2(rest) == log2(n as nat),
            forall|t: int| 0 <= t < path@.len() ==> (#[trigger] path@[t]).0 == ancestor(l as nat, pow2(t as nat)),
            forall|t: int| 0 <= t < path@.len() ==> (#[trigger] path@[t]).0 < n - 1,
            forall|t: int| 0 <= t < path@.len() ==> 2 * #[trigger] pow2(t as nat) <= n,
        decreases n - f,
    {
        proof {
            assert(rest >= 2) by (nonlinear_arith)
                requires
                    f as nat * rest == n,
                    f < n,
                    f >= 1,
            ;
            assert(2 * f as nat * (rest / 2) == n) by (nonlinear_arith)
                requires
                    f as nat * rest == n,
                    rest % 2 == 0,
            ;
            assert(2 * f as nat <= n) by (nonlinear_arith)
                requires
                    2 * f as nat * (rest / 2) == n,
                    rest / 2 >= 1,
            ;
            lemma_ancestor_covers(l as nat, f as nat);
        }
        let width: u32 = f * 2;
        let block: u32 = l / width;
        proof {
            assert(block as nat * width as nat <= l) by {
                lemma_fundamental_div_mod(l as int, width as int);
                lemma_mod_bound(l as int, width as int);
                assert(block as nat * width as nat == width as int * (l as int / width as int)) by (nonlinear_arith)
                    requires
                        block == l as int / width as int,
                ;
            }
            // the block of `l` ends within the tree, for the tree is made of
            // whole blocks of this width
            assert(block as nat * width as nat + width <= n) by {
                let m = rest / 2;
                assert(n == width as nat * m);
                assert(block < m) by (nonlinear_arith)
                    requires
                        block as nat * width as nat <= l,
                        l < n,
                        n == width as nat * m,
                        width >= 1,
                ;
                assert(block as nat * width as nat + width <= width as nat * m) by (nonlinear_arith)
                    requires
                        block < m,
                        width >= 1,
                ;
            }
        }
        let p: u32 = block * width + f - 1;
        path.push(ParentNodeIndex(p));
        f = width;
        proof {
            rest = rest / 2;
        }
    }
    proof {
        assert(rest == 1) by (nonlinear_arith)
            requires
                f as nat * rest == n,
                f >= n,
                rest >= 1,
                n >= 1,
        ;
        assert(parent_indices(path@) =~= spec_direct_path(l as nat, n as nat));
    }
    path
}

} // verus!
