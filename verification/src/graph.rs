//! Utilities for dealing with graphs whose nodes can compute their own
//! parents.
//!
//! Unlike the bitset engine in [`crate::enum_graph`], nothing here needs a
//! pre-built edge list or a 64-slot bound: a node type describes its
//! hierarchy by producing parent values on demand, and the traversals below
//! discover the node set by walking from the query roots, guarding against
//! cycles with a visited list.

use vstd::prelude::*;
use vstd::seq_lib::seq_to_set_is_finite;

verus! {

/// Trait for types that represent nodes in a directed graph, where each node
/// can compute its parents.  Parents are produced by value and not by
/// reference, so nodes are `Copy`; the trait is mainly intended for graphs
/// that are known statically at compile time.  The node domain is finite
/// (listed by `node_domain`), which is what guarantees that the traversals
/// terminate even on cyclic hierarchies.
pub trait ParentFindingDigraphNode: Sized + Copy {
    /// Lists every value of the node type.
    spec fn node_domain() -> Seq<Self>;

    /// The set of direct parents of this node, as the traversals see it.
    spec fn spec_parents(self) -> Set<Self>;

    /// Every node value occurs in the domain.
    proof fn lemma_in_domain(self)
        ensures
            Self::node_domain().contains(self),
    ;

    /// Decides equality of two nodes.
    fn eq_node(&self, other: &Self) -> (r: bool)
        ensures
            r == (*self == *other),
    ;

    /// Gets the set of parents of this node.  Root nodes return an empty
    /// vector.
    fn parents(&self) -> (r: Vec<Self>)
        ensures
            r@.to_set() == self.spec_parents(),
    ;
}

/// True if each consecutive pair of `c` is a child-parent link.
pub open spec fn is_parent_chain<T: ParentFindingDigraphNode>(c: Seq<T>) -> bool {
    forall|i: int| 0 < i < c.len() ==> #[trigger] c[i - 1].spec_parents().contains(c[i])
}

/// True if `b` is `a` itself or one of `a`'s (transitive) ancestors.
pub open spec fn is_ancestor_of<T: ParentFindingDigraphNode>(a: T, b: T) -> bool {
    exists|c: Seq<T>|
        #[trigger] is_parent_chain(c) && c.len() >= 1 && c.first() == a && c.last() == b
}

/// Every node is an ancestor of itself.
pub proof fn lemma_ancestor_self<T: ParentFindingDigraphNode>(a: T)
    ensures
        is_ancestor_of(a, a),
{
    let c = seq![a];
    assert(is_parent_chain(c));
    assert(c.first() == a && c.last() == a);
}

/// An ancestor chain can be extended along one more parent link.
pub proof fn lemma_ancestor_step<T: ParentFindingDigraphNode>(a: T, b: T, c: T)
    requires
        is_ancestor_of(a, b),
        b.spec_parents().contains(c),
    ensures
        is_ancestor_of(a, c),
{
    let ch = choose|ch: Seq<T>|
        #[trigger] is_parent_chain(ch) && ch.len() >= 1 && ch.first() == a && ch.last() == b;
    let ch2 = ch.push(c);
    assert forall|i: int| 0 < i < ch2.len() implies #[trigger] ch2[i - 1].spec_parents().contains(
        ch2[i],
    ) by {
        if i < ch.len() {
            assert(ch[i - 1].spec_parents().contains(ch[i]));
        } else {
            assert(ch2[i - 1] == ch.last() && ch2[i] == c);
        }
    }
    assert(is_parent_chain(ch2));
    assert(ch2.first() == a && ch2.last() == c);
}

/// Extracts one link of a parent chain.
proof fn lemma_parent_chain_edge<T: ParentFindingDigraphNode>(c: Seq<T>, i: int)
    requires
        is_parent_chain(c),
        0 < i < c.len(),
    ensures
        c[i - 1].spec_parents().contains(c[i]),
{
}

/// A set that contains `from` and is closed under taking parents contains
/// every ancestor of `from`.
pub proof fn lemma_closed_set_ancestors<T: ParentFindingDigraphNode>(s: Set<T>, from: T, to: T)
    requires
        s.contains(from),
        forall|x: T, y: T| s.contains(x) && #[trigger] x.spec_parents().contains(y) ==> s.contains(
            y,
        ),
        is_ancestor_of(from, to),
    ensures
        s.contains(to),
{
    let c = choose|c: Seq<T>|
        #[trigger] is_parent_chain(c) && c.len() >= 1 && c.first() == from && c.last() == to;
    lemma_parent_chain_in_closed_set(s, c);
}

proof fn lemma_parent_chain_in_closed_set<T: ParentFindingDigraphNode>(s: Set<T>, c: Seq<T>)
    requires
        c.len() >= 1,
        is_parent_chain(c),
        s.contains(c.first()),
        forall|x: T, y: T| s.contains(x) && #[trigger] x.spec_parents().contains(y) ==> s.contains(
            y,
        ),
    ensures
        s.contains(c.last()),
    decreases c.len(),
{
    if c.len() > 1 {
        let c2 = c.drop_last();
        assert(is_parent_chain(c2)) by {
            assert forall|i: int| 0 < i < c2.len() implies #[trigger] c2[i - 1].spec_parents()
                .contains(c2[i]) by {
                assert(c[i - 1].spec_parents().contains(c[i]));
            }
        }
        lemma_parent_chain_in_closed_set(s, c2);
        lemma_parent_chain_edge(c, c.len() - 1);
    }
}

/// A duplicate-free sequence of nodes is no longer than the node domain.
proof fn lemma_distinct_nodes_bound<T: ParentFindingDigraphNode>(s: Seq<T>)
    requires
        s.no_duplicates(),
    ensures
        s.len() <= T::node_domain().len(),
{
    broadcast use seq_to_set_is_finite;

    s.unique_seq_to_set();
    assert forall|x: T| s.to_set().contains(x) implies T::node_domain().to_set().contains(x) by {
        x.lemma_in_domain();
    }
    vstd::set_lib::lemma_len_subset(s.to_set(), T::node_domain().to_set());
    T::node_domain().lemma_cardinality_of_set();
}

/// Pushing a fresh element keeps a sequence duplicate-free.
proof fn lemma_push_distinct<T>(s: Seq<T>, x: T)
    requires
        s.no_duplicates(),
        !s.contains(x),
    ensures
        s.push(x).no_duplicates(),
{
    let s2 = s.push(x);
    assert forall|i: int, j: int| 0 <= i < s2.len() && 0 <= j < s2.len() && i != j implies s2[i]
        != s2[j] by {
        if i < s.len() && j < s.len() {
            assert(s[i] != s[j]);
        } else if j == s.len() && i < s.len() {
            assert(s2[j] == x);
            if s[i] == x {
                assert(s.contains(x));
            }
        } else if i == s.len() && j < s.len() {
            assert(s2[i] == x);
            if s[j] == x {
                assert(s.contains(x));
            }
        }
    }
}

/// An element of a sequence is still there after a push.
proof fn lemma_push_contains<T>(s: Seq<T>, v: T, x: T)
    requires
        s.contains(x),
    ensures
        s.push(v).contains(x),
{
    let k = choose|k: int| 0 <= k < s.len() && s[k] == x;
    assert(s.push(v)[k] == x);
}

/// After removing the last element, a contained element either remains or was
/// the removed one.
proof fn lemma_pop_contains<T>(s: Seq<T>, x: T)
    requires
        s.len() >= 1,
        s.contains(x),
    ensures
        s.subrange(0, s.len() - 1).contains(x) || s[s.len() - 1] == x,
{
    let k = choose|k: int| 0 <= k < s.len() && s[k] == x;
    if k < s.len() - 1 {
        assert(s.subrange(0, s.len() - 1)[k] == x);
    }
}

/// Tests whether `x` occurs in `v`.
fn vec_contains_node<T: ParentFindingDigraphNode>(v: &Vec<T>, x: &T) -> (r: bool)
    ensures
        r == v@.contains(*x),
{
    let mut i: usize = 0;
    while i < v.len()
        invariant
            i <= v@.len(),
            forall|k: int| 0 <= k < i ==> v@[k] != *x,
        decreases v@.len() - i,
    {
        let e = v[i];
        if e.eq_node(x) {
            proof {
                assert(v@[i as int] == *x);
            }
            return true;
        }
        i += 1;
    }
    false
}

/// Gets the set containing this node and all its ancestors, as a
/// duplicate-free vector.  The traversal is a depth-first search with an
/// explicit stack and a visited list, so it tolerates cycles (including a
/// node that is its own parent) without non-termination.
#[verifier::loop_isolation(false)]
pub fn ancestors_and_self<T: ParentFindingDigraphNode>(start: &T) -> (r: Vec<T>)
    ensures
        r@.no_duplicates(),
        forall|b: T| #[trigger] r@.contains(b) == is_ancestor_of(*start, b),
{
    let mut out: Vec<T> = Vec::new();
    let mut stack: Vec<T> = Vec::new();
    stack.push(*start);
    proof {
        lemma_ancestor_self(*start);
        assert(stack@[0] == *start);
        assert(stack@.contains(*start));
    }
    while stack.len() != 0
        invariant
            out@.no_duplicates(),
            out@.len() <= T::node_domain().len(),
            forall|b: T| #[trigger] out@.contains(b) ==> is_ancestor_of(*start, b),
            forall|k: int| 0 <= k < stack@.len() ==> is_ancestor_of(*start, #[trigger] stack@[k]),
            out@.contains(*start) || stack@.contains(*start),
            forall|x: T, y: T|
                out@.contains(x) && #[trigger] x.spec_parents().contains(y) ==> out@.contains(y)
                    || stack@.contains(y),
        decreases T::node_domain().len() - out@.len(), stack@.len(),
    {
        let ghost old_stack = stack@;
        let node = stack.pop().unwrap();
        proof {
            assert(node == old_stack[old_stack.len() - 1]);
            assert(is_ancestor_of(*start, node));
            assert(stack@ == old_stack.subrange(0, old_stack.len() - 1));
            assert forall|y: T| old_stack.contains(y) implies out@.contains(y) || stack@.contains(y)
                || y == node by {
                lemma_pop_contains(old_stack, y);
            }
        }
        if !vec_contains_node(&out, &node) {
            let ghost pre_out = out@;
            out.push(node);
            proof {
                lemma_push_distinct(pre_out, node);
                lemma_distinct_nodes_bound::<T>(out@);
                assert(out@[out@.len() - 1] == node);
                assert(out@.contains(node));
                assert forall|y: T| pre_out.contains(y) implies out@.contains(y) by {
                    lemma_push_contains(pre_out, node, y);
                }
                assert forall|y: T| #[trigger] out@.contains(y) implies pre_out.contains(y) || y
                    == node by {
                    let n = choose|n: int| 0 <= n < out@.len() && out@[n] == y;
                    if n < pre_out.len() {
                        assert(pre_out[n] == y);
                    }
                }
            }
            let parents = node.parents();
            let mut j: usize = 0;
            while j < parents.len()
                invariant
                    j <= parents@.len(),
                    parents@.to_set() == node.spec_parents(),
                    is_ancestor_of(*start, node),
                    out@.contains(node),
                    forall|k: int|
                        0 <= k < stack@.len() ==> is_ancestor_of(*start, #[trigger] stack@[k]),
                    out@.contains(*start) || stack@.contains(*start),
                    forall|k: int|
                        0 <= k < j ==> out@.contains(#[trigger] parents@[k]) || stack@.contains(
                            parents@[k],
                        ),
                    forall|x: T, y: T|
                        out@.contains(x) && x != node && #[trigger] x.spec_parents().contains(y)
                            ==> out@.contains(y) || stack@.contains(y),
                decreases parents@.len() - j,
            {
                let p = parents[j];
                let ghost pre = stack@;
                proof {
                    assert(parents@[j as int] == p);
                    assert(parents@.contains(p));
                    assert(parents@.to_set().contains(p));
                    lemma_ancestor_step(*start, node, p);
                }
                stack.push(p);
                proof {
                    assert(stack@[stack@.len() - 1] == p);
                    assert forall|y: T| pre.contains(y) implies stack@.contains(y) by {
                        lemma_push_contains(pre, p, y);
                    }
                }
                j += 1;
            }
            proof {
                assert forall|x: T, y: T|
                    out@.contains(x) && #[trigger] x.spec_parents().contains(y) implies out@
                    .contains(y) || stack@.contains(y) by {
                    if x == node {
                        assert(parents@.to_set().contains(y));
                        assert(parents@.contains(y));
                        let k = choose|k: int| 0 <= k < parents@.len() && parents@[k] == y;
                        assert(out@.contains(parents@[k]) || stack@.contains(parents@[k]));
                    }
                }
            }
        }
    }
    proof {
        let s = out@.to_set();
        assert(s.contains(*start));
        assert forall|x: T, y: T| s.contains(x) && #[trigger] x.spec_parents().contains(y) implies s
            .contains(y) by {
            assert(out@.contains(x));
        }
        assert forall|b: T| #[trigger] out@.contains(b) == is_ancestor_of(*start, b) by {
            if is_ancestor_of(*start, b) {
                lemma_closed_set_ancestors(s, *start, b);
                assert(s.contains(b));
            }
        }
    }
    out
}

/// Gets the set containing the provided nodes and all their ancestors, as a
/// duplicate-free vector.  If `children` is empty, the result is empty.
/// Duplicate or overlapping starting nodes contribute each ancestor only
/// once.
#[verifier::loop_isolation(false)]
pub fn ancestors_and_self_multiple<T: ParentFindingDigraphNode>(children: &Vec<T>) -> (r: Vec<T>)
    ensures
        r@.no_duplicates(),
        forall|b: T|
            #[trigger] r@.contains(b) == exists|k: int|
                0 <= k < children@.len() && is_ancestor_of(#[trigger] children@[k], b),
{
    let mut out: Vec<T> = Vec::new();
    let mut i: usize = 0;
    while i < children.len()
        invariant
            i <= children@.len(),
            out@.no_duplicates(),
            forall|b: T|
                #[trigger] out@.contains(b) == exists|k: int|
                    0 <= k < i && is_ancestor_of(#[trigger] children@[k], b),
        decreases children@.len() - i,
    {
        let child = children[i];
        let anc = ancestors_and_self(&child);
        let ghost pre_i: int = i as int;
        let mut j: usize = 0;
        while j < anc.len()
            invariant
                j <= anc@.len(),
                children@[pre_i] == child,
                0 <= pre_i < children@.len(),
                forall|b: T| #[trigger] anc@.contains(b) == is_ancestor_of(child, b),
                out@.no_duplicates(),
                forall|b: T|
                    #[trigger] out@.contains(b) == ((exists|k: int|
                        0 <= k < pre_i && is_ancestor_of(#[trigger] children@[k], b)) || (exists|
                        m: int,
                    |
                        0 <= m < j && anc@[m] == b)),
            decreases anc@.len() - j,
        {
            let e = anc[j];
            proof {
                assert(anc@[j as int] == e);
                assert(anc@.contains(e));
            }
            let ghost pre_out = out@;
            if !vec_contains_node(&out, &e) {
                out.push(e);
                proof {
                    lemma_push_distinct(pre_out, e);
                    assert(out@[out@.len() - 1] == e);
                    assert forall|b: T| pre_out.contains(b) implies out@.contains(b) by {
                        lemma_push_contains(pre_out, e, b);
                    }
                    assert forall|b: T| #[trigger] out@.contains(b) implies pre_out.contains(b)
                        || b == e by {
                        let n = choose|n: int| 0 <= n < out@.len() && out@[n] == b;
                        if n < pre_out.len() {
                            assert(pre_out[n] == b);
                        }
                    }
                }
            }
            proof {
                assert(out@.contains(e));
                assert(forall|b: T| pre_out.contains(b) ==> out@.contains(b));
                assert(forall|b: T| #[trigger] out@.contains(b) ==> pre_out.contains(b) || b == e);
                assert forall|b: T|
                    #[trigger] out@.contains(b) == ((exists|k: int|
                        0 <= k < pre_i && is_ancestor_of(#[trigger] children@[k], b)) || (exists|
                        m: int,
                    |
                        0 <= m < j + 1 && anc@[m] == b)) by {
                    if out@.contains(b) {
                        if pre_out.contains(b) {
                            if exists|m: int| 0 <= m < j && anc@[m] == b {
                                let m = choose|m: int| 0 <= m < j && anc@[m] == b;
                                assert(0 <= m < j + 1 && anc@[m] == b);
                            }
                        } else {
                            assert(b == e);
                            assert(anc@[j as int] == b);
                        }
                    }
                    if (exists|k: int|
                        0 <= k < pre_i && is_ancestor_of(#[trigger] children@[k], b)) || (exists|
                        m: int,
                    |
                        0 <= m < j + 1 && anc@[m] == b) {
                        if exists|k: int|
                            0 <= k < pre_i && is_ancestor_of(#[trigger] children@[k], b) {
                            assert(pre_out.contains(b));
                        } else {
                            let m = choose|m: int| 0 <= m < j + 1 && anc@[m] == b;
                            if m < j {
                                assert(pre_out.contains(b));
                            } else {
                                assert(b == e);
                            }
                        }
                        assert(out@.contains(b));
                    }
                }
            }
            j += 1;
        }
        proof {
            assert forall|b: T|
                #[trigger] out@.contains(b) == exists|k: int|
                    0 <= k < pre_i + 1 && is_ancestor_of(#[trigger] children@[k], b) by {
                if out@.contains(b) {
                    if exists|m: int| 0 <= m < anc@.len() && anc@[m] == b {
                        let m = choose|m: int| 0 <= m < anc@.len() && anc@[m] == b;
                        assert(anc@.contains(b));
                        assert(is_ancestor_of(children@[pre_i], b));
                    }
                }
                if exists|k: int|
                    0 <= k < pre_i + 1 && is_ancestor_of(#[trigger] children@[k], b) {
                    let k = choose|k: int|
                        0 <= k < pre_i + 1 && is_ancestor_of(#[trigger] children@[k], b);
                    if k == pre_i {
                        assert(anc@.contains(b));
                        let m = choose|m: int| 0 <= m < anc@.len() && anc@[m] == b;
                    }
                }
            }
        }
        i += 1;
    }
    out
}

/// Depth-first search up the parent links that stops as soon as the target
/// is found.  Cycle-safe for the same reason as `ancestors_and_self`.
#[verifier::loop_isolation(false)]
fn reaches_node<T: ParentFindingDigraphNode>(from: &T, target: &T) -> (r: bool)
    ensures
        r == is_ancestor_of(*from, *target),
{
    let mut visited: Vec<T> = Vec::new();
    let mut stack: Vec<T> = Vec::new();
    stack.push(*from);
    proof {
        lemma_ancestor_self(*from);
        assert(stack@[0] == *from);
        assert(stack@.contains(*from));
    }
    while stack.len() != 0
        invariant
            visited@.no_duplicates(),
            visited@.len() <= T::node_domain().len(),
            forall|b: T| #[trigger] visited@.contains(b) ==> b != *target,
            forall|k: int| 0 <= k < stack@.len() ==> is_ancestor_of(*from, #[trigger] stack@[k]),
            visited@.contains(*from) || stack@.contains(*from),
            forall|x: T, y: T|
                visited@.contains(x) && #[trigger] x.spec_parents().contains(y)
                    ==> visited@.contains(y) || stack@.contains(y),
        decreases T::node_domain().len() - visited@.len(), stack@.len(),
    {
        let ghost old_stack = stack@;
        let node = stack.pop().unwrap();
        proof {
            assert(node == old_stack[old_stack.len() - 1]);
            assert(is_ancestor_of(*from, node));
            assert(stack@ == old_stack.subrange(0, old_stack.len() - 1));
            assert forall|y: T| old_stack.contains(y) implies visited@.contains(y)
                || stack@.contains(y) || y == node by {
                lemma_pop_contains(old_stack, y);
            }
        }
        if node.eq_node(target) {
            return true;
        }
        if !vec_contains_node(&visited, &node) {
            let ghost pre_vis = visited@;
            visited.push(node);
            proof {
                lemma_push_distinct(pre_vis, node);
                lemma_distinct_nodes_bound::<T>(visited@);
                assert(visited@[visited@.len() - 1] == node);
                assert(visited@.contains(node));
                assert forall|y: T| pre_vis.contains(y) implies visited@.contains(y) by {
                    lemma_push_contains(pre_vis, node, y);
                }
                assert forall|y: T| #[trigger] visited@.contains(y) implies pre_vis.contains(y)
                    || y == node by {
                    let n = choose|n: int| 0 <= n < visited@.len() && visited@[n] == y;
                    if n < pre_vis.len() {
                        assert(pre_vis[n] == y);
                    }
                }
            }
            let parents = node.parents();
            let mut j: usize = 0;
            while j < parents.len()
                invariant
                    j <= parents@.len(),
                    parents@.to_set() == node.spec_parents(),
                    is_ancestor_of(*from, node),
                    visited@.contains(node),
                    forall|k: int|
                        0 <= k < stack@.len() ==> is_ancestor_of(*from, #[trigger] stack@[k]),
                    visited@.contains(*from) || stack@.contains(*from),
                    forall|k: int|
                        0 <= k < j ==> visited@.contains(#[trigger] parents@[k]) || stack@.contains(
                            parents@[k],
                        ),
                    forall|x: T, y: T|
                        visited@.contains(x) && x != node && #[trigger] x.spec_parents().contains(y)
                            ==> visited@.contains(y) || stack@.contains(y),
                decreases parents@.len() - j,
            {
                let p = parents[j];
                let ghost pre = stack@;
                proof {
                    assert(parents@[j as int] == p);
                    assert(parents@.contains(p));
                    assert(parents@.to_set().contains(p));
                    lemma_ancestor_step(*from, node, p);
                }
                stack.push(p);
                proof {
                    assert(stack@[stack@.len() - 1] == p);
                    assert forall|y: T| pre.contains(y) implies stack@.contains(y) by {
                        lemma_push_contains(pre, p, y);
                    }
                }
                j += 1;
            }
            proof {
                assert forall|x: T, y: T|
                    visited@.contains(x) && #[trigger] x.spec_parents().contains(y) implies visited@
                    .contains(y) || stack@.contains(y) by {
                    if x == node {
                        assert(parents@.to_set().contains(y));
                        assert(parents@.contains(y));
                        let k = choose|k: int| 0 <= k < parents@.len() && parents@[k] == y;
                        assert(visited@.contains(parents@[k]) || stack@.contains(parents@[k]));
                    }
                }
            }
        }
    }
    proof {
        let s = visited@.to_set();
        assert(s.contains(*from));
        assert forall|x: T, y: T| s.contains(x) && #[trigger] x.spec_parents().contains(y) implies s
            .contains(y) by {
            assert(visited@.contains(x));
        }
        if is_ancestor_of(*from, *target) {
            lemma_closed_set_ancestors(s, *from, *target);
            assert(visited@.contains(*target));
        }
    }
    false
}

/// Trait for types whose instances correspond to classes in (a subset of) an
/// RDF class hierarchy.  The hierarchy is not restricted to be a tree; it
/// may be any directed graph, cycles included.
pub trait ClassInHierarchy: ParentFindingDigraphNode {
    /// Gets the set of direct superclasses of this RDF class, not including
    /// the class itself.
    fn direct_superclasses(&self) -> (r: Vec<Self>)
        ensures
            r@.to_set() == self.spec_parents(),
    ;

    /// Checks if this RDF class is a subclass of another class.  A class is
    /// considered to be a subclass of itself.  The search follows superclass
    /// links depth-first and stops as soon as `other` is found.
    fn is_subclass_of(&self, other: &Self) -> (r: bool)
        ensures
            r == is_ancestor_of(*self, *other),
    {
        reaches_node(self, other)
    }

    /// Checks if this RDF class is a superclass of another class.  A class is
    /// considered to be a superclass of itself.
    fn is_superclass_of(&self, other: &Self) -> (r: bool)
        ensures
            r == is_ancestor_of(*other, *self),
    {
        other.is_subclass_of(self)
    }
}

/// Nodes of a small tree-shaped hierarchy, used by the test suite.
#[derive(Debug, Clone, Copy, PartialEq, Eq, Hash, Structural)]
pub enum TestTreeNode {
    Root,
    BranchLeft,
    BranchRight,
    LeafLeft,
    LeafRight,
}

impl TestTreeNode {
    /// Direct parents of each node, as a sequence.
    pub open spec fn parents_seq(self) -> Seq<TestTreeNode> {
        match self {
            TestTreeNode::BranchLeft => seq![TestTreeNode::Root],
            TestTreeNode::BranchRight => seq![TestTreeNode::Root],
            TestTreeNode::LeafLeft => seq![TestTreeNode::BranchLeft],
            TestTreeNode::LeafRight => seq![TestTreeNode::BranchRight],
            _ => Seq::empty(),
        }
    }
}

impl ParentFindingDigraphNode for TestTreeNode {
    open spec fn node_domain() -> Seq<TestTreeNode> {
        seq![TestTreeNode::Root, TestTreeNode::BranchLeft, TestTreeNode::BranchRight, TestTreeNode::LeafLeft, TestTreeNode::LeafRight]
    }

    open spec fn spec_parents(self) -> Set<TestTreeNode> {
        self.parents_seq().to_set()
    }

    proof fn lemma_in_domain(self) {
        match self {
            TestTreeNode::Root => assert(Self::node_domain()[0] == self),
            TestTreeNode::BranchLeft => assert(Self::node_domain()[1] == self),
            TestTreeNode::BranchRight => assert(Self::node_domain()[2] == self),
            TestTreeNode::LeafLeft => assert(Self::node_domain()[3] == self),
            TestTreeNode::LeafRight => assert(Self::node_domain()[4] == self),
        }
    }

    fn eq_node(&self, other: &Self) -> (r: bool) {
        *self == *other
    }

    fn parents(&self) -> (r: Vec<TestTreeNode>) {
        let r: Vec<TestTreeNode> = match self {
            TestTreeNode::BranchLeft => vec![TestTreeNode::Root],
            TestTreeNode::BranchRight => vec![TestTreeNode::Root],
            TestTreeNode::LeafLeft => vec![TestTreeNode::BranchLeft],
            TestTreeNode::LeafRight => vec![TestTreeNode::BranchRight],
            _ => Vec::new(),
        };
        proof {
            assert(r@ =~= self.parents_seq());
        }
        r
    }
}

/// Nodes of a small forest-shaped hierarchy, used by the test suite.
#[derive(Debug, Clone, Copy, PartialEq, Eq, Hash, Structural)]
pub enum TestForestNode {
    Root0,
    Root1,
    Root2,
    Leaf0,
    Leaf1,
    Branch2,
    Leaf2,
}

impl TestForestNode {
    /// Direct parents of each node, as a sequence.
    pub open spec fn parents_seq(self) -> Seq<TestForestNode> {
        match self {
            TestForestNode::Leaf0 => seq![TestForestNode::Root0],
            TestForestNode::Leaf1 => seq![TestForestNode::Root1],
            TestForestNode::Branch2 => seq![TestForestNode::Root2],
            TestForestNode::Leaf2 => seq![TestForestNode::Branch2],
            _ => Seq::empty(),
        }
    }
}

impl ParentFindingDigraphNode for TestForestNode {
    open spec fn node_domain() -> Seq<TestForestNode> {
        seq![TestForestNode::Root0, TestForestNode::Root1, TestForestNode::Root2, TestForestNode::Leaf0, TestForestNode::Leaf1, TestForestNode::Branch2, TestForestNode::Leaf2]
    }

    open spec fn spec_parents(self) -> Set<TestForestNode> {
        self.parents_seq().to_set()
    }

    proof fn lemma_in_domain(self) {
        match self {
            TestForestNode::Root0 => assert(Self::node_domain()[0] == self),
            TestForestNode::Root1 => assert(Self::node_domain()[1] == self),
            TestForestNode::Root2 => assert(Self::node_domain()[2] == self),
            TestForestNode::Leaf0 => assert(Self::node_domain()[3] == self),
            TestForestNode::Leaf1 => assert(Self::node_domain()[4] == self),
            TestForestNode::Branch2 => assert(Self::node_domain()[5] == self),
            TestForestNode::Leaf2 => assert(Self::node_domain()[6] == self),
        }
    }

    fn eq_node(&self, other: &Self) -> (r: bool) {
        *self == *other
    }

    fn parents(&self) -> (r: Vec<TestForestNode>) {
        let r: Vec<TestForestNode> = match self {
            TestForestNode::Leaf0 => vec![TestForestNode::Root0],
            TestForestNode::Leaf1 => vec![TestForestNode::Root1],
            TestForestNode::Branch2 => vec![TestForestNode::Root2],
            TestForestNode::Leaf2 => vec![TestForestNode::Branch2],
            _ => Vec::new(),
        };
        proof {
            assert(r@ =~= self.parents_seq());
        }
        r
    }
}

/// Nodes of a small diamond-shaped hierarchy, used by the test suite.
#[derive(Debug, Clone, Copy, PartialEq, Eq, Hash, Structural)]
pub enum TestDagNode {
    Root,
    Branch0,
    Branch1,
    Leaf0,
    LeafBoth,
}

impl TestDagNode {
    /// Direct parents of each node, as a sequence.
    pub open spec fn parents_seq(self) -> Seq<TestDagNode> {
        match self {
            TestDagNode::Branch0 => seq![TestDagNode::Root],
            TestDagNode::Branch1 => seq![TestDagNode::Root],
            TestDagNode::Leaf0 => seq![TestDagNode::Branch0],
            TestDagNode::LeafBoth => seq![TestDagNode::Branch0, TestDagNode::Branch1],
            _ => Seq::empty(),
        }
    }
}

impl ParentFindingDigraphNode for TestDagNode {
    open spec fn node_domain() -> Seq<TestDagNode> {
        seq![TestDagNode::Root, TestDagNode::Branch0, TestDagNode::Branch1, TestDagNode::Leaf0, TestDagNode::LeafBoth]
    }

    open spec fn spec_parents(self) -> Set<TestDagNode> {
        self.parents_seq().to_set()
    }

    proof fn lemma_in_domain(self) {
        match self {
            TestDagNode::Root => assert(Self::node_domain()[0] == self),
            TestDagNode::Branch0 => assert(Self::node_domain()[1] == self),
            TestDagNode::Branch1 => assert(Self::node_domain()[2] == self),
            TestDagNode::Leaf0 => assert(Self::node_domain()[3] == self),
            TestDagNode::LeafBoth => assert(Self::node_domain()[4] == self),
        }
    }

    fn eq_node(&self, other: &Self) -> (r: bool) {
        *self == *other
    }

    fn parents(&self) -> (r: Vec<TestDagNode>) {
        let r: Vec<TestDagNode> = match self {
            TestDagNode::Branch0 => vec![TestDagNode::Root],
            TestDagNode::Branch1 => vec![TestDagNode::Root],
            TestDagNode::Leaf0 => vec![TestDagNode::Branch0],
            TestDagNode::LeafBoth => vec![TestDagNode::Branch0, TestDagNode::Branch1],
            _ => Vec::new(),
        };
        proof {
            assert(r@ =~= self.parents_seq());
        }
        r
    }
}

/// Nodes of a cyclic hierarchy (including a self loop), used by the test suite to exercise cycle safety.
#[derive(Debug, Clone, Copy, PartialEq, Eq, Hash, Structural)]
pub enum TestCycleNode {
    Cycle0,
    Cycle1,
    SelfLoop,
}

impl TestCycleNode {
    /// Direct parents of each node, as a sequence.
    pub open spec fn parents_seq(self) -> Seq<TestCycleNode> {
        match self {
            TestCycleNode::Cycle0 => seq![TestCycleNode::Cycle1],
            TestCycleNode::Cycle1 => seq![TestCycleNode::Cycle0],
            TestCycleNode::SelfLoop => seq![TestCycleNode::SelfLoop],
        }
    }
}

impl ParentFindingDigraphNode for TestCycleNode {
    open spec fn node_domain() -> Seq<TestCycleNode> {
        seq![TestCycleNode::Cycle0, TestCycleNode::Cycle1, TestCycleNode::SelfLoop]
    }

    open spec fn spec_parents(self) -> Set<TestCycleNode> {
        self.parents_seq().to_set()
    }

    proof fn lemma_in_domain(self) {
        match self {
            TestCycleNode::Cycle0 => assert(Self::node_domain()[0] == self),
            TestCycleNode::Cycle1 => assert(Self::node_domain()[1] == self),
            TestCycleNode::SelfLoop => assert(Self::node_domain()[2] == self),
        }
    }

    fn eq_node(&self, other: &Self) -> (r: bool) {
        *self == *other
    }

    fn parents(&self) -> (r: Vec<TestCycleNode>) {
        let r: Vec<TestCycleNode> = match self {
            TestCycleNode::Cycle0 => vec![TestCycleNode::Cycle1],
            TestCycleNode::Cycle1 => vec![TestCycleNode::Cycle0],
            TestCycleNode::SelfLoop => vec![TestCycleNode::SelfLoop],
        };
        proof {
            assert(r@ =~= self.parents_seq());
        }
        r
    }
}

impl ClassInHierarchy for TestTreeNode {
    fn direct_superclasses(&self) -> (r: Vec<Self>) {
        self.parents()
    }
}

impl ClassInHierarchy for TestForestNode {
    fn direct_superclasses(&self) -> (r: Vec<Self>) {
        self.parents()
    }
}

impl ClassInHierarchy for TestDagNode {
    fn direct_superclasses(&self) -> (r: Vec<Self>) {
        self.parents()
    }
}

impl ClassInHierarchy for TestCycleNode {
    fn direct_superclasses(&self) -> (r: Vec<Self>) {
        self.parents()
    }
}

} // verus!
