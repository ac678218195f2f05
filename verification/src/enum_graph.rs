//! Representation of directed graphs over small compile-time-fixed node domains.
//!
//! A graph always has exactly 64 node slots, numbered `0..64`; an enumeration
//! with at most 64 members is mapped onto the low slots by an index function,
//! and the unused slots simply stay isolated.  Each slot's successor set is a
//! 64-bit mask, so membership tests and set unions are single machine
//! operations.

use vstd::prelude::*;

verus! {

/// True if bit `t` of `m` is set.  Meaningful for `t < 64`.
pub open spec fn bit_get(m: u64, t: u64) -> bool {
    (m >> t) & 1u64 == 1u64
}

/// Directed graph with unlabeled edges (self loops allowed) over the fixed
/// node domain `0..64`.  Every node is always present, though some nodes may
/// not be connected to any other node.
#[derive(Debug, Clone, Eq, Hash)]
pub struct EnumSetDiGraph {
    /// An adjacency bitset for each node: bit `t` of `adj[f]` is set exactly
    /// when the edge `f -> t` is present.  Always holds 64 entries.
    adj: Vec<u64>,
}

impl View for EnumSetDiGraph {
    type V = Seq<u64>;

    closed spec fn view(&self) -> Seq<u64> {
        self.adj@
    }
}

impl EnumSetDiGraph {
    /// The adjacency vector holds exactly one bitset per node slot.
    pub open spec fn wf(self) -> bool {
        self@.len() == 64
    }

    /// True if the directed edge `from -> to` is present.
    pub open spec fn spec_edge(self, from: int, to: int) -> bool {
        &&& 0 <= from < 64
        &&& 0 <= to < 64
        &&& bit_get(self@[from], to as u64)
    }
}

/// True if consecutive entries of `c` are joined by edges of `g`.
pub open spec fn is_chain(g: EnumSetDiGraph, c: Seq<int>) -> bool {
    forall|i: int| 0 < i < c.len() ==> #[trigger] g.spec_edge(c[i - 1], c[i])
}

/// True if `g` has a directed path (possibly of length zero) from `from` to
/// `to`.
pub open spec fn reachable(g: EnumSetDiGraph, from: int, to: int) -> bool {
    exists|c: Seq<int>|
        #[trigger] is_chain(g, c) && c.len() >= 1 && c.first() == from && c.last() == to
}

/// Every node reaches itself by the zero-length path.
pub proof fn lemma_reachable_self(g: EnumSetDiGraph, n: int)
    ensures
        reachable(g, n, n),
{
    let c = seq![n];
    assert(is_chain(g, c));
    assert(c.first() == n && c.last() == n);
}

/// A single edge is a path.
pub proof fn lemma_edge_reachable(g: EnumSetDiGraph, a: int, b: int)
    requires
        g.spec_edge(a, b),
    ensures
        reachable(g, a, b),
{
    let c = seq![a, b];
    assert(g.spec_edge(c[0], c[1]));
    assert(is_chain(g, c));
    assert(c.first() == a && c.last() == b);
}

/// A path can be extended along one more edge.
pub proof fn lemma_reachable_step(g: EnumSetDiGraph, a: int, b: int, c: int)
    requires
        reachable(g, a, b),
        g.spec_edge(b, c),
    ensures
        reachable(g, a, c),
{
    let ch = choose|ch: Seq<int>|
        #[trigger] is_chain(g, ch) && ch.len() >= 1 && ch.first() == a && ch.last() == b;
    let ch2 = ch.push(c);
    assert forall|i: int| 0 < i < ch2.len() implies #[trigger] g.spec_edge(ch2[i - 1], ch2[i]) by {
        if i < ch.len() {
            assert(g.spec_edge(ch[i - 1], ch[i]));
        } else {
            assert(ch2[i - 1] == ch.last() && ch2[i] == c);
        }
    }
    assert(is_chain(g, ch2));
    assert(ch2.first() == a && ch2.last() == c);
}

/// Reachability is transitive.
pub proof fn lemma_reachable_trans(g: EnumSetDiGraph, a: int, b: int, c: int)
    requires
        reachable(g, a, b),
        reachable(g, b, c),
    ensures
        reachable(g, a, c),
{
    let cb = choose|cb: Seq<int>|
        #[trigger] is_chain(g, cb) && cb.len() >= 1 && cb.first() == b && cb.last() == c;
    lemma_chain_extends(g, a, cb);
}

/// Helper for transitivity: anything reachable from the head of a chain whose
/// head is reachable from `a` is reachable from `a`.
proof fn lemma_chain_extends(g: EnumSetDiGraph, a: int, cb: Seq<int>)
    requires
        cb.len() >= 1,
        is_chain(g, cb),
        reachable(g, a, cb.first()),
    ensures
        reachable(g, a, cb.last()),
    decreases cb.len(),
{
    if cb.len() == 1 {
    } else {
        let cb2 = cb.drop_last();
        assert(is_chain(g, cb2)) by {
            assert forall|i: int| 0 < i < cb2.len() implies #[trigger] g.spec_edge(
                cb2[i - 1],
                cb2[i],
            ) by {
                assert(g.spec_edge(cb[i - 1], cb[i]));
            }
        }
        lemma_chain_extends(g, a, cb2);
        assert(g.spec_edge(cb[cb.len() - 2], cb[cb.len() - 1]));
        lemma_reachable_step(g, a, cb2.last(), cb.last());
    }
}

/// A set that contains `from` and is closed under following edges contains
/// everything reachable from `from`.
pub proof fn lemma_closed_set_reachable(g: EnumSetDiGraph, s: Set<int>, from: int, to: int)
    requires
        s.contains(from),
        forall|x: int, y: int| s.contains(x) && #[trigger] g.spec_edge(x, y) ==> s.contains(y),
        reachable(g, from, to),
    ensures
        s.contains(to),
{
    let c = choose|c: Seq<int>|
        #[trigger] is_chain(g, c) && c.len() >= 1 && c.first() == from && c.last() == to;
    lemma_chain_in_closed_set(g, s, c);
}

proof fn lemma_chain_in_closed_set(g: EnumSetDiGraph, s: Set<int>, c: Seq<int>)
    requires
        c.len() >= 1,
        is_chain(g, c),
        s.contains(c.first()),
        forall|x: int, y: int| s.contains(x) && #[trigger] g.spec_edge(x, y) ==> s.contains(y),
    ensures
        s.contains(c.last()),
    decreases c.len(),
{
    if c.len() > 1 {
        let c2 = c.drop_last();
        assert(is_chain(g, c2)) by {
            assert forall|i: int| 0 < i < c2.len() implies #[trigger] g.spec_edge(
                c2[i - 1],
                c2[i],
            ) by {
                assert(g.spec_edge(c[i - 1], c[i]));
            }
        }
        lemma_chain_in_closed_set(g, s, c2);
        assert(g.spec_edge(c[c.len() - 2], c[c.len() - 1]));
    }
}

proof fn lemma_bit_zero()
    by (bit_vector)
    ensures
        forall|t: u64| t < 64 ==> !bit_get(0u64, t),
{
}

proof fn lemma_bit_set(m: u64, i: u64)
    by (bit_vector)
    requires
        i < 64,
    ensures
        forall|t: u64| t < 64 ==> bit_get(m | (1u64 << i), t) == (bit_get(m, t) || t == i),
{
}

proof fn lemma_bit_or(x: u64, y: u64)
    by (bit_vector)
    ensures
        forall|t: u64| t < 64 ==> bit_get(x | y, t) == (bit_get(x, t) || bit_get(y, t)),
{
}

#[verifier::rlimit(60)]
proof fn lemma_bits_eq_below(x: u64, y: u64, k: u64)
    requires
        k <= 64,
        forall|t: u64| t < k ==> bit_get(x, t) == bit_get(y, t),
    ensures
        k < 64 ==> (x & (((1u64 << k) - 1) as u64)) == (y & (((1u64 << k) - 1) as u64)),
        k == 64 ==> x == y,
    decreases k,
{
    if k == 0 {
        assert((x & (((1u64 << 0u64) - 1) as u64)) == (y & (((1u64 << 0u64) - 1) as u64))) by (bit_vector);
    } else {
        lemma_bits_eq_below(x, y, (k - 1) as u64);
        assert(bit_get(x, (k - 1) as u64) == bit_get(y, (k - 1) as u64));
        if k < 64 {
            assert((x & (((1u64 << k) - 1) as u64)) == (y & (((1u64 << k) - 1) as u64))) by (bit_vector)
                requires
                    1 <= k < 64,
                    (x & (((1u64 << (k - 1) as u64) - 1) as u64)) == (y & (((1u64 << (k - 1) as u64) - 1) as u64)),
                    ((x >> (k - 1) as u64) & 1u64 == 1u64) == ((y >> (k - 1) as u64) & 1u64
                        == 1u64),
            ;
        } else {
            assert(x == y) by (bit_vector)
                requires
                    (x & (((1u64 << 63u64) - 1) as u64)) == (y & (((1u64 << 63u64) - 1) as u64)),
                    ((x >> 63u64) & 1u64 == 1u64) == ((y >> 63u64) & 1u64 == 1u64),
            ;
        }
    }
}

proof fn lemma_bit_ext(x: u64, y: u64)
    requires
        forall|t: u64| t < 64 ==> bit_get(x, t) == bit_get(y, t),
    ensures
        x == y,
{
    lemma_bits_eq_below(x, y, 64);
}

/// Reads bit `t` of the mask `m`.
fn mask_get(m: u64, t: usize) -> (r: bool)
    requires
        t < 64,
    ensures
        r == bit_get(m, t as u64),
{
    (m >> (t as u64)) & 1u64 == 1u64
}

/// Sets bit `t` of the mask `m`.
fn mask_set(m: u64, t: usize) -> (r: u64)
    requires
        t < 64,
    ensures
        forall|j: u64| j < 64 ==> bit_get(r, j) == (bit_get(m, j) || j == t as u64),
{
    proof {
        lemma_bit_set(m, t as u64);
    }
    m | (1u64 << (t as u64))
}

impl EnumSetDiGraph {
    /// Constructs a new directed graph with no edges.
    pub fn new() -> (g: Self)
        ensures
            g.wf(),
            forall|a: int, b: int| !g.spec_edge(a, b),
    {
        let mut adj: Vec<u64> = Vec::new();
        let mut i: usize = 0;
        while i < 64
            invariant
                adj@.len() == i,
                i <= 64,
                forall|k: int| 0 <= k < i ==> adj@[k] == 0u64,
            decreases 64 - i,
        {
            adj.push(0u64);
            i += 1;
        }
        proof {
            lemma_bit_zero();
        }
        EnumSetDiGraph { adj }
    }

    /// Checks if the specified directed edge is present in the graph.
    pub fn has_edge(&self, from: usize, to: usize) -> (r: bool)
        requires
            self.wf(),
            from < 64,
            to < 64,
        ensures
            r == self.spec_edge(from as int, to as int),
    {
        mask_get(self.adj[from], to)
    }

    /// Finds the set of nodes directly reachable by a one-edge directed path
    /// starting at the specified node, as a bitset.  Zero-length paths are not
    /// included, so the result contains the start node only if it has a self
    /// loop.
    pub fn adjacent_nodes(&self, from: usize) -> (r: u64)
        requires
            self.wf(),
            from < 64,
        ensures
            forall|t: int| 0 <= t < 64 ==> (bit_get(r, t as u64) == self.spec_edge(from as int, t)),
    {
        self.adj[from]
    }

    /// Adds the specified directed edge to the graph if it is not present.
    pub fn insert_edge(&mut self, from: usize, to: usize)
        requires
            old(self).wf(),
            from < 64,
            to < 64,
        ensures
            final(self).wf(),
            forall|a: int, b: int|
                final(self).spec_edge(a, b) == (old(self).spec_edge(a, b) || (a == from as int && b
                    == to as int)),
    {
        let m = mask_set(self.adj[from], to);
        self.adj[from] = m;
    }

    /// Creates a new graph containing the union of all the edges in the two
    /// specified graphs.
    pub fn union(&self, other: &EnumSetDiGraph) -> (r: Self)
        requires
            self.wf(),
            other.wf(),
        ensures
            is_union_of(r, *self, *other),
    {
        let mut adj: Vec<u64> = Vec::new();
        let mut i: usize = 0;
        while i < 64
            invariant
                self.wf(),
                other.wf(),
                adj@.len() == i,
                i <= 64,
                forall|k: int, t: u64|
                    0 <= k < i && t < 64 ==> #[trigger] bit_get(adj@[k], t) == (bit_get(
                        self@[k],
                        t,
                    ) || bit_get(other@[k], t)),
            decreases 64 - i,
        {
            let m = self.adj[i] | other.adj[i];
            proof {
                lemma_bit_or(self@[i as int], other@[i as int]);
            }
            adj.push(m);
            i += 1;
        }
        EnumSetDiGraph { adj }
    }

    /// Reverses the directions of all edges in the graph.
    pub fn reverse(&self) -> (r: Self)
        requires
            self.wf(),
        ensures
            is_reverse_of(r, *self),
    {
        let mut out = EnumSetDiGraph::new();
        let mut from: usize = 0;
        while from < 64
            invariant
                self.wf(),
                out.wf(),
                from <= 64,
                forall|a: int, b: int|
                    out.spec_edge(b, a) == (self.spec_edge(a, b) && a < from as int),
            decreases 64 - from,
        {
            let mut to: usize = 0;
            while to < 64
                invariant
                    self.wf(),
                    out.wf(),
                    from < 64,
                    to <= 64,
                    forall|a: int, b: int|
                        out.spec_edge(b, a) == (self.spec_edge(a, b) && (a < from as int || (a
                            == from as int && b < to as int))),
                decreases 64 - to,
            {
                if self.has_edge(from, to) {
                    out.insert_edge(to, from);
                }
                to += 1;
            }
            from += 1;
        }
        out
    }
}

impl EnumSetDiGraph {
    /// Finds the set of nodes reachable by any directed path starting at the
    /// specified node, as a bitset.  Zero-length paths are included, so the
    /// result always contains the start node.  The search is an iterative
    /// depth-first search with an explicit stack and a visited bitset, so it
    /// terminates on cyclic graphs (self loops included).
    #[verifier::loop_isolation(false)]
    pub fn reachable_nodes(&self, from: usize) -> (r: u64)
        requires
            self.wf(),
            from < 64,
        ensures
            forall|t: int| 0 <= t < 64 ==> (bit_get(r, t as u64) == reachable(*self, from as int, t)),
    {
        let mut visited: u64 = 0;
        let ghost mut vset: Set<int> = Set::empty();
        let mut stack: Vec<usize> = Vec::new();
        stack.push(from);
        proof {
            lemma_reachable_self(*self, from as int);
            lemma_bit_zero();
            assert(stack@[0] == from);
            assert(stack@.contains(from));
        }
        while stack.len() != 0
            invariant
                forall|k: int| 0 <= k < stack@.len() ==> stack@[k] < 64,
                vset.finite(),
                vset.len() <= 64,
                forall|t: int| vset.contains(t) ==> 0 <= t < 64,
                forall|t: int| 0 <= t < 64 ==> (bit_get(visited, t as u64) == vset.contains(t)),
                forall|t: int| vset.contains(t) ==> reachable(*self, from as int, t),
                forall|k: int|
                    0 <= k < stack@.len() ==> reachable(*self, from as int, stack@[k] as int),
                vset.contains(from as int) || stack@.contains(from),
                forall|x: int, y: int|
                    vset.contains(x) && #[trigger] self.spec_edge(x, y) ==> vset.contains(y)
                        || stack@.contains(y as usize),
            decreases 64 - vset.len(), stack@.len(),
        {
            let ghost old_stack = stack@;
            let node = stack.pop().unwrap();
            proof {
                assert(stack@ == old_stack.subrange(0, old_stack.len() - 1));
                assert forall|y: usize| old_stack.contains(y) implies vset.contains(y as int)
                    || stack@.contains(y) || y == node by {
                    let k = choose|k: int| 0 <= k < old_stack.len() && old_stack[k] == y;
                    if k < old_stack.len() - 1 {
                        assert(stack@[k] == y);
                    }
                }
            }
            if !mask_get(visited, node) {
                visited = mask_set(visited, node);
                proof {
                    vset = vset.insert(node as int);
                    vstd::set::axiom_set_insert_len(vset.remove(node as int), node as int);
                    vstd::set_lib::lemma_int_range(0, 64);
                    vstd::set_lib::lemma_len_subset(vset, vstd::set_lib::set_int_range(0, 64));
                }
                let row = self.adj[node];
                let mut t: usize = 0;
                while t < 64
                    invariant
                        t <= 64,
                        row == self@[node as int],
                        forall|k: int| 0 <= k < stack@.len() ==> stack@[k] < 64,
                        forall|k: int|
                            0 <= k < stack@.len() ==> reachable(
                                *self,
                                from as int,
                                stack@[k] as int,
                            ),
                        vset.contains(from as int) || stack@.contains(from),
                        forall|y: int|
                            0 <= y < t && #[trigger] self.spec_edge(node as int, y)
                                ==> vset.contains(y) || stack@.contains(y as usize),
                        forall|x: int, y: int|
                            vset.contains(x) && x != node as int && #[trigger] self.spec_edge(x, y)
                                ==> vset.contains(y) || stack@.contains(y as usize),
                    decreases 64 - t,
                {
                    if mask_get(row, t) {
                        let ghost pre = stack@;
                        proof {
                            lemma_reachable_step(*self, from as int, node as int, t as int);
                        }
                        stack.push(t);
                        proof {
                            assert forall|y: usize| pre.contains(y) implies stack@.contains(y) by {
                                let k = choose|k: int| 0 <= k < pre.len() && pre[k] == y;
                                assert(stack@[k] == y);
                            }
                            assert(stack@[stack@.len() - 1] == t);
                        }
                    }
                    t += 1;
                }
            }
        }
        proof {
            assert(vset.contains(from as int));
            assert forall|t: int| 0 <= t < 64 implies (bit_get(visited, t as u64) == reachable(
                *self,
                from as int,
                t,
            )) by {
                if reachable(*self, from as int, t) {
                    lemma_closed_set_reachable(*self, vset, from as int, t);
                    assert(vset.contains(t));
                }
                assert(bit_get(visited, t as u64) == vset.contains(t));
            }
        }
        visited
    }

    /// Checks if the graph contains a directed path from the specified start
    /// node to the specified end node.  Zero-length paths are included, so
    /// this always returns true if `from` and `to` are the same node.
    pub fn has_path(&self, from: usize, to: usize) -> (r: bool)
        requires
            self.wf(),
            from < 64,
            to < 64,
        ensures
            r == reachable(*self, from as int, to as int),
    {
        let reach = self.reachable_nodes(from);
        mask_get(reach, to)
    }

    /// Finds the set of nodes reachable starting from any of the nodes in the
    /// given bitset.  Zero-length paths are included, so the result contains
    /// every start node.
    pub fn reachable_nodes_from_multi(&self, from: u64) -> (r: u64)
        requires
            self.wf(),
        ensures
            forall|t: int|
                0 <= t < 64 ==> (#[trigger] bit_get(r, t as u64) == exists|s: int|
                    0 <= s < 64 && bit_get(from, s as u64) && #[trigger] reachable(*self, s, t)),
    {
        let mut acc: u64 = 0;
        let mut s: usize = 0;
        proof {
            lemma_bit_zero();
        }
        while s < 64
            invariant
                self.wf(),
                s <= 64,
                forall|t: int|
                    0 <= t < 64 ==> (#[trigger] bit_get(acc, t as u64) == exists|x: int|
                        0 <= x < s && bit_get(from, x as u64) && #[trigger] reachable(*self, x, t)),
            decreases 64 - s,
        {
            if mask_get(from, s) {
                let reach = self.reachable_nodes(s);
                let ghost pre = acc;
                acc = acc | reach;
                proof {
                    lemma_bit_or(pre, reach);
                    assert forall|t: int|
                        0 <= t < 64 implies (#[trigger] bit_get(acc, t as u64) == exists|x: int|
                        0 <= x < s + 1 && bit_get(from, x as u64) && #[trigger] reachable(*self, x, t)) by {
                        assert(bit_get(acc, t as u64) == (bit_get(pre, t as u64) || bit_get(
                            reach,
                            t as u64,
                        )));
                        assert(bit_get(reach, t as u64) == reachable(*self, s as int, t));
                        if bit_get(acc, t as u64) {
                            if bit_get(pre, t as u64) {
                                let x = choose|x: int|
                                    0 <= x < s && bit_get(from, x as u64) && reachable(*self, x, t);
                                assert(0 <= x < s + 1 && bit_get(from, x as u64) && reachable(
                                    *self,
                                    x,
                                    t,
                                ));
                            } else {
                                assert(0 <= (s as int) < s + 1 && bit_get(from, s as u64)
                                    && reachable(*self, s as int, t));
                            }
                        } else {
                            if exists|x: int|
                                0 <= x < s + 1 && bit_get(from, x as u64) && #[trigger] reachable(
                                    *self,
                                    x,
                                    t,
                                ) {
                                let x = choose|x: int|
                                    0 <= x < s + 1 && bit_get(from, x as u64) && reachable(
                                        *self,
                                        x,
                                        t,
                                    );
                                if x < s {
                                    assert(bit_get(pre, t as u64));
                                } else {
                                    assert(x == s as int);
                                    assert(bit_get(reach, t as u64));
                                }
                                assert(false);
                            }
                        }
                    }
                }
            } else {
                proof {
                    assert forall|t: int|
                        0 <= t < 64 implies (#[trigger] bit_get(acc, t as u64) == exists|x: int|
                        0 <= x < s + 1 && bit_get(from, x as u64) && #[trigger] reachable(*self, x, t)) by {
                        if exists|x: int|
                            0 <= x < s + 1 && bit_get(from, x as u64) && #[trigger] reachable(*self, x, t) {
                            let x = choose|x: int|
                                0 <= x < s + 1 && bit_get(from, x as u64) && reachable(*self, x, t);
                            assert(0 <= x < s && bit_get(from, x as u64) && reachable(*self, x, t));
                        }
                    }
                }
            }
            s += 1;
        }
        acc
    }

    /// Constructs the transitive closure of this graph.  The result has an
    /// edge from `x` to `y` exactly when this graph has a directed path from
    /// `x` to `y`; in particular every node gains a self loop.
    pub fn transitive_closure(&self) -> (r: Self)
        requires
            self.wf(),
        ensures
            is_closure_of(r, *self),
    {
        let mut adj: Vec<u64> = Vec::new();
        let mut i: usize = 0;
        while i < 64
            invariant
                self.wf(),
                adj@.len() == i,
                i <= 64,
                forall|a: int, b: int|
                    0 <= a < i && 0 <= b < 64 ==> (#[trigger] bit_get(adj@[a], b as u64)
                        == reachable(*self, a, b)),
            decreases 64 - i,
        {
            let row = self.reachable_nodes(i);
            adj.push(row);
            i += 1;
        }
        EnumSetDiGraph { adj }
    }

    /// Builds a graph by inserting every `(from, to)` pair of the given list
    /// as an edge, in order.  Inserting an edge twice has no further effect,
    /// so the result depends only on which pairs occur in the list.
    pub fn from_edge_list(edges: &Vec<(usize, usize)>) -> (g: Self)
        requires
            forall|k: int|
                0 <= k < edges@.len() ==> (#[trigger] edges@[k]).0 < 64 && edges@[k].1 < 64,
        ensures
            is_graph_of_edges(g, edges@),
    {
        let mut g = EnumSetDiGraph::new();
        let mut k: usize = 0;
        while k < edges.len()
            invariant
                g.wf(),
                k <= edges@.len(),
                forall|j: int|
                    0 <= j < edges@.len() ==> (#[trigger] edges@[j]).0 < 64 && edges@[j].1 < 64,
                forall|a: usize, b: usize|
                    a < 64 && b < 64 ==> (g.spec_edge(a as int, b as int) == exists|j: int|
                        0 <= j < k && edges@[j] == (a, b)),
            decreases edges@.len() - k,
        {
            let (from, to) = edges[k];
            let ghost pre = g;
            g.insert_edge(from, to);
            proof {
                assert forall|a: usize, b: usize| a < 64 && b < 64 implies (g.spec_edge(
                    a as int,
                    b as int,
                ) == exists|j: int| 0 <= j < k + 1 && edges@[j] == (a, b)) by {
                    if g.spec_edge(a as int, b as int) {
                        if pre.spec_edge(a as int, b as int) {
                            let j = choose|j: int| 0 <= j < k && edges@[j] == (a, b);
                            assert(0 <= j < k + 1 && edges@[j] == (a, b));
                        } else {
                            assert(edges@[k as int] == (a, b));
                        }
                    } else {
                        if exists|j: int| 0 <= j < k + 1 && edges@[j] == (a, b) {
                            let j = choose|j: int| 0 <= j < k + 1 && edges@[j] == (a, b);
                            assert(false);
                        }
                    }
                }
            }
            k += 1;
        }
        g
    }
}

/// Relates a graph to its transitive closure: `c` has an edge exactly where
/// `g` has a directed path.
pub open spec fn is_closure_of(c: EnumSetDiGraph, g: EnumSetDiGraph) -> bool {
    &&& c.wf()
    &&& forall|a: int, b: int|
        0 <= a < 64 && 0 <= b < 64 ==> (c.spec_edge(a, b) == reachable(g, a, b))
}

/// Relates a graph to its edge reversal.
pub open spec fn is_reverse_of(r: EnumSetDiGraph, g: EnumSetDiGraph) -> bool {
    &&& r.wf()
    &&& forall|a: int, b: int| r.spec_edge(b, a) == g.spec_edge(a, b)
}

/// Relates a graph to the union of two others: it has exactly the edges of
/// either.
pub open spec fn is_union_of(u: EnumSetDiGraph, g: EnumSetDiGraph, h: EnumSetDiGraph) -> bool {
    &&& u.wf()
    &&& forall|a: int, b: int| u.spec_edge(a, b) == (g.spec_edge(a, b) || h.spec_edge(a, b))
}

/// Relates a graph to an edge list: it has exactly the edges that occur in
/// the list.
pub open spec fn is_graph_of_edges(g: EnumSetDiGraph, l: Seq<(usize, usize)>) -> bool {
    &&& g.wf()
    &&& forall|a: usize, b: usize|
        a < 64 && b < 64 ==> (g.spec_edge(a as int, b as int) == l.contains((a, b)))
}

/// Two well-formed graphs with the same edges have the same representation.
pub proof fn lemma_graphs_pointwise_eq(g1: EnumSetDiGraph, g2: EnumSetDiGraph)
    requires
        g1.wf(),
        g2.wf(),
        forall|a: int, b: int| g1.spec_edge(a, b) == g2.spec_edge(a, b),
    ensures
        g1@ == g2@,
{
    assert forall|i: int| 0 <= i < 64 implies g1@[i] == g2@[i] by {
        assert forall|t: u64| t < 64 implies bit_get(g1@[i], t) == bit_get(g2@[i], t) by {
            assert(g1.spec_edge(i, t as int) == g2.spec_edge(i, t as int));
        }
        lemma_bit_ext(g1@[i], g2@[i]);
    }
    assert(g1@ =~= g2@);
}

/// If `g` has an edge `a -> b` and its closure has an edge `b -> c`, the
/// closure also has the edge `a -> c`.
pub proof fn lemma_closure_transitive(
    g: EnumSetDiGraph,
    c: EnumSetDiGraph,
    a: int,
    b: int,
    d: int,
)
    requires
        is_closure_of(c, g),
        g.spec_edge(a, b),
        c.spec_edge(b, d),
    ensures
        c.spec_edge(a, d),
{
    lemma_edge_reachable(g, a, b);
    lemma_reachable_trans(g, a, b, d);
}

/// Extracts one edge of a chain.
pub proof fn lemma_chain_edge(g: EnumSetDiGraph, c: Seq<int>, i: int)
    requires
        is_chain(g, c),
        0 < i < c.len(),
    ensures
        g.spec_edge(c[i - 1], c[i]),
{
}

/// A chain in the closure of `g` collapses to reachability in `g` itself.
proof fn lemma_chain_in_closure(g: EnumSetDiGraph, c: EnumSetDiGraph, ch: Seq<int>)
    requires
        is_closure_of(c, g),
        ch.len() >= 1,
        is_chain(c, ch),
    ensures
        reachable(g, ch.first(), ch.last()),
    decreases ch.len(),
{
    if ch.len() == 1 {
        lemma_reachable_self(g, ch.first());
    } else {
        let ch2 = ch.drop_last();
        assert(is_chain(c, ch2)) by {
            assert forall|i: int| 0 < i < ch2.len() implies #[trigger] c.spec_edge(
                ch2[i - 1],
                ch2[i],
            ) by {
                assert(c.spec_edge(ch[i - 1], ch[i]));
            }
        }
        lemma_chain_in_closure(g, c, ch2);
        assert(c.spec_edge(ch[ch.len() - 2], ch[ch.len() - 1]));
        lemma_reachable_trans(g, ch.first(), ch2.last(), ch.last());
    }
}

/// The closure preserves reachability: a path in the closure exists exactly
/// where a path in the original graph exists.
pub proof fn lemma_closure_preserves_reachability(
    g: EnumSetDiGraph,
    c: EnumSetDiGraph,
    a: int,
    b: int,
)
    requires
        is_closure_of(c, g),
    ensures
        reachable(c, a, b) == reachable(g, a, b),
{
    if reachable(g, a, b) {
        if a == b {
            lemma_reachable_self(c, a);
        } else {
            let ch = choose|ch: Seq<int>|
                #[trigger] is_chain(g, ch) && ch.len() >= 1 && ch.first() == a && ch.last() == b;
            assert(ch.len() >= 2);
            lemma_chain_edge(g, ch, 1);
            lemma_chain_edge(g, ch, ch.len() - 1);
            assert(0 <= a < 64 && 0 <= b < 64);
            assert(c.spec_edge(a, b));
            lemma_edge_reachable(c, a, b);
        }
    }
    if reachable(c, a, b) {
        let ch = choose|ch: Seq<int>|
            #[trigger] is_chain(c, ch) && ch.len() >= 1 && ch.first() == a && ch.last() == b;
        lemma_chain_in_closure(g, c, ch);
    }
}

/// Taking the transitive closure of a transitive closure changes nothing.
pub proof fn lemma_transitive_closure_idempotent(
    g: EnumSetDiGraph,
    c: EnumSetDiGraph,
    cc: EnumSetDiGraph,
)
    requires
        is_closure_of(c, g),
        is_closure_of(cc, c),
    ensures
        cc@ == c@,
{
    assert forall|a: int, b: int| cc.spec_edge(a, b) == c.spec_edge(a, b) by {
        if 0 <= a < 64 && 0 <= b < 64 {
            lemma_closure_preserves_reachability(g, c, a, b);
        }
    }
    lemma_graphs_pointwise_eq(cc, c);
}

/// Reversing a graph twice restores it.
pub proof fn lemma_reverse_involutive(g: EnumSetDiGraph, r: EnumSetDiGraph, rr: EnumSetDiGraph)
    requires
        g.wf(),
        is_reverse_of(r, g),
        is_reverse_of(rr, r),
    ensures
        rr@ == g@,
{
    assert forall|a: int, b: int| rr.spec_edge(a, b) == g.spec_edge(a, b) by {
        assert(rr.spec_edge(a, b) == r.spec_edge(b, a));
        assert(r.spec_edge(b, a) == g.spec_edge(a, b));
    }
    lemma_graphs_pointwise_eq(rr, g);
}

/// Graph union is commutative.
pub proof fn lemma_union_commutative(
    g: EnumSetDiGraph,
    h: EnumSetDiGraph,
    u1: EnumSetDiGraph,
    u2: EnumSetDiGraph,
)
    requires
        is_union_of(u1, g, h),
        is_union_of(u2, h, g),
    ensures
        u1@ == u2@,
{
    lemma_graphs_pointwise_eq(u1, u2);
}

/// Graph union is associative.
pub proof fn lemma_union_associative(
    g: EnumSetDiGraph,
    h: EnumSetDiGraph,
    k: EnumSetDiGraph,
    gh: EnumSetDiGraph,
    gh_k: EnumSetDiGraph,
    hk: EnumSetDiGraph,
    g_hk: EnumSetDiGraph,
)
    requires
        is_union_of(gh, g, h),
        is_union_of(gh_k, gh, k),
        is_union_of(hk, h, k),
        is_union_of(g_hk, g, hk),
    ensures
        gh_k@ == g_hk@,
{
    lemma_graphs_pointwise_eq(gh_k, g_hk);
}

/// The empty graph is an identity element for union.
pub proof fn lemma_union_identity(g: EnumSetDiGraph, e: EnumSetDiGraph, u: EnumSetDiGraph)
    requires
        g.wf(),
        forall|a: int, b: int| !e.spec_edge(a, b),
        is_union_of(u, g, e),
    ensures
        u@ == g@,
{
    lemma_graphs_pointwise_eq(u, g);
}

/// A graph built from an edge list is determined by which pairs occur in the
/// list, not by their order or multiplicity.
pub proof fn lemma_edge_lists_same_membership(
    g1: EnumSetDiGraph,
    l1: Seq<(usize, usize)>,
    g2: EnumSetDiGraph,
    l2: Seq<(usize, usize)>,
)
    requires
        is_graph_of_edges(g1, l1),
        is_graph_of_edges(g2, l2),
        forall|p: (usize, usize)| l1.contains(p) == l2.contains(p),
    ensures
        g1@ == g2@,
{
    assert forall|a: int, b: int| g1.spec_edge(a, b) == g2.spec_edge(a, b) by {
        if 0 <= a < 64 && 0 <= b < 64 {
            let p = (a as usize, b as usize);
            assert(g1.spec_edge(a, b) == l1.contains(p));
            assert(g2.spec_edge(a, b) == l2.contains(p));
        }
    }
    lemma_graphs_pointwise_eq(g1, g2);
}

/// The union of two graphs built from edge lists is the graph of the
/// concatenated list; combining per-chunk graphs with `union` therefore
/// rebuilds the graph of the whole list, however the list was split.
pub proof fn lemma_union_of_edge_lists(
    g1: EnumSetDiGraph,
    l1: Seq<(usize, usize)>,
    g2: EnumSetDiGraph,
    l2: Seq<(usize, usize)>,
    u: EnumSetDiGraph,
)
    requires
        is_graph_of_edges(g1, l1),
        is_graph_of_edges(g2, l2),
        is_union_of(u, g1, g2),
    ensures
        is_graph_of_edges(u, l1 + l2),
{
    assert forall|p: (usize, usize)| (l1 + l2).contains(p) == (l1.contains(p) || l2.contains(
        p,
    )) by {
        if l1.contains(p) {
            let i = choose|i: int| 0 <= i < l1.len() && l1[i] == p;
            assert((l1 + l2)[i] == p);
        }
        if l2.contains(p) {
            let i = choose|i: int| 0 <= i < l2.len() && l2[i] == p;
            assert((l1 + l2)[l1.len() + i] == p);
        }
        if (l1 + l2).contains(p) {
            let i = choose|i: int| 0 <= i < (l1 + l2).len() && (l1 + l2)[i] == p;
            if i < l1.len() {
                assert(l1[i] == p);
            } else {
                assert(l2[i - l1.len()] == p);
            }
        }
    }
}

impl Default for EnumSetDiGraph {
    /// The default graph is the empty graph.
    fn default() -> (g: Self)
        ensures
            g.wf(),
            forall|a: int, b: int| !g.spec_edge(a, b),
    {
        EnumSetDiGraph::new()
    }
}

impl PartialEq for EnumSetDiGraph {
    /// Two graphs are equal exactly when all adjacency sets match per node.
    fn eq(&self, other: &Self) -> (r: bool) {
        let r = self.adj == other.adj;
        proof {
            if r {
                assert(self.adj@ =~= other.adj@);
            } else {
                if self.adj@ == other.adj@ {
                    assert(self.adj@.len() == other.adj@.len());
                    assert(forall|i: int|
                        0 <= i < self.adj@.len() ==> self.adj@[i] == other.adj@[i]);
                    assert(false);
                }
            }
        }
        r
    }
}

impl vstd::std_specs::cmp::PartialEqSpecImpl for EnumSetDiGraph {
    open spec fn obeys_eq_spec() -> bool {
        true
    }

    open spec fn eq_spec(&self, other: &EnumSetDiGraph) -> bool {
        self@ == other@
    }
}

/// Lexicographic comparison of adjacency representations in the fixed, stable
/// node order.  It carries no domain meaning; it exists so graphs can serve
/// as keys in ordered containers.
pub open spec fn lex_cmp(a: Seq<u64>, b: Seq<u64>) -> core::cmp::Ordering
    decreases a.len(),
{
    if a.len() == 0 && b.len() == 0 {
        core::cmp::Ordering::Equal
    } else if a.len() == 0 {
        core::cmp::Ordering::Less
    } else if b.len() == 0 {
        core::cmp::Ordering::Greater
    } else if a[0] < b[0] {
        core::cmp::Ordering::Less
    } else if a[0] > b[0] {
        core::cmp::Ordering::Greater
    } else {
        lex_cmp(a.drop_first(), b.drop_first())
    }
}

/// Skipping a common prefix does not change the comparison.
proof fn lemma_lex_cmp_skip(a: Seq<u64>, b: Seq<u64>, i: int)
    requires
        0 <= i <= a.len(),
        i <= b.len(),
        forall|k: int| 0 <= k < i ==> a[k] == b[k],
    ensures
        lex_cmp(a, b) == lex_cmp(a.skip(i), b.skip(i)),
    decreases i,
{
    if i == 0 {
        assert(a.skip(0) =~= a);
        assert(b.skip(0) =~= b);
    } else {
        assert(a[0] == b[0]);
        assert(lex_cmp(a, b) == lex_cmp(a.drop_first(), b.drop_first()));
        lemma_lex_cmp_skip(a.drop_first(), b.drop_first(), i - 1);
        assert(a.drop_first().skip(i - 1) =~= a.skip(i));
        assert(b.drop_first().skip(i - 1) =~= b.skip(i));
    }
}

impl PartialOrd for EnumSetDiGraph {
    /// Compares adjacency representations lexicographically in a fixed,
    /// stable node order.
    fn partial_cmp(&self, other: &Self) -> (r: Option<core::cmp::Ordering>) {
        let a_len: usize = self.adj.len();
        let b_len: usize = other.adj.len();
        let n: usize = if a_len < b_len {
            a_len
        } else {
            b_len
        };
        let mut i: usize = 0;
        while i < n
            invariant
                n <= self.adj@.len(),
                n <= other.adj@.len(),
                i <= n,
                forall|k: int| 0 <= k < i ==> self.adj@[k] == other.adj@[k],
            decreases n - i,
        {
            if self.adj[i] < other.adj[i] {
                proof {
                    lemma_lex_cmp_skip(self.adj@, other.adj@, i as int);
                    assert(self.adj@.skip(i as int)[0] == self.adj@[i as int]);
                    assert(other.adj@.skip(i as int)[0] == other.adj@[i as int]);
                }
                return Some(core::cmp::Ordering::Less);
            }
            if self.adj[i] > other.adj[i] {
                proof {
                    lemma_lex_cmp_skip(self.adj@, other.adj@, i as int);
                    assert(self.adj@.skip(i as int)[0] == self.adj@[i as int]);
                    assert(other.adj@.skip(i as int)[0] == other.adj@[i as int]);
                }
                return Some(core::cmp::Ordering::Greater);
            }
            i += 1;
        }
        proof {
            lemma_lex_cmp_skip(self.adj@, other.adj@, n as int);
        }
        if a_len < b_len {
            proof {
                assert(self.adj@.skip(n as int).len() == 0);
                assert(other.adj@.skip(n as int).len() > 0);
            }
            Some(core::cmp::Ordering::Less)
        } else if a_len > b_len {
            proof {
                assert(other.adj@.skip(n as int).len() == 0);
                assert(self.adj@.skip(n as int).len() > 0);
            }
            Some(core::cmp::Ordering::Greater)
        } else {
            proof {
                assert(self.adj@.skip(n as int).len() == 0);
                assert(other.adj@.skip(n as int).len() == 0);
            }
            Some(core::cmp::Ordering::Equal)
        }
    }
}

impl vstd::std_specs::cmp::PartialOrdSpecImpl for EnumSetDiGraph {
    open spec fn obeys_partial_cmp_spec() -> bool {
        true
    }

    open spec fn partial_cmp_spec(&self, other: &EnumSetDiGraph) -> Option<core::cmp::Ordering> {
        Some(lex_cmp(self@, other@))
    }
}

} // verus!
