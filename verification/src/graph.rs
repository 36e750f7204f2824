//! The component graph and its cycle detector. Nodes are the components of
//! a configuration document, numbered sources first, then transforms, then
//! sinks; an edge A -> B exists when B lists A's name among its inputs.
//! The detector either returns a topological order of all nodes, or
//! certifies that the graph contains a directed cycle.

use vstd::prelude::*;

use crate::config::{Component, Config};
use crate::text::eq_str;

verus! {

/// Whether a component lists the given name among its inputs.
pub open spec fn lists_input(comp: Component, n: Seq<char>) -> bool {
    exists|j: int| 0 <= j < comp.inputs@.len() && (#[trigger] comp.inputs@[j])@ == n
}

/// Edge from node `a` to node `b`: `b` consumes from `a`.
pub open spec fn edge(c: Config, a: int, b: int) -> bool {
    &&& 0 <= a < c.comps().len()
    &&& 0 <= b < c.comps().len()
    &&& lists_input(c.comps()[b], c.comps()[a].name@)
}

/// A witness that the graph contains a directed cycle: a nonempty set of
/// nodes in which every node has an incoming edge from inside the set. Any
/// directed cycle yields such a set (its members), and any such set
/// contains a cycle, since walking incoming edges inside a finite set must
/// revisit a node.
pub open spec fn cycle_set(c: Config, s: Set<int>) -> bool {
    &&& exists|i: int| s.contains(i)
    &&& forall|i: int| s.contains(i) ==> 0 <= i < c.comps().len()
    &&& forall|b: int| s.contains(b) ==> exists|a: int| s.contains(a) && edge(c, a, b)
}

/// The graph contains a directed cycle.
pub open spec fn has_cycle(c: Config) -> bool {
    exists|s: Set<int>| cycle_set(c, s)
}

/// Whether node `v` appears somewhere in the order.
pub open spec fn appears(ord: Seq<usize>, v: int) -> bool {
    exists|q: int| 0 <= q < ord.len() && (#[trigger] ord[q]) == v
}

/// `ord` is a feasible execution order: each node exactly once, and every
/// edge points forward in the order.
pub open spec fn is_topo_order(c: Config, ord: Seq<usize>) -> bool {
    &&& ord.len() == c.comps().len()
    &&& ord.no_duplicates()
    &&& forall|q: int| 0 <= q < ord.len() ==> (#[trigger] ord[q]) < c.comps().len()
    &&& forall|v: int| 0 <= v < c.comps().len() ==> #[trigger] appears(ord, v)
    &&& forall|i: int, j: int|
        0 <= i < ord.len() && 0 <= j < ord.len() && edge(c, ord[i] as int, ord[j] as int) ==> i
            < j
}

/// How many entries of a boolean sequence are true.
pub open spec fn count_true(s: Seq<bool>) -> int
    decreases s.len(),
{
    if s.len() == 0 {
        0
    } else {
        count_true(s.drop_last()) + if s.last() {
            1int
        } else {
            0int
        }
    }
}

proof fn lemma_count_true_bounds(s: Seq<bool>)
    ensures
        0 <= count_true(s) <= s.len(),
    decreases s.len(),
{
    if s.len() > 0 {
        lemma_count_true_bounds(s.drop_last());
    }
}

proof fn lemma_count_some_false(s: Seq<bool>)
    requires
        count_true(s) < s.len(),
    ensures
        exists|i: int| 0 <= i < s.len() && !(#[trigger] s[i]),
    decreases s.len(),
{
    if s.len() > 0 {
        if !s.last() {
            assert(!s[s.len() - 1]);
        } else {
            lemma_count_true_bounds(s.drop_last());
            lemma_count_some_false(s.drop_last());
            let i = choose|i: int| 0 <= i < s.len() - 1 && !(#[trigger] s.drop_last()[i]);
            assert(!s[i]);
        }
    }
}

proof fn lemma_count_update(s: Seq<bool>, i: int)
    requires
        0 <= i < s.len(),
        !s[i],
    ensures
        count_true(s.update(i, true)) == count_true(s) + 1,
    decreases s.len(),
{
    let u = s.update(i, true);
    if i == s.len() - 1 {
        assert(u.drop_last() =~= s.drop_last());
    } else {
        assert(u.drop_last() =~= s.drop_last().update(i, true));
        lemma_count_update(s.drop_last(), i);
    }
}

/// Among the positions of `ord` holding a member of `s`, there is a first
/// one.
proof fn lemma_first_in(ord: Seq<usize>, s: Set<int>, k: int)
    requires
        0 <= k <= ord.len(),
        forall|q: int| 0 <= q < k ==> !s.contains((#[trigger] ord[q]) as int),
        exists|p: int| k <= p < ord.len() && s.contains((#[trigger] ord[p]) as int),
    ensures
        exists|p: int|
            0 <= p < ord.len() && s.contains((#[trigger] ord[p]) as int) && (forall|q: int|
                0 <= q < p ==> !s.contains((#[trigger] ord[q]) as int)),
    decreases ord.len() - k,
{
    if s.contains(ord[k] as int) {
        assert(0 <= k < ord.len() && s.contains((ord[k]) as int) && (forall|q: int|
            0 <= q < k ==> !s.contains((#[trigger] ord[q]) as int)));
    } else {
        let p0 = choose|p: int| k <= p < ord.len() && s.contains((#[trigger] ord[p]) as int);
        assert(p0 >= k + 1);
        lemma_first_in(ord, s, k + 1);
    }
}

/// A graph with a feasible execution order has no directed cycle: the
/// first-ordered member of a would-be cycle set would need an earlier
/// in-set predecessor.
pub proof fn lemma_topo_no_cycle(c: Config, ord: Seq<usize>)
    requires
        is_topo_order(c, ord),
    ensures
        !has_cycle(c),
{
    if has_cycle(c) {
        let s = choose|s: Set<int>| cycle_set(c, s);
        let b0 = choose|i: int| s.contains(i);
        assert(appears(ord, b0));
        let q0 = choose|q: int| 0 <= q < ord.len() && (#[trigger] ord[q]) == b0;
        assert(s.contains(ord[q0] as int));
        lemma_first_in(ord, s, 0);
        let p = choose|p: int|
            0 <= p < ord.len() && s.contains((#[trigger] ord[p]) as int) && (forall|q: int|
                0 <= q < p ==> !s.contains((#[trigger] ord[q]) as int));
        let b = ord[p] as int;
        let a = choose|a: int| s.contains(a) && edge(c, a, b);
        assert(appears(ord, a));
        let q2 = choose|q: int| 0 <= q < ord.len() && (#[trigger] ord[q]) == a;
        assert(s.contains(ord[q2] as int));
        assert(q2 >= p);
        assert(edge(c, ord[q2] as int, ord[p] as int));
        assert(q2 < p);
    }
}

/// The component at global node index `i`.
pub fn comp_at(c: &Config, i: usize) -> (r: &Component)
    requires
        i < c.comps().len(),
    ensures
        *r == c.comps()[i as int],
{
    if i < c.sources.len() {
        &c.sources[i]
    } else if i - c.sources.len() < c.transforms.len() {
        &c.transforms[i - c.sources.len()]
    } else {
        &c.sinks[i - c.sources.len() - c.transforms.len()]
    }
}

/// Whether the edge `a -> b` is present.
pub fn has_edge(c: &Config, a: usize, b: usize) -> (r: bool)
    requires
        a < c.comps().len(),
        b < c.comps().len(),
    ensures
        r == edge(*c, a as int, b as int),
{
    let target = comp_at(c, b);
    let name = &comp_at(c, a).name;
    let mut j: usize = 0;
    while j < target.inputs.len()
        invariant
            j <= target.inputs@.len(),
            *target == c.comps()[b as int],
            *name == c.comps()[a as int].name,
            a < c.comps().len(),
            b < c.comps().len(),
            forall|k: int| 0 <= k < j ==> (#[trigger] target.inputs@[k])@ != name@,
        decreases target.inputs@.len() - j,
    {
        if eq_str(target.inputs[j].as_str(), name.as_str()) {
            return true;
        }
        j = j + 1;
    }
    false
}

/// Whether node `b` still has an incoming edge from a node not yet removed.
fn has_unremoved_pred(c: &Config, removed: &Vec<bool>, b: usize) -> (r: bool)
    requires
        b < c.comps().len(),
        removed@.len() == c.comps().len(),
    ensures
        r == exists|a: int|
            0 <= a < c.comps().len() && !removed@[a] && edge(*c, a, b as int),
{
    let n = removed.len();
    let mut a: usize = 0;
    while a < n
        invariant
            a <= n,
            n == removed@.len() == c.comps().len(),
            b < c.comps().len(),
            forall|k: int| 0 <= k < a ==> !(!removed@[k] && edge(*c, k, b as int)),
        decreases n - a,
    {
        if !removed[a] && has_edge(c, a, b) {
            return true;
        }
        a = a + 1;
    }
    false
}

/// Find a node that is not yet removed and has no incoming edge from an
/// unremoved node.
fn find_ready(c: &Config, removed: &Vec<bool>) -> (r: Option<usize>)
    requires
        removed@.len() == c.comps().len(),
    ensures
        match r {
            Some(b) => b < c.comps().len() && !removed@[b as int] && (forall|a: int|
                0 <= a < c.comps().len() ==> !(!removed@[a] && edge(*c, a, b as int))),
            None => forall|b: int|
                0 <= b < c.comps().len() && !removed@[b] ==> exists|a: int|
                    0 <= a < c.comps().len() && !removed@[a] && #[trigger] edge(*c, a, b),
        },
{
    let n = removed.len();
    let mut b: usize = 0;
    while b < n
        invariant
            b <= n,
            n == removed@.len() == c.comps().len(),
            forall|k: int|
                0 <= k < b && !removed@[k] ==> exists|a: int|
                    0 <= a < c.comps().len() && !removed@[a] && #[trigger] edge(*c, a, k),
        decreases n - b,
    {
        if !removed[b] {
            if !has_unremoved_pred(c, removed, b) {
                return Some(b);
            }
        }
        b = b + 1;
    }
    None
}

/// The quantity of loop state the detector maintains: the removed flags
/// and the partial order agree, the partial order is duplicate-free and
/// in-range, and every predecessor of an ordered node sits earlier in the
/// order.
spec fn kahn_inv(c: Config, removed: Seq<bool>, ord: Seq<usize>) -> bool {
    &&& removed.len() == c.comps().len()
    &&& ord.len() == count_true(removed)
    &&& ord.len() <= c.comps().len()
    &&& ord.no_duplicates()
    &&& forall|q: int| 0 <= q < ord.len() ==> (#[trigger] ord[q]) < c.comps().len()
    &&& forall|v: int|
        0 <= v < c.comps().len() ==> ((#[trigger] removed[v]) <==> appears(ord, v))
    &&& forall|p: int, a: int|
        0 <= p < ord.len() && edge(c, a, ord[p] as int) ==> exists|q: int|
            0 <= q < p && (#[trigger] ord[q]) == a
}

proof fn lemma_kahn_init(c: Config, removed: Seq<bool>)
    requires
        removed.len() == c.comps().len(),
        forall|k: int| 0 <= k < removed.len() ==> !(#[trigger] removed[k]),
    ensures
        kahn_inv(c, removed, Seq::<usize>::empty()),
{
    lemma_count_zero(removed);
}

proof fn lemma_kahn_push(c: Config, removed: Seq<bool>, ord: Seq<usize>, b: usize)
    requires
        kahn_inv(c, removed, ord),
        b < c.comps().len(),
        !removed[b as int],
        forall|a: int| 0 <= a < c.comps().len() ==> !(!removed[a] && edge(c, a, b as int)),
    ensures
        kahn_inv(c, removed.update(b as int, true), ord.push(b)),
{
    let removed2 = removed.update(b as int, true);
    let ord2 = ord.push(b);
    lemma_count_update(removed, b as int);
    lemma_count_true_bounds(removed2);
    assert(!appears(ord, b as int));
    assert(forall|q: int| 0 <= q < ord.len() ==> (#[trigger] ord[q]) != b);
    assert forall|i2: int, j2: int| 0 <= i2 < j2 < ord2.len() implies ord2[i2] != ord2[j2] by {
        if j2 < ord2.len() - 1 {
            assert(ord[i2] != ord[j2]);
        } else {
            assert(ord2[i2] == ord[i2]);
        }
    }
    assert(ord2.no_duplicates());
    assert forall|v: int| 0 <= v < c.comps().len() implies ((#[trigger] removed2[v])
        <==> appears(ord2, v)) by {
        if v == b as int {
            assert(ord2[ord2.len() - 1] == v);
            assert(appears(ord2, v));
        } else {
            assert(removed2[v] == removed[v]);
            if removed[v] {
                assert(appears(ord, v));
                let q = choose|q: int| 0 <= q < ord.len() && (#[trigger] ord[q]) == v;
                assert(ord2[q] == v);
                assert(appears(ord2, v));
            } else {
                if appears(ord2, v) {
                    let q = choose|q: int| 0 <= q < ord2.len() && (#[trigger] ord2[q]) == v;
                    assert(q < ord2.len() - 1);
                    assert(ord[q] == v);
                    assert(appears(ord, v));
                }
            }
        }
    }
    assert forall|p: int, a: int|
        0 <= p < ord2.len() && edge(c, a, ord2[p] as int) implies exists|q: int|
        0 <= q < p && (#[trigger] ord2[q]) == a by {
        if p < ord2.len() - 1 {
            assert(ord2[p] == ord[p]);
            let q = choose|q: int| 0 <= q < p && (#[trigger] ord[q]) == a;
            assert(ord2[q] == a);
        } else {
            assert(ord2[p] == b);
            assert(0 <= a < c.comps().len());
            assert(removed[a]);
            assert(appears(ord, a));
            let q = choose|q: int| 0 <= q < ord.len() && (#[trigger] ord[q]) == a;
            assert(ord2[q] == a);
        }
    }
}

proof fn lemma_kahn_done(c: Config, removed: Seq<bool>, ord: Seq<usize>)
    requires
        kahn_inv(c, removed, ord),
        ord.len() == c.comps().len(),
    ensures
        is_topo_order(c, ord),
        !has_cycle(c),
{
    lemma_count_all_true(removed);
    assert forall|v: int| 0 <= v < c.comps().len() implies #[trigger] appears(ord, v) by {
        assert(removed[v]);
    }
    assert forall|i2: int, j2: int|
        0 <= i2 < ord.len() && 0 <= j2 < ord.len() && edge(
            c,
            ord[i2] as int,
            ord[j2] as int,
        ) implies i2 < j2 by {
        let q = choose|q: int| 0 <= q < j2 && (#[trigger] ord[q]) == ord[i2];
        assert(q == i2);
    }
    lemma_topo_no_cycle(c, ord);
}

proof fn lemma_kahn_stuck(c: Config, removed: Seq<bool>, ord: Seq<usize>)
    requires
        kahn_inv(c, removed, ord),
        ord.len() < c.comps().len(),
        forall|b: int|
            0 <= b < c.comps().len() && !removed[b] ==> exists|a: int|
                0 <= a < c.comps().len() && !removed[a] && #[trigger] edge(c, a, b),
    ensures
        has_cycle(c),
{
    let n = c.comps().len() as int;
    lemma_count_some_false(removed);
    let s = Set::new(|v: int| 0 <= v < n && !removed[v]);
    let w = choose|i2: int| 0 <= i2 < removed.len() && !(#[trigger] removed[i2]);
    assert(s.contains(w));
    assert forall|b2: int| s.contains(b2) implies exists|a: int|
        s.contains(a) && edge(c, a, b2) by {
        assert(0 <= b2 < n && !removed[b2]);
        let a = choose|a: int| 0 <= a < c.comps().len() && !removed[a] && #[trigger] edge(c, a, b2);
        assert(s.contains(a) && edge(c, a, b2));
    }
    assert(cycle_set(c, s));
}

/// Order the nodes so that every edge points forward, or certify that the
/// graph contains a directed cycle.
pub fn toposort(c: &Config) -> (r: Result<Vec<usize>, ()>)
    requires
        c.comps().len() <= usize::MAX,
    ensures
        match r {
            Ok(ord) => is_topo_order(*c, ord@) && !has_cycle(*c),
            Err(_) => has_cycle(*c),
        },
{
    let ghost n = c.comps().len() as int;
    let nn: usize = c.sources.len() + c.transforms.len() + c.sinks.len();
    let mut removed: Vec<bool> = Vec::new();
    let mut i: usize = 0;
    while i < nn
        invariant
            i <= nn,
            removed@.len() == i,
            forall|k: int| 0 <= k < i ==> !(#[trigger] removed@[k]),
        decreases nn - i,
    {
        removed.push(false);
        i = i + 1;
    }
    let mut ord: Vec<usize> = Vec::new();
    proof {
        lemma_kahn_init(*c, removed@);
        assert(ord@ =~= Seq::<usize>::empty());
    }
    loop
        invariant
            n == c.comps().len(),
            n <= usize::MAX,
            nn == n,
            kahn_inv(*c, removed@, ord@),
        decreases n - ord@.len(),
    {
        if ord.len() >= nn {
            proof {
                lemma_kahn_done(*c, removed@, ord@);
            }
            return Ok(ord);
        }
        match find_ready(c, &removed) {
            Some(b) => {
                proof {
                    lemma_kahn_push(*c, removed@, ord@, b);
                }
                removed.set(b, true);
                ord.push(b);
            },
            None => {
                proof {
                    lemma_kahn_stuck(*c, removed@, ord@);
                }
                return Err(());
            },
        }
    }
}

proof fn lemma_count_zero(s: Seq<bool>)
    requires
        forall|k: int| 0 <= k < s.len() ==> !(#[trigger] s[k]),
    ensures
        count_true(s) == 0,
    decreases s.len(),
{
    if s.len() > 0 {
        lemma_count_zero(s.drop_last());
    }
}

proof fn lemma_count_all_true(s: Seq<bool>)
    requires
        count_true(s) == s.len(),
    ensures
        forall|i: int| 0 <= i < s.len() ==> #[trigger] s[i],
    decreases s.len(),
{
    if s.len() > 0 {
        lemma_count_true_bounds(s.drop_last());
        lemma_count_all_true(s.drop_last());
        assert forall|i: int| 0 <= i < s.len() implies #[trigger] s[i] by {
            if i < s.len() - 1 {
                assert(s.drop_last()[i]);
            }
        }
    }
}

} // verus!
