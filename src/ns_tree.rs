use vstd::prelude::*;
use crate::names::{QualifiedName, QnView, strings_view, strings_eq, clone_strings};
use crate::context::names_view;

verus! {

/// Whether the namespace `p` is `ns` or encloses it.
pub open spec fn is_prefix(p: Seq<Seq<char>>, ns: Seq<Seq<char>>) -> bool {
    p.len() <= ns.len() && ns.subrange(0, p.len() as int) == p
}

/// The positions of the names whose namespace is exactly `p`, among the
/// first `n`, in increasing order.
pub open spec fn level_indices(names: Seq<QnView>, p: Seq<Seq<char>>, n: int) -> Seq<int>
    decreases n,
{
    if n <= 0 {
        seq![]
    } else if names[n - 1].ns == p {
        level_indices(names, p, n - 1).push(n - 1)
    } else {
        level_indices(names, p, n - 1)
    }
}

/// Whether some name lies in `p` or below it.
pub open spec fn has_below(names: Seq<QnView>, p: Seq<Seq<char>>) -> bool {
    exists|i: int| 0 <= i < names.len() && is_prefix(p, (#[trigger] names[i]).ns)
}

/// One namespace of the tree: its path, the positions of the entries that
/// belong exactly there, and the nodes of its child namespaces.
pub struct NsNode {
    pub path: Vec<String>,
    pub entries: Vec<usize>,
    pub children: Vec<usize>,
}

pub open spec fn usizes_view(v: Seq<usize>) -> Seq<int> {
    v.map_values(|x: usize| x as int)
}

/// The namespace path of node `k`.
pub open spec fn node_path(nodes: Seq<NsNode>, k: int) -> Seq<Seq<char>> {
    strings_view(nodes[k].path@)
}

/// The path of the `j`th child of node `k`.
pub open spec fn child_path(nodes: Seq<NsNode>, k: int, j: int) -> Seq<Seq<char>> {
    node_path(nodes, nodes[k].children@[j] as int)
}

pub open spec fn wf_children(nodes: Seq<NsNode>, names: Seq<QnView>, k: int) -> bool {
    forall|j: int| 0 <= j < nodes[k].children@.len() ==> {
        &&& 0 <= #[trigger] nodes[k].children@[j] < k
        &&& child_path(nodes, k, j).len() == node_path(nodes, k).len() + 1
        &&& child_path(nodes, k, j).drop_last() == node_path(nodes, k)
        &&& has_below(names, child_path(nodes, k, j))
    }
}

pub open spec fn wf_distinct(nodes: Seq<NsNode>, k: int) -> bool {
    forall|a: int, b: int| 0 <= a < b < nodes[k].children@.len() ==>
        child_path(nodes, k, a).last() != child_path(nodes, k, b).last()
}

pub open spec fn wf_cover(nodes: Seq<NsNode>, names: Seq<QnView>, k: int) -> bool {
    forall|i: int| 0 <= i < names.len() && is_prefix(node_path(nodes, k), (#[trigger] names[i]).ns)
        && names[i].ns.len() > node_path(nodes, k).len() ==>
        exists|j: int| 0 <= j < nodes[k].children@.len()
            && child_path(nodes, k, j) == names[i].ns.subrange(0, node_path(nodes, k).len() as int + 1)
}

/// Node `k` is well formed: it holds exactly its namespace's entries, its
/// children come before it, each one namespace deeper under a distinct
/// segment with some entry at or below it, and every deeper entry lies under one.
pub open spec fn node_wf(nodes: Seq<NsNode>, names: Seq<QnView>, k: int) -> bool {
    &&& usizes_view(nodes[k].entries@) == level_indices(names, node_path(nodes, k), names.len() as int)
    &&& wf_children(nodes, names, k)
    &&& wf_distinct(nodes, k)
    &&& wf_cover(nodes, names, k)
}

/// All namespaces of a list of names, the root last.
pub struct NsTree {
    pub nodes: Vec<NsNode>,
}

pub open spec fn tree_wf(t: NsTree, names: Seq<QnView>) -> bool {
    &&& t.nodes@.len() > 0
    &&& strings_view(t.nodes@.last().path@).len() == 0
    &&& forall|k: int| 0 <= k < t.nodes@.len() ==> node_wf(t.nodes@, names, k)
}

fn is_prefix_exec(p: &Vec<String>, ns: &Vec<String>) -> (r: bool)
    ensures
        r == is_prefix(strings_view(p@), strings_view(ns@)),
{
    if p.len() > ns.len() {
        return false;
    }
    let mut i: usize = 0;
    while i < p.len()
        invariant
            i <= p.len() <= ns.len(),
            forall|k: int| 0 <= k < i ==> p@[k]@ == ns@[k]@,
        decreases p.len() - i,
    {
        if p[i] != ns[i] {
            assert(strings_view(ns@).subrange(0, p.len() as int)[i as int] != strings_view(p@)[i as int]);
            return false;
        }
        i = i + 1;
    }
    assert(strings_view(ns@).subrange(0, p.len() as int) =~= strings_view(p@));
    true
}

fn level_entries(names: &Vec<QualifiedName>, p: &Vec<String>) -> (r: Vec<usize>)
    ensures
        usizes_view(r@) == level_indices(names_view(names@), strings_view(p@), names.len() as int),
{
    let mut r: Vec<usize> = Vec::new();
    let mut i: usize = 0;
    while i < names.len()
        invariant
            i <= names.len(),
            usizes_view(r@) == level_indices(names_view(names@), strings_view(p@), i as int),
        decreases names.len() - i,
    {
        let ghost before = r@;
        if strings_eq(&names[i].ns, p) {
            r.push(i);
            assert(usizes_view(r@) =~= usizes_view(before).push(i as int));
        }
        assert(names_view(names@)[i as int] == names@[i as int]@);
        i = i + 1;
    }
    r
}

/// The distinct segments just below `p` under which some name lies, in
/// order of first appearance.
fn child_segments(names: &Vec<QualifiedName>, p: &Vec<String>) -> (r: Vec<String>)
    ensures
        forall|i: int| 0 <= i < names.len() && is_prefix(strings_view(p@), (#[trigger] names_view(names@)[i]).ns)
            && names_view(names@)[i].ns.len() > p.len() ==>
            strings_view(r@).contains(names_view(names@)[i].ns[p.len() as int]),
        forall|j: int| 0 <= j < r.len() ==> has_below(names_view(names@), strings_view(p@).push(#[trigger] r@[j]@)),
        forall|a: int, b: int| 0 <= a < b < r.len() ==> r@[a]@ != r@[b]@,
{
    let mut r: Vec<String> = Vec::new();
    let mut i: usize = 0;
    let ghost nv = names_view(names@);
    let ghost pv = strings_view(p@);
    while i < names.len()
        invariant
            i <= names.len(),
            nv == names_view(names@),
            pv == strings_view(p@),
            forall|k: int| 0 <= k < i && is_prefix(pv, (#[trigger] nv[k]).ns) && nv[k].ns.len() > pv.len() ==>
                strings_view(r@).contains(nv[k].ns[pv.len() as int]),
            forall|j: int| 0 <= j < r.len() ==> has_below(nv, pv.push(#[trigger] r@[j]@)),
            forall|a: int, b: int| 0 <= a < b < r.len() ==> r@[a]@ != r@[b]@,
        decreases names.len() - i,
    {
        let ghost before = r@;
        let ns = &names[i].ns;
        assert(nv[i as int] == names@[i as int]@);
        if ns.len() > p.len() && is_prefix_exec(p, ns) {
            let seg = &ns[p.len()];
            let mut found = false;
            let mut j: usize = 0;
            while j < r.len()
                invariant
                    j <= r.len(),
                    !found ==> forall|k: int| 0 <= k < j ==> r@[k]@ != seg@,
                    found ==> strings_view(r@).contains(seg@),
                decreases r.len() - j,
            {
                if r[j] == *seg {
                    found = true;
                    assert(strings_view(r@)[j as int] == seg@);
                }
                j = j + 1;
            }
            if !found {
                r.push(seg.clone());
                proof {
                    assert(strings_view(r@)[r.len() - 1] == seg@);
                    let q = pv.push(seg@);
                    assert(strings_view(ns@).subrange(0, q.len() as int) =~= q);
                    assert(is_prefix(q, nv[i as int].ns));
                    assert(has_below(nv, q));
                    assert forall|j2: int| 0 <= j2 < r.len() implies has_below(nv, pv.push(#[trigger] r@[j2]@)) by {
                        if j2 < before.len() {
                            assert(r@[j2] == before[j2]);
                        }
                    }
                    assert forall|a: int, b: int| 0 <= a < b < r.len() implies r@[a]@ != r@[b]@ by {
                        if b < before.len() {
                            assert(r@[a] == before[a]);
                            assert(r@[b] == before[b]);
                        } else {
                            assert(r@[a] == before[a]);
                        }
                    }
                }
            }
            proof {
                assert forall|k: int| 0 <= k < i + 1 && is_prefix(pv, (#[trigger] nv[k]).ns) && nv[k].ns.len() > pv.len() implies
                    strings_view(r@).contains(nv[k].ns[pv.len() as int]) by {
                    if k < i {
                        let m = choose|m: int| 0 <= m < strings_view(before).len() && strings_view(before)[m] == nv[k].ns[pv.len() as int];
                        assert(r@[m] == before[m]);
                        assert(strings_view(r@)[m] == nv[k].ns[pv.len() as int]);
                    }
                }
            }
        }
        i = i + 1;
    }
    r
}

} // verus!

verus! {

proof fn lemma_wf_stable(a: Seq<NsNode>, b: Seq<NsNode>, names: Seq<QnView>, k: int)
    requires
        a.len() <= b.len(),
        forall|x: int| 0 <= x < a.len() ==> b[x] == a[x],
        0 <= k < a.len(),
        node_wf(a, names, k),
    ensures
        node_wf(b, names, k),
{
    assert(b[k] == a[k]);
    assert forall|j: int| 0 <= j < a[k].children@.len() implies child_path(b, k, j) == child_path(a, k, j) by {
        assert(0 <= a[k].children@[j] < k);
        assert(b[a[k].children@[j] as int] == a[a[k].children@[j] as int]);
    }
    assert(wf_children(b, names, k));
    assert(wf_distinct(b, k));
    assert forall|i: int| 0 <= i < names.len() && is_prefix(node_path(b, k), (#[trigger] names[i]).ns)
        && names[i].ns.len() > node_path(b, k).len() implies
        exists|j: int| 0 <= j < b[k].children@.len()
            && child_path(b, k, j) == names[i].ns.subrange(0, node_path(b, k).len() as int + 1) by {
        assert(wf_cover(a, names, k));
        let j = choose|j: int| 0 <= j < a[k].children@.len()
            && child_path(a, k, j) == names[i].ns.subrange(0, node_path(a, k).len() as int + 1);
        assert(child_path(b, k, j) == child_path(a, k, j));
    }
}

fn build_node(names: &Vec<QualifiedName>, prefix: &Vec<String>, nodes: &mut Vec<NsNode>, max_depth: usize) -> (r: usize)
    requires
        forall|i: int| 0 <= i < names.len() ==> (#[trigger] names@[i]).ns@.len() <= max_depth,
        prefix.len() <= max_depth,
        forall|k: int| 0 <= k < old(nodes)@.len() ==> node_wf(old(nodes)@, names_view(names@), k),
    ensures
        final(nodes)@.len() > old(nodes)@.len(),
        forall|x: int| 0 <= x < old(nodes)@.len() ==> final(nodes)@[x] == old(nodes)@[x],
        r == final(nodes)@.len() - 1,
        strings_view(final(nodes)@[r as int].path@) == strings_view(prefix@),
        forall|k: int| 0 <= k < final(nodes)@.len() ==> node_wf(final(nodes)@, names_view(names@), k),
    decreases max_depth - prefix.len(),
{
    let ghost nv = names_view(names@);
    let ghost pv = strings_view(prefix@);
    let ghost start = nodes@;
    let entries = level_entries(names, prefix);
    let segs = child_segments(names, prefix);
    let mut children: Vec<usize> = Vec::new();
    let mut j: usize = 0;
    while j < segs.len()
        invariant
            j <= segs.len(),
            nv == names_view(names@),
            pv == strings_view(prefix@),
            forall|i: int| 0 <= i < names.len() ==> (#[trigger] names@[i]).ns@.len() <= max_depth,
            prefix.len() <= max_depth,
            forall|j2: int| 0 <= j2 < segs.len() ==> has_below(nv, pv.push(#[trigger] segs@[j2]@)),
            nodes@.len() >= start.len(),
            forall|x: int| 0 <= x < start.len() ==> nodes@[x] == start[x],
            forall|k: int| 0 <= k < nodes@.len() ==> node_wf(nodes@, nv, k),
            children@.len() == j,
            forall|k: int| 0 <= k < j ==> (#[trigger] children@[k]) < nodes@.len()
                && strings_view(nodes@[children@[k] as int].path@) == pv.push(segs@[k]@),
        decreases segs.len() - j,
    {
        let mut child_path = clone_strings(prefix);
        child_path.push(segs[j].clone());
        assert(strings_view(child_path@) =~= pv.push(segs@[j as int]@));
        proof {
            let q = pv.push(segs@[j as int]@);
            assert(has_below(nv, q));
            let i = choose|i: int| 0 <= i < nv.len() && is_prefix(q, (#[trigger] nv[i]).ns);
            assert(names@[i].ns@.len() <= max_depth);
        }
        let ghost before = nodes@;
        let c = build_node(names, &child_path, nodes, max_depth);
        proof {
            assert forall|k: int| 0 <= k < j implies (#[trigger] children@[k]) < nodes@.len()
                && strings_view(nodes@[children@[k] as int].path@) == pv.push(segs@[k]@) by {
                assert(nodes@[children@[k] as int] == before[children@[k] as int]);
            }
        }
        children.push(c);
        j = j + 1;
    }
    let ghost pre_push = nodes@;
    let node = NsNode { path: clone_strings(prefix), entries, children };
    nodes.push(node);
    let r = nodes.len() - 1;
    proof {
        let all = nodes@;
        assert forall|k: int| 0 <= k < pre_push.len() implies node_wf(all, nv, k) by {
            lemma_wf_stable(pre_push, all, nv, k);
        }
        let n = all[r as int];
        let k = r as int;
        assert(node_path(all, k) == pv);
        assert forall|j2: int| 0 <= j2 < n.children@.len() implies child_path(all, k, j2) == pv.push(segs@[j2]@) by {
            assert(all[n.children@[j2] as int] == pre_push[n.children@[j2] as int]);
        }
        assert forall|j2: int| 0 <= j2 < n.children@.len() implies {
            &&& 0 <= #[trigger] all[k].children@[j2] < k
            &&& child_path(all, k, j2).len() == node_path(all, k).len() + 1
            &&& child_path(all, k, j2).drop_last() == node_path(all, k)
            &&& has_below(nv, child_path(all, k, j2))
        } by {
            assert(pv.push(segs@[j2]@).drop_last() =~= pv);
        }
        assert(wf_children(all, nv, k));
        assert(wf_distinct(all, k));
        assert forall|i: int| 0 <= i < nv.len() && is_prefix(node_path(all, k), (#[trigger] nv[i]).ns)
            && nv[i].ns.len() > node_path(all, k).len() implies
            exists|j2: int| 0 <= j2 < all[k].children@.len()
                && child_path(all, k, j2) == nv[i].ns.subrange(0, node_path(all, k).len() as int + 1) by {
            assert(strings_view(segs@).contains(nv[i].ns[pv.len() as int]));
            let m = choose|m: int| 0 <= m < strings_view(segs@).len() && strings_view(segs@)[m] == nv[i].ns[pv.len() as int];
            assert(nv[i].ns.subrange(0, pv.len() as int + 1) =~= pv.push(segs@[m]@));
            assert(child_path(all, k, m) == pv.push(segs@[m]@));
        }
        assert(wf_cover(all, nv, k));
        assert(node_wf(all, nv, r as int));
    }
    r
}

} // verus!

verus! {

/// Groups names by namespace into a tree of nodes, children before their
/// parents and the root last.
pub fn build_tree(names: &Vec<QualifiedName>) -> (r: NsTree)
    ensures
        tree_wf(r, names_view(names@)),
{
    let mut max_depth: usize = 0;
    let mut i: usize = 0;
    while i < names.len()
        invariant
            i <= names.len(),
            forall|k: int| 0 <= k < i ==> (#[trigger] names@[k]).ns@.len() <= max_depth,
        decreases names.len() - i,
    {
        if names[i].ns.len() > max_depth {
            max_depth = names[i].ns.len();
        }
        i = i + 1;
    }
    let mut nodes: Vec<NsNode> = Vec::new();
    let root: Vec<String> = Vec::new();
    let r = build_node(names, &root, &mut nodes, max_depth);
    assert(strings_view(root@) =~= Seq::<Seq<char>>::empty());
    NsTree { nodes }
}

pub(crate) proof fn lemma_level_indices(names: Seq<QnView>, p: Seq<Seq<char>>, n: int)
    requires
        0 <= n <= names.len(),
    ensures
        forall|a: int| 0 <= a < level_indices(names, p, n).len() ==> {
            let x = #[trigger] level_indices(names, p, n)[a];
            0 <= x < n && names[x].ns == p
        },
        forall|a: int, b: int| 0 <= a < b < level_indices(names, p, n).len() ==>
            level_indices(names, p, n)[a] < level_indices(names, p, n)[b],
        forall|x: int| 0 <= x < n && names[x].ns == p ==> level_indices(names, p, n).contains(x),
    decreases n,
{
    if n > 0 {
        lemma_level_indices(names, p, n - 1);
        let pre = level_indices(names, p, n - 1);
        if names[n - 1].ns == p {
            assert(level_indices(names, p, n) == pre.push(n - 1));
            assert(level_indices(names, p, n)[pre.len() as int] == n - 1);
            assert forall|x: int| 0 <= x < n && names[x].ns == p implies level_indices(names, p, n).contains(x) by {
                if x < n - 1 {
                    assert(names[x].ns == p);
                    assert(pre.contains(x));
                    let m = choose|m: int| 0 <= m < pre.len() && pre[m] == x;
                    assert(level_indices(names, p, n)[m] == x);
                }
            }
        }
    }
}

/// Grouping by namespace keeps order and leaves no empty scope: the entries
/// of every node are exactly the names whose namespace is the node's path,
/// in their input order, and every child namespace has some name at or below it.
pub proof fn namespace_tree_keeps_order_and_prunes(t: NsTree, names: Seq<QnView>, k: int)
    requires
        tree_wf(t, names),
        0 <= k < t.nodes@.len(),
    ensures
        forall|a: int| 0 <= a < t.nodes@[k].entries@.len() ==>
            names[#[trigger] t.nodes@[k].entries@[a] as int].ns == node_path(t.nodes@, k),
        forall|x: int| 0 <= x < names.len() && names[x].ns == node_path(t.nodes@, k) ==>
            usizes_view(t.nodes@[k].entries@).contains(x),
        forall|a: int, b: int| 0 <= a < b < t.nodes@[k].entries@.len() ==>
            t.nodes@[k].entries@[a] < t.nodes@[k].entries@[b],
        forall|j: int| 0 <= j < t.nodes@[k].children@.len() ==> has_below(names, #[trigger] child_path(t.nodes@, k, j)),
{
    assert(node_wf(t.nodes@, names, k));
    let p = node_path(t.nodes@, k);
    lemma_level_indices(names, p, names.len() as int);
    let e = t.nodes@[k].entries@;
    assert forall|a: int| 0 <= a < e.len() implies names[#[trigger] e[a] as int].ns == p by {
        assert(usizes_view(e)[a] == e[a] as int);
    }
    assert forall|a: int, b: int| 0 <= a < b < e.len() implies e[a] < e[b] by {
        assert(usizes_view(e)[a] == e[a] as int);
        assert(usizes_view(e)[b] == e[b] as int);
    }
    assert forall|j: int| 0 <= j < t.nodes@[k].children@.len() implies has_below(names, #[trigger] child_path(t.nodes@, k, j)) by {
        assert(wf_children(t.nodes@, names, k));
        assert(0 <= t.nodes@[k].children@[j] < k);
    }
}

} // verus!
