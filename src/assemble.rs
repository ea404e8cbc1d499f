use vstd::prelude::*;
use crate::names::{QualifiedName, QnView, strings_view};
use crate::model::{CodegenResult, CodegenResultV, GenItemV, Use, UseV, items_view, uses_view};
use crate::context::names_view;
use crate::text::{join, join_strings, cat3, cat5};
use crate::emit_common::{render_supers, supers_text};
use crate::bridge_types::{ns_path_prefix, render_ns_prefix};
use crate::ns_tree::{NsNode, NsTree, node_path};
use crate::ns_tree::{child_path, has_below, is_prefix, lemma_level_indices, node_wf, tree_wf, usizes_view, wf_children};

verus! {

pub open spec fn results_view(v: Seq<CodegenResult>) -> Seq<CodegenResultV> {
    v.map_values(|r: CodegenResult| r@)
}

/// The public re-export of `name` that a materialization asks for.
pub open spec fn use_text(name: QnView, m: UseV) -> Seq<char> {
    let up = supers_text(name.ns.len());
    match m {
        UseV::UsedFromCxxBridge => "pub use "@ + up + "cxxbridge::"@ + name.id + ";"@,
        UseV::UsedFromCxxBridgeWithAlias(a) => "pub use "@ + up + "cxxbridge::"@ + name.id + " as "@ + a + ";"@,
        UseV::UsedFromBindgen => "pub use "@ + up + "bindgen::root::"@ + ns_path_prefix(name.ns) + name.id + ";"@,
        UseV::SpecificNameFromBindgen(id) => "pub use "@ + up + "bindgen::root::"@ + ns_path_prefix(name.ns) + id + ";"@,
        UseV::Custom(item) => item.text,
    }
}

/// The re-exports of the given entries, in order.
pub open spec fn entry_uses(names: Seq<QnView>, results: Seq<CodegenResultV>, es: Seq<usize>) -> Seq<Seq<char>>
    decreases es.len(),
{
    if es.len() == 0 {
        seq![]
    } else {
        let e = es.last() as int;
        entry_uses(names, results, es.drop_last()) + results[e].materializations.map_values(|m: UseV| use_text(names[e], m))
    }
}

/// A nested module holding items.
pub open spec fn mod_text(seg: Seq<char>, items: Seq<Seq<char>>) -> Seq<char> {
    "pub mod "@ + seg + " { "@ + join(items, " "@) + " }"@
}

/// The re-export items of node `k`, given what its children rendered to.
pub open spec fn use_level(nodes: Seq<NsNode>, names: Seq<QnView>, results: Seq<CodegenResultV>, k: int, rendered: Seq<Seq<Seq<char>>>) -> Seq<Seq<char>> {
    entry_uses(names, results, nodes[k].entries@)
        + nodes[k].children@.map_values(|c: usize| mod_text(node_path(nodes, c as int).last(), rendered[c as int]))
}

fn use_stmt(name: &QualifiedName, m: &Use) -> (r: String)
    ensures
        r@ == use_text(name@, m@),
{
    let up = render_supers(name.ns.len());
    match m {
        Use::UsedFromCxxBridge => cat5("pub use ", up.as_str(), "cxxbridge::", name.id.as_str(), ";"),
        Use::UsedFromCxxBridgeWithAlias(a) => {
            let mut t = cat5("pub use ", up.as_str(), "cxxbridge::", name.id.as_str(), " as ");
            t.append(a.as_str());
            t.append(";");
            t
        },
        Use::UsedFromBindgen => {
            let p = render_ns_prefix(&name.ns);
            cat5("pub use ", up.as_str(), "bindgen::root::", p.as_str(), name.id.as_str()).concat(";")
        },
        Use::SpecificNameFromBindgen(id) => {
            let p = render_ns_prefix(&name.ns);
            cat5("pub use ", up.as_str(), "bindgen::root::", p.as_str(), id.as_str()).concat(";")
        },
        Use::Custom(item) => item.text.clone(),
    }
}

fn append_entry_uses(names: &Vec<QualifiedName>, results: &Vec<CodegenResult>, es: &Vec<usize>, out: &mut Vec<String>)
    requires
        forall|a: int| 0 <= a < es.len() ==> (#[trigger] es@[a]) < names.len() && es@[a] < results.len(),
    ensures
        strings_view(final(out)@) == strings_view(old(out)@) + entry_uses(names_view(names@), results_view(results@), es@),
{
    let ghost nv = names_view(names@);
    let ghost rv = results_view(results@);
    let ghost start = strings_view(out@);
    let mut i: usize = 0;
    while i < es.len()
        invariant
            i <= es.len(),
            nv == names_view(names@),
            rv == results_view(results@),
            forall|a: int| 0 <= a < es.len() ==> (#[trigger] es@[a]) < names.len() && es@[a] < results.len(),
            strings_view(out@) == start + entry_uses(nv, rv, es@.subrange(0, i as int)),
        decreases es.len() - i,
    {
        let e = es[i];
        let ms = &results[e].materializations;
        let ghost mid = strings_view(out@);
        let mut j: usize = 0;
        while j < ms.len()
            invariant
                j <= ms.len(),
                e < names.len(),
                ms == &results@[e as int].materializations,
                strings_view(out@) == mid + uses_view(ms@).subrange(0, j as int).map_values(|m: UseV| use_text(names@[e as int]@, m)),
            decreases ms.len() - j,
        {
            let t = use_stmt(&names[e], &ms[j]);
            let ghost o = strings_view(out@);
            out.push(t);
            assert(strings_view(out@) =~= o.push(t@));
            assert(uses_view(ms@).subrange(0, j + 1).map_values(|m: UseV| use_text(names@[e as int]@, m))
                =~= uses_view(ms@).subrange(0, j as int).map_values(|m: UseV| use_text(names@[e as int]@, m)).push(use_text(names@[e as int]@, ms@[j as int]@)));
            j = j + 1;
        }
        proof {
            assert(uses_view(ms@).subrange(0, ms.len() as int) =~= uses_view(ms@));
            assert(es@.subrange(0, i + 1).drop_last() =~= es@.subrange(0, i as int));
            assert(nv[e as int] == names@[e as int]@);
            assert(rv[e as int].materializations == uses_view(ms@));
            assert(strings_view(out@) =~= start + entry_uses(nv, rv, es@.subrange(0, i + 1)));
        }
        i = i + 1;
    }
    assert(es@.subrange(0, es.len() as int) =~= es@);
}

pub open spec fn entries_in_range(t: NsTree, n: int) -> bool {
    forall|k: int, a: int| 0 <= k < t.nodes@.len() && 0 <= a < t.nodes@[k].entries@.len() ==>
        (#[trigger] t.nodes@[k].entries@[a]) < n
}

pub open spec fn children_before(t: NsTree) -> bool {
    forall|k: int, j: int| 0 <= k < t.nodes@.len() && 0 <= j < t.nodes@[k].children@.len() ==>
        (#[trigger] t.nodes@[k].children@[j]) < k
}

pub open spec fn child_segment_nonempty(t: NsTree) -> bool {
    forall|k: int, j: int| 0 <= k < t.nodes@.len() && 0 <= j < t.nodes@[k].children@.len() ==>
        node_path(t.nodes@, #[trigger] t.nodes@[k].children@[j] as int).len() > 0
}

fn render_mod(seg: &String, items: &Vec<String>) -> (r: String)
    ensures
        r@ == mod_text(seg@, strings_view(items@)),
{
    let j = join_strings(items, " ");
    cat5("pub mod ", seg.as_str(), " { ", j.as_str(), " }")
}

/// Renders the re-export items of every node of the tree, children first.
pub fn render_use_tree(t: &NsTree, names: &Vec<QualifiedName>, results: &Vec<CodegenResult>) -> (r: Vec<Vec<String>>)
    requires
        entries_in_range(*t, names.len() as int),
        names.len() == results.len(),
        children_before(*t),
        child_segment_nonempty(*t),
    ensures
        r@.len() == t.nodes@.len(),
        forall|k: int| 0 <= k < r@.len() ==> strings_view(#[trigger] r@[k]@)
            == use_level(t.nodes@, names_view(names@), results_view(results@), k, r@.map_values(|v: Vec<String>| strings_view(v@))),
{
    let ghost nv = names_view(names@);
    let ghost rv = results_view(results@);
    let mut r: Vec<Vec<String>> = Vec::new();
    let mut k: usize = 0;
    while k < t.nodes.len()
        invariant
            k <= t.nodes.len(),
            nv == names_view(names@),
            rv == results_view(results@),
            entries_in_range(*t, names.len() as int),
            names.len() == results.len(),
            children_before(*t),
            child_segment_nonempty(*t),
            r@.len() == k,
            forall|x: int| 0 <= x < k ==> strings_view(#[trigger] r@[x]@)
                == use_level(t.nodes@, nv, rv, x, r@.map_values(|v: Vec<String>| strings_view(v@))),
        decreases t.nodes.len() - k,
    {
        let node = &t.nodes[k];
        let mut out: Vec<String> = Vec::new();
        assert forall|a: int| 0 <= a < node.entries.len() implies (#[trigger] node.entries@[a]) < names.len() && node.entries@[a] < results.len() by {
            assert(t.nodes@[k as int].entries@[a] < names.len());
        }
        append_entry_uses(names, results, &node.entries, &mut out);
        let ghost rendered = r@.map_values(|v: Vec<String>| strings_view(v@));
        let ghost base = strings_view(out@);
        let mut j: usize = 0;
        while j < node.children.len()
            invariant
                j <= node.children.len(),
                node == &t.nodes@[k as int],
                r@.len() == k,
                rendered == r@.map_values(|v: Vec<String>| strings_view(v@)),
                children_before(*t),
                child_segment_nonempty(*t),
                k < t.nodes.len(),
                strings_view(out@) == base + node.children@.subrange(0, j as int).map_values(
                    |c: usize| mod_text(node_path(t.nodes@, c as int).last(), rendered[c as int])),
            decreases node.children.len() - j,
        {
            let c = node.children[j];
            assert(t.nodes@[k as int].children@[j as int] < k);
            let cpath = &t.nodes[c].path;
            assert(node_path(t.nodes@, c as int).len() > 0);
            let seg = &cpath[cpath.len() - 1];
            let m = render_mod(seg, &r[c]);
            let ghost o = strings_view(out@);
            out.push(m);
            proof {
                assert(strings_view(out@) =~= o.push(m@));
                assert(node_path(t.nodes@, c as int).last() == seg@);
                assert(rendered[c as int] == strings_view(r@[c as int]@));
                assert(node.children@.subrange(0, j + 1).map_values(|c: usize| mod_text(node_path(t.nodes@, c as int).last(), rendered[c as int]))
                    =~= node.children@.subrange(0, j as int).map_values(|c: usize| mod_text(node_path(t.nodes@, c as int).last(), rendered[c as int])).push(m@));
            }
            j = j + 1;
        }
        assert(node.children@.subrange(0, node.children.len() as int) =~= node.children@);
        let ghost r_before = r@;
        r.push(out);
        proof {
            let rendered2 = r@.map_values(|v: Vec<String>| strings_view(v@));
            assert forall|x: int| 0 <= x < k + 1 implies strings_view(#[trigger] r@[x]@)
                == use_level(t.nodes@, nv, rv, x, rendered2) by {
                assert forall|c: int| 0 <= c < x implies rendered2[c] == rendered[c] by {
                    assert(r@[c] == r_before[c]);
                }
                assert(t.nodes@[x].children@.map_values(|c: usize| mod_text(node_path(t.nodes@, c as int).last(), rendered2[c as int]))
                    =~= t.nodes@[x].children@.map_values(|c: usize| mod_text(node_path(t.nodes@, c as int).last(), rendered[c as int])));
                if x < k {
                    assert(r@[x] == r_before[x]);
                }
            }
        }
        k = k + 1;
    }
    r
}

} // verus!

verus! {

/// The wrapper-type items of the given entries, in order.
pub open spec fn entry_bindgen(results: Seq<CodegenResultV>, es: Seq<usize>) -> Seq<Seq<char>>
    decreases es.len(),
{
    if es.len() == 0 {
        seq![]
    } else {
        entry_bindgen(results, es.drop_last()) + results[es.last() as int].bindgen_mod_items.map_values(|g: GenItemV| g.text)
    }
}

/// The position of the group of `ty`, or -1.
pub open spec fn group_index(tys: Seq<Seq<char>>, ty: Seq<char>) -> int
    decreases tys.len(),
{
    if tys.len() == 0 {
        -1
    } else if tys.last() == ty {
        tys.len() - 1
    } else {
        group_index(tys.drop_last(), ty)
    }
}

pub struct Groups {
    pub tys: Seq<Seq<char>>,
    pub members: Seq<Seq<Seq<char>>>,
}

pub open spec fn add_to_group(g: Groups, ty: Seq<char>, item: Seq<char>) -> Groups {
    let i = group_index(g.tys, ty);
    if i < 0 {
        Groups { tys: g.tys.push(ty), members: g.members.push(seq![item]) }
    } else {
        Groups { tys: g.tys, members: g.members.update(i, g.members[i].push(item)) }
    }
}

/// The members contributed to each type's `impl` block, grouped by type in
/// order of first appearance.
pub open spec fn impl_groups(results: Seq<CodegenResultV>, es: Seq<usize>) -> Groups
    decreases es.len(),
{
    if es.len() == 0 {
        Groups { tys: seq![], members: seq![] }
    } else {
        let pre = impl_groups(results, es.drop_last());
        match results[es.last() as int].impl_entry {
            Some((ty, item)) => add_to_group(pre, ty, item.text),
            None => pre,
        }
    }
}

pub open spec fn impl_blocks(g: Groups) -> Seq<Seq<char>> {
    Seq::new(g.tys.len(), |i: int| "impl "@ + g.tys[i] + " { "@ + join(g.members[i], " "@) + " }"@)
}

/// The imports at the top of a wrapper module `depth` levels deep.
pub open spec fn uses_for_ns(depth: nat, exclude_utilities: bool) -> Seq<Seq<char>> {
    seq!["#[allow(unused_imports)] use self::"@ + supers_text(depth + 2) + "cxxbridge;"@]
        + (if exclude_utilities { seq![] } else { seq!["#[allow(unused_imports)] use self::"@ + supers_text(depth + 2) + "ToCppString;"@] })
        + seq!["#[allow(unused_imports)] use self::"@ + supers_text(depth + 1) + "root;"@]
}

/// The modules of the children that rendered to something.
pub open spec fn child_bindgen_mods(nodes: Seq<NsNode>, cs: Seq<usize>, rendered: Seq<Seq<Seq<char>>>, exclude_utilities: bool) -> Seq<Seq<char>>
    decreases cs.len(),
{
    if cs.len() == 0 {
        seq![]
    } else {
        let c = cs.last() as int;
        let pre = child_bindgen_mods(nodes, cs.drop_last(), rendered, exclude_utilities);
        if rendered[c].len() > 0 {
            pre.push(mod_text(node_path(nodes, c).last(), rendered[c] + uses_for_ns(node_path(nodes, c).len(), exclude_utilities)))
        } else {
            pre
        }
    }
}

/// The wrapper-type items of node `k`, given what its children rendered to.
pub open spec fn bindgen_level(nodes: Seq<NsNode>, results: Seq<CodegenResultV>, k: int, rendered: Seq<Seq<Seq<char>>>, exclude_utilities: bool) -> Seq<Seq<char>> {
    entry_bindgen(results, nodes[k].entries@) + impl_blocks(impl_groups(results, nodes[k].entries@))
        + child_bindgen_mods(nodes, nodes[k].children@, rendered, exclude_utilities)
}

pub fn render_uses_for_ns(depth: usize, exclude_utilities: bool) -> (r: Vec<String>)
    ensures
        strings_view(r@) == uses_for_ns(depth as nat, exclude_utilities),
{
    let mut r: Vec<String> = Vec::new();
    let mut up1 = render_supers(depth);
    up1.append("super::");
    let mut up2 = up1.clone();
    up2.append("super::");
    assert(up1@ == supers_text(depth as nat + 1));
    assert(up2@ == supers_text(depth as nat + 2));
    r.push(cat3("#[allow(unused_imports)] use self::", up2.as_str(), "cxxbridge;"));
    if !exclude_utilities {
        r.push(cat3("#[allow(unused_imports)] use self::", up2.as_str(), "ToCppString;"));
    }
    r.push(cat3("#[allow(unused_imports)] use self::", up1.as_str(), "root;"));
    assert(strings_view(r@) =~= uses_for_ns(depth as nat, exclude_utilities));
    r
}

fn append_entry_bindgen(results: &Vec<CodegenResult>, es: &Vec<usize>, out: &mut Vec<String>)
    requires
        forall|a: int| 0 <= a < es.len() ==> (#[trigger] es@[a]) < results.len(),
    ensures
        strings_view(final(out)@) == strings_view(old(out)@) + entry_bindgen(results_view(results@), es@),
{
    let ghost rv = results_view(results@);
    let ghost start = strings_view(out@);
    let mut i: usize = 0;
    while i < es.len()
        invariant
            i <= es.len(),
            rv == results_view(results@),
            forall|a: int| 0 <= a < es.len() ==> (#[trigger] es@[a]) < results.len(),
            strings_view(out@) == start + entry_bindgen(rv, es@.subrange(0, i as int)),
        decreases es.len() - i,
    {
        let e = es[i];
        let items = &results[e].bindgen_mod_items;
        let ghost mid = strings_view(out@);
        let mut j: usize = 0;
        while j < items.len()
            invariant
                j <= items.len(),
                strings_view(out@) == mid + items_view(items@).subrange(0, j as int).map_values(|g: GenItemV| g.text),
            decreases items.len() - j,
        {
            let ghost o = strings_view(out@);
            out.push(items[j].text.clone());
            assert(strings_view(out@) =~= o.push(items@[j as int].text@));
            assert(items_view(items@).subrange(0, j + 1).map_values(|g: GenItemV| g.text)
                =~= items_view(items@).subrange(0, j as int).map_values(|g: GenItemV| g.text).push(items@[j as int].text@));
            j = j + 1;
        }
        proof {
            assert(items_view(items@).subrange(0, items.len() as int) =~= items_view(items@));
            assert(es@.subrange(0, i + 1).drop_last() =~= es@.subrange(0, i as int));
            assert(rv[e as int].bindgen_mod_items == items_view(items@));
            assert(strings_view(out@) =~= start + entry_bindgen(rv, es@.subrange(0, i + 1)));
        }
        i = i + 1;
    }
    assert(es@.subrange(0, es.len() as int) =~= es@);
}

pub open spec fn groups_view(tys: Seq<String>, members: Seq<Vec<String>>) -> Groups {
    Groups { tys: strings_view(tys), members: members.map_values(|v: Vec<String>| strings_view(v@)) }
}

proof fn lemma_group_index(tys: Seq<Seq<char>>, ty: Seq<char>)
    ensures
        -1 <= group_index(tys, ty) < tys.len(),
        group_index(tys, ty) >= 0 ==> tys[group_index(tys, ty)] == ty,
    decreases tys.len(),
{
    if tys.len() > 0 {
        lemma_group_index(tys.drop_last(), ty);
    }
}

fn find_group(tys: &Vec<String>, ty: &String) -> (r: Option<usize>)
    ensures
        match r {
            Some(i) => group_index(strings_view(tys@), ty@) == i,
            None => group_index(strings_view(tys@), ty@) < 0,
        },
        group_index(strings_view(tys@), ty@) < tys.len(),
{
    let mut i: usize = tys.len();
    assert(tys@.subrange(0, i as int) =~= tys@);
    proof {
        lemma_group_index(strings_view(tys@), ty@);
    }
    while i > 0
        invariant
            i <= tys.len(),
            group_index(strings_view(tys@), ty@) == group_index(strings_view(tys@.subrange(0, i as int)), ty@),
            group_index(strings_view(tys@.subrange(0, i as int)), ty@) < i,
        decreases i,
    {
        proof {
            assert(strings_view(tys@.subrange(0, i as int)).drop_last() =~= strings_view(tys@.subrange(0, i - 1)));
            assert(strings_view(tys@.subrange(0, i as int)).last() == tys@[i - 1]@);
        }
        if tys[i - 1] == *ty {
            return Some(i - 1);
        }
        proof {
            lemma_group_index(strings_view(tys@.subrange(0, i - 1)), ty@);
        }
        i = i - 1;
    }
    assert(strings_view(tys@.subrange(0, 0)).len() == 0);
    None
}

fn impl_groups_exec(results: &Vec<CodegenResult>, es: &Vec<usize>) -> (r: (Vec<String>, Vec<Vec<String>>))
    requires
        forall|a: int| 0 <= a < es.len() ==> (#[trigger] es@[a]) < results.len(),
    ensures
        groups_view(r.0@, r.1@) == impl_groups(results_view(results@), es@),
        r.0@.len() == r.1@.len(),
{
    let ghost rv = results_view(results@);
    let mut tys: Vec<String> = Vec::new();
    let mut members: Vec<Vec<String>> = Vec::new();
    let mut i: usize = 0;
    assert(groups_view(tys@, members@).tys =~= Seq::<Seq<char>>::empty());
    assert(groups_view(tys@, members@).members =~= Seq::<Seq<Seq<char>>>::empty());
    assert(groups_view(tys@, members@) == impl_groups(rv, es@.subrange(0, 0)));
    while i < es.len()
        invariant
            i <= es.len(),
            rv == results_view(results@),
            forall|a: int| 0 <= a < es.len() ==> (#[trigger] es@[a]) < results.len(),
            tys@.len() == members@.len(),
            groups_view(tys@, members@) == impl_groups(rv, es@.subrange(0, i as int)),
        decreases es.len() - i,
    {
        let ghost g0 = groups_view(tys@, members@);
        proof {
            assert(es@.subrange(0, i + 1).drop_last() =~= es@.subrange(0, i as int));
        }
        match &results[es[i]].impl_entry {
            Some(entry) => {
                match find_group(&tys, &entry.ty) {
                    Some(g) => {
                        let mut v = crate::names::clone_strings(&members[g]);
                        v.push(entry.item.text.clone());
                        let ghost mv = strings_view(v@);
                        members.set(g, v);
                        proof {
                            assert(mv =~= g0.members[g as int].push(entry.item.text@));
                            assert(groups_view(tys@, members@).members =~= g0.members.update(g as int, g0.members[g as int].push(entry.item.text@)));
                        }
                    },
                    None => {
                        tys.push(entry.ty.clone());
                        let v = vec![entry.item.text.clone()];
                        assert(strings_view(v@) =~= seq![entry.item.text@]);
                        members.push(v);
                        proof {
                            assert(groups_view(tys@, members@).tys =~= g0.tys.push(entry.ty@));
                            assert(groups_view(tys@, members@).members =~= g0.members.push(seq![entry.item.text@]));
                        }
                    },
                }
            },
            None => {},
        }
        i = i + 1;
    }
    assert(es@.subrange(0, es.len() as int) =~= es@);
    (tys, members)
}

fn append_impl_blocks(tys: &Vec<String>, members: &Vec<Vec<String>>, out: &mut Vec<String>)
    requires
        tys@.len() == members@.len(),
    ensures
        strings_view(final(out)@) == strings_view(old(out)@) + impl_blocks(groups_view(tys@, members@)),
{
    let ghost start = strings_view(out@);
    let ghost g = groups_view(tys@, members@);
    let mut i: usize = 0;
    while i < tys.len()
        invariant
            i <= tys.len(),
            tys@.len() == members@.len(),
            g == groups_view(tys@, members@),
            strings_view(out@) == start + impl_blocks(g).subrange(0, i as int),
        decreases tys.len() - i,
    {
        let j = join_strings(&members[i], " ");
        let t = cat5("impl ", tys[i].as_str(), " { ", j.as_str(), " }");
        let ghost o = strings_view(out@);
        out.push(t);
        assert(strings_view(out@) =~= o.push(t@));
        assert(impl_blocks(g).subrange(0, i + 1) =~= impl_blocks(g).subrange(0, i as int).push(t@));
        i = i + 1;
    }
    assert(impl_blocks(g).subrange(0, tys.len() as int) =~= impl_blocks(g));
}

} // verus!

verus! {

/// Renders the wrapper-type items of every node of the tree, children first.
pub fn render_bindgen_tree(t: &NsTree, results: &Vec<CodegenResult>, exclude_utilities: bool) -> (r: Vec<Vec<String>>)
    requires
        entries_in_range(*t, results.len() as int),
        children_before(*t),
        child_segment_nonempty(*t),
    ensures
        r@.len() == t.nodes@.len(),
        forall|k: int| 0 <= k < r@.len() ==> strings_view(#[trigger] r@[k]@)
            == bindgen_level(t.nodes@, results_view(results@), k, r@.map_values(|v: Vec<String>| strings_view(v@)), exclude_utilities),
{
    let ghost rv = results_view(results@);
    let mut r: Vec<Vec<String>> = Vec::new();
    let mut k: usize = 0;
    while k < t.nodes.len()
        invariant
            k <= t.nodes.len(),
            rv == results_view(results@),
            entries_in_range(*t, results.len() as int),
            children_before(*t),
            child_segment_nonempty(*t),
            r@.len() == k,
            forall|x: int| 0 <= x < k ==> strings_view(#[trigger] r@[x]@)
                == bindgen_level(t.nodes@, rv, x, r@.map_values(|v: Vec<String>| strings_view(v@)), exclude_utilities),
        decreases t.nodes.len() - k,
    {
        let node = &t.nodes[k];
        let mut out: Vec<String> = Vec::new();
        assert forall|a: int| 0 <= a < node.entries.len() implies (#[trigger] node.entries@[a]) < results.len() by {
            assert(t.nodes@[k as int].entries@[a] < results.len());
        }
        append_entry_bindgen(results, &node.entries, &mut out);
        let (tys, members) = impl_groups_exec(results, &node.entries);
        append_impl_blocks(&tys, &members, &mut out);
        let ghost rendered = r@.map_values(|v: Vec<String>| strings_view(v@));
        let ghost base = strings_view(out@);
        let mut j: usize = 0;
        while j < node.children.len()
            invariant
                j <= node.children.len(),
                node == &t.nodes@[k as int],
                r@.len() == k,
                rendered == r@.map_values(|v: Vec<String>| strings_view(v@)),
                children_before(*t),
                child_segment_nonempty(*t),
                k < t.nodes.len(),
                strings_view(out@) == base + child_bindgen_mods(t.nodes@, node.children@.subrange(0, j as int), rendered, exclude_utilities),
            decreases node.children.len() - j,
        {
            let c = node.children[j];
            assert(t.nodes@[k as int].children@[j as int] < k);
            proof {
                assert(node.children@.subrange(0, j + 1).drop_last() =~= node.children@.subrange(0, j as int));
            }
            if r[c].len() > 0 {
                let cpath = &t.nodes[c].path;
                assert(node_path(t.nodes@, c as int).len() > 0);
                let seg = &cpath[cpath.len() - 1];
                let mut inner = crate::names::clone_strings(&r[c]);
                let uses = render_uses_for_ns(cpath.len(), exclude_utilities);
                crate::names::append_strings(&mut inner, &uses);
                let m = render_mod(seg, &inner);
                let ghost o = strings_view(out@);
                out.push(m);
                proof {
                    assert(strings_view(out@) =~= o.push(m@));
                    assert(node_path(t.nodes@, c as int).last() == seg@);
                    assert(rendered[c as int] == strings_view(r@[c as int]@));
                }
            }
            j = j + 1;
        }
        assert(node.children@.subrange(0, node.children.len() as int) =~= node.children@);
        let ghost r_before = r@;
        r.push(out);
        proof {
            let rendered2 = r@.map_values(|v: Vec<String>| strings_view(v@));
            assert forall|x: int| 0 <= x < k + 1 implies strings_view(#[trigger] r@[x]@)
                == bindgen_level(t.nodes@, rv, x, rendered2, exclude_utilities) by {
                assert forall|c: int| 0 <= c < x implies rendered2[c] == rendered[c] by {
                    assert(r@[c] == r_before[c]);
                }
                lemma_child_mods_agree(t.nodes@, t.nodes@[x].children@, rendered, rendered2, x, exclude_utilities);
                if x < k {
                    assert(r@[x] == r_before[x]);
                }
            }
        }
        k = k + 1;
    }
    r
}

proof fn lemma_child_mods_agree(
    nodes: Seq<NsNode>,
    cs: Seq<usize>,
    a: Seq<Seq<Seq<char>>>,
    b: Seq<Seq<Seq<char>>>,
    x: int,
    exclude_utilities: bool,
)
    requires
        forall|j: int| 0 <= j < cs.len() ==> (#[trigger] cs[j]) < x,
        forall|c: int| 0 <= c < x ==> a[c] == b[c],
    ensures
        child_bindgen_mods(nodes, cs, a, exclude_utilities) == child_bindgen_mods(nodes, cs, b, exclude_utilities),
    decreases cs.len(),
{
    if cs.len() > 0 {
        assert(cs.last() < x);
        lemma_child_mods_agree(nodes, cs.drop_last(), a, b, x, exclude_utilities);
    }
}

} // verus!

verus! {


/// In the rendered re-exports, node `k` holds its entries' re-exports and
/// then one module per child namespace, each of which has some entry at or
/// below it: no scope is rendered for a namespace without entries.
pub proof fn reexport_scopes_are_nonempty(
    t: NsTree,
    names: Seq<QnView>,
    results: Seq<CodegenResultV>,
    ur: Seq<Seq<Seq<char>>>,
    k: int,
)
    requires
        tree_wf(t, names),
        ur.len() == t.nodes@.len(),
        forall|x: int| 0 <= x < ur.len() ==> #[trigger] ur[x] == use_level(t.nodes@, names, results, x, ur),
        0 <= k < ur.len(),
    ensures
        ur[k].len() == entry_uses(names, results, t.nodes@[k].entries@).len() + t.nodes@[k].children@.len(),
        forall|j: int| 0 <= j < t.nodes@[k].children@.len() ==> {
            &&& #[trigger] ur[k][entry_uses(names, results, t.nodes@[k].entries@).len() + j]
                == mod_text(child_path(t.nodes@, k, j).last(), ur[t.nodes@[k].children@[j] as int])
            &&& has_below(names, child_path(t.nodes@, k, j))
        },
{
    assert(ur[k] == use_level(t.nodes@, names, results, k, ur));
    assert(node_wf(t.nodes@, names, k));
    assert(wf_children(t.nodes@, names, k));
}

proof fn lemma_entry_bindgen_empty(results: Seq<CodegenResultV>, es: Seq<usize>)
    requires
        forall|a: int| 0 <= a < es.len() ==> results[#[trigger] es[a] as int].bindgen_mod_items.len() == 0,
    ensures
        entry_bindgen(results, es).len() == 0,
    decreases es.len(),
{
    if es.len() > 0 {
        assert(results[es[es.len() - 1] as int].bindgen_mod_items.len() == 0);
        lemma_entry_bindgen_empty(results, es.drop_last());
    }
}

proof fn lemma_impl_groups_empty(results: Seq<CodegenResultV>, es: Seq<usize>)
    requires
        forall|a: int| 0 <= a < es.len() ==> results[#[trigger] es[a] as int].impl_entry.is_none(),
    ensures
        impl_groups(results, es).tys.len() == 0,
    decreases es.len(),
{
    if es.len() > 0 {
        assert(results[es[es.len() - 1] as int].impl_entry.is_none());
        lemma_impl_groups_empty(results, es.drop_last());
    }
}

proof fn lemma_child_mods_empty(nodes: Seq<NsNode>, cs: Seq<usize>, rendered: Seq<Seq<Seq<char>>>, exclude_utilities: bool)
    requires
        forall|j: int| 0 <= j < cs.len() ==> rendered[#[trigger] cs[j] as int].len() == 0,
    ensures
        child_bindgen_mods(nodes, cs, rendered, exclude_utilities).len() == 0,
    decreases cs.len(),
{
    if cs.len() > 0 {
        assert(rendered[cs[cs.len() - 1] as int].len() == 0);
        lemma_child_mods_empty(nodes, cs.drop_last(), rendered, exclude_utilities);
    }
}

/// Whether no item at or below namespace `p` contributes wrapper-type items.
pub open spec fn quiet_below(names: Seq<QnView>, results: Seq<CodegenResultV>, p: Seq<Seq<char>>) -> bool {
    forall|i: int| 0 <= i < names.len() && is_prefix(p, (#[trigger] names[i]).ns) ==>
        results[i].bindgen_mod_items.len() == 0 && results[i].impl_entry.is_none()
}

/// In the rendered wrapper types, a namespace none of whose items at or
/// below it contributes anything renders to nothing, so its parent emits no
/// scope for it.
pub proof fn quiet_subtree_renders_nothing(
    t: NsTree,
    names: Seq<QnView>,
    results: Seq<CodegenResultV>,
    br: Seq<Seq<Seq<char>>>,
    exclude_utilities: bool,
    k: int,
)
    requires
        tree_wf(t, names),
        results.len() == names.len(),
        br.len() == t.nodes@.len(),
        forall|x: int| 0 <= x < br.len() ==> #[trigger] br[x] == bindgen_level(t.nodes@, results, x, br, exclude_utilities),
        0 <= k < br.len(),
        quiet_below(names, results, node_path(t.nodes@, k)),
    ensures
        br[k].len() == 0,
    decreases k,
{
    let nodes = t.nodes@;
    let p = node_path(nodes, k);
    assert(node_wf(nodes, names, k));
    assert(wf_children(nodes, names, k));
    lemma_level_indices(names, p, names.len() as int);
    let es = nodes[k].entries@;
    assert forall|a: int| 0 <= a < es.len() implies results[#[trigger] es[a] as int].bindgen_mod_items.len() == 0
        && results[es[a] as int].impl_entry.is_none() by {
        assert(usizes_view(es)[a] == es[a] as int);
        let x = es[a] as int;
        assert(names[x].ns == p);
        assert(names[x].ns.subrange(0, p.len() as int) =~= p);
        assert(is_prefix(p, names[x].ns));
    }
    lemma_entry_bindgen_empty(results, es);
    lemma_impl_groups_empty(results, es);
    let cs = nodes[k].children@;
    assert forall|j: int| 0 <= j < cs.len() implies br[#[trigger] cs[j] as int].len() == 0 by {
        let c = cs[j] as int;
        assert(0 <= cs[j] < k);
        let cp = child_path(nodes, k, j);
        assert(cp.drop_last() == p);
        assert forall|i: int| 0 <= i < names.len() && is_prefix(node_path(nodes, c), (#[trigger] names[i]).ns) implies
            results[i].bindgen_mod_items.len() == 0 && results[i].impl_entry.is_none() by {
            assert(names[i].ns.subrange(0, p.len() as int) =~= cp.subrange(0, p.len() as int));
            assert(cp.subrange(0, p.len() as int) =~= p);
            assert(is_prefix(p, names[i].ns));
        }
        quiet_subtree_renders_nothing(t, names, results, br, exclude_utilities, c);
    }
    lemma_child_mods_empty(nodes, cs, br, exclude_utilities);
    assert(br[k] == bindgen_level(nodes, results, k, br, exclude_utilities));
}

} // verus!
