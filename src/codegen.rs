use vstd::prelude::*;
use crate::names::{QualifiedName, QnView, strings_view, clone_strings, append_strings};
use crate::model::{Api, CodegenConfig, CodegenResult, CodegenResultV, GenItem, GenItemV, items_view};
use crate::context::{BaseMethods, SuperclassMethodV, accumulate_superclass_methods, find_trivially_constructed_subclasses,
    methods_on, methods_view, names_view, trivially_constructed};
use crate::emit::{api_result, generate_rs_for_api, methods_for};
use crate::bridge_types::OriginalName;
use crate::assemble::{entry_uses, entry_bindgen, impl_groups, impl_blocks, child_bindgen_mods, use_text};
use crate::ns_tree::{level_indices, has_below, is_prefix, usizes_view, child_path};
use crate::model::{ItemKind, TypeKind, UseV};
use crate::types::{impl_items, type_result};
use crate::bridge_types::{cxxbridge_type, extern_type_impl};
use crate::text::{join, join_strings, quoted, quote_text, cat3};
use crate::ns_tree::{NsTree, build_tree, tree_wf, node_wf, wf_children, node_path};
use crate::assemble::{bindgen_level, children_before, child_segment_nonempty, entries_in_range, render_bindgen_tree,
    render_use_tree, results_view, use_level, uses_for_ns, render_uses_for_ns};

verus! {

/// The virtual methods recorded for `q`: those declared on it when it is an
/// extensible base.
pub open spec fn base_methods(superclasses: Seq<QnView>, apis: Seq<Api>, q: QnView) -> Option<Seq<SuperclassMethodV>> {
    if superclasses.contains(q) { Some(methods_on(apis, q)) } else { None }
}

/// What one item becomes among `apis` under `config`.
pub open spec fn item_result(api: Api, apis: Seq<Api>, map: Seq<OriginalName>, config: CodegenConfig) -> CodegenResultV {
    api_result(api, map, config.exclude_impls, config.makestring_name@,
        |q: QnView| base_methods(names_view(config.superclasses@), apis, q),
        |q: QnView| trivially_constructed(apis, q))
}

/// The table the base-method pass promises.
pub open spec fn table_meets(table: Seq<BaseMethods>, superclasses: Seq<QnView>, apis: Seq<Api>) -> bool {
    &&& forall|q: QnView| (exists|k: int| 0 <= k < table.len() && table[k].base@ == q) <==> superclasses.contains(q)
    &&& forall|a: int, b: int| 0 <= a < b < table.len() ==> table[a].base@ != table[b].base@
    &&& forall|k: int| 0 <= k < table.len() ==> methods_view(#[trigger] table[k].methods@) == methods_on(apis, table[k].base@)
}

proof fn lemma_methods_for(table: Seq<BaseMethods>, q: QnView)
    ensures
        methods_for(table, q).is_none() <==> !(exists|k: int| 0 <= k < table.len() && table[k].base@ == q),
        methods_for(table, q).is_some() ==> exists|k: int| 0 <= k < table.len() && table[k].base@ == q
            && methods_for(table, q) == Some(methods_view(table[k].methods@)),
    decreases table.len(),
{
    if table.len() > 0 {
        let pre = table.drop_last();
        lemma_methods_for(pre, q);
        if methods_for(pre, q).is_some() {
            let k = choose|k: int| 0 <= k < pre.len() && pre[k].base@ == q && methods_for(pre, q) == Some(methods_view(pre[k].methods@));
            assert(table[k] == pre[k]);
        } else {
            assert forall|k: int| 0 <= k < table.len() - 1 implies table[k].base@ != q by {
                assert(table[k] == pre[k]);
            }
        }
    }
}

proof fn lemma_table_meaning(table: Seq<BaseMethods>, superclasses: Seq<QnView>, apis: Seq<Api>, q: QnView)
    requires
        table_meets(table, superclasses, apis),
    ensures
        methods_for(table, q) == base_methods(superclasses, apis, q),
{
    lemma_methods_for(table, q);
    if methods_for(table, q).is_some() {
        let k = choose|k: int| 0 <= k < table.len() && table[k].base@ == q && methods_for(table, q) == Some(methods_view(table[k].methods@));
        assert(methods_view(table[k].methods@) == methods_on(apis, table[k].base@));
    }
}

/// Emission is a function of its inputs alone: whatever order or layout the
/// two pre-passes give their results, as long as they mean the same bases,
/// methods and eligible derived types, every item's bundle is the same.
pub proof fn emission_is_deterministic(
    api: Api,
    apis: Seq<Api>,
    map: Seq<OriginalName>,
    config: CodegenConfig,
    table: Seq<BaseMethods>,
    trivial: Seq<QnView>,
)
    requires
        table_meets(table, names_view(config.superclasses@), apis),
        forall|q: QnView| trivial.contains(q) <==> trivially_constructed(apis, q),
    ensures
        api_result(api, map, config.exclude_impls, config.makestring_name@,
            |q: QnView| methods_for(table, q), |q: QnView| trivial.contains(q)) == item_result(api, apis, map, config),
{
    let f1 = |q: QnView| methods_for(table, q);
    let f2 = |q: QnView| base_methods(names_view(config.superclasses@), apis, q);
    assert forall|q: QnView| #[trigger] f1(q) == f2(q) by {
        lemma_table_meaning(table, names_view(config.superclasses@), apis, q);
    }
    assert(f1 =~= f2);
    let g1 = |q: QnView| trivial.contains(q);
    let g2 = |q: QnView| trivially_constructed(apis, q);
    assert(g1 =~= g2);
}

/// Emits every item, in order.
pub fn generate_all(apis: &Vec<Api>, map: &Vec<OriginalName>, config: &CodegenConfig) -> (r: Vec<CodegenResult>)
    ensures
        r@.len() == apis@.len(),
        forall|i: int| 0 <= i < apis@.len() ==> (#[trigger] r@[i])@ == item_result(apis@[i], apis@, map@, *config),
{
    let table = accumulate_superclass_methods(&config.superclasses, apis);
    let trivial = find_trivially_constructed_subclasses(apis);
    let mut r: Vec<CodegenResult> = Vec::new();
    let mut i: usize = 0;
    while i < apis.len()
        invariant
            i <= apis.len(),
            r@.len() == i,
            table_meets(table@, names_view(config.superclasses@), apis@),
            forall|q: QnView| names_view(trivial@).contains(q) <==> trivially_constructed(apis@, q),
            forall|k: int| 0 <= k < i ==> (#[trigger] r@[k])@ == item_result(apis@[k], apis@, map@, *config),
        decreases apis.len() - i,
    {
        let b = generate_rs_for_api(&apis[i], map, config, &table, &trivial);
        proof {
            emission_is_deterministic(apis@[i as int], apis@, map@, *config, table@, names_view(trivial@));
        }
        r.push(b);
        i = i + 1;
    }
    r
}

} // verus!

verus! {

/// Where in the output an item's declarations go.
#[derive(Clone, Copy, PartialEq, Eq, Structural)]
pub enum Region {
    Global,
    Bridge,
    ForeignDecls,
    HostDecls,
}

pub open spec fn region_of(r: CodegenResultV, w: Region) -> Seq<GenItemV> {
    match w {
        Region::Global => r.global_items,
        Region::Bridge => r.bridge_items,
        Region::ForeignDecls => r.extern_c_mod_items,
        Region::HostDecls => r.extern_rust_mod_items,
    }
}

/// The texts of one region of all bundles, in order.
pub open spec fn region_texts(rs: Seq<CodegenResultV>, w: Region) -> Seq<Seq<char>>
    decreases rs.len(),
{
    if rs.len() == 0 {
        seq![]
    } else {
        region_texts(rs.drop_last(), w) + region_of(rs.last(), w).map_values(|g: GenItemV| g.text)
    }
}

fn region_items(r: &CodegenResult, w: Region) -> (v: &Vec<GenItem>)
    ensures
        items_view(v@) == region_of(r@, w),
{
    match w {
        Region::Global => &r.global_items,
        Region::Bridge => &r.bridge_items,
        Region::ForeignDecls => &r.extern_c_mod_items,
        Region::HostDecls => &r.extern_rust_mod_items,
    }
}

fn collect_region(results: &Vec<CodegenResult>, w: Region) -> (r: Vec<String>)
    ensures
        strings_view(r@) == region_texts(results_view(results@), w),
{
    let mut out: Vec<String> = Vec::new();
    let mut i: usize = 0;
    while i < results.len()
        invariant
            i <= results.len(),
            strings_view(out@) == region_texts(results_view(results@).subrange(0, i as int), w),
        decreases results.len() - i,
    {
        let items = region_items(&results[i], w);
        let ghost mid = strings_view(out@);
        let mut j: usize = 0;
        while j < items.len()
            invariant
                j <= items.len(),
                strings_view(out@) == mid + items_view(items@).subrange(0, j as int).map_values(|g: GenItemV| g.text),
            decreases items.len() - j,
        {
            let ghost o = strings_view(out@);
            out.push(items[j].text.clone());
            assert(strings_view(out@) =~= o.push(items@[j as int].text@));
            assert(items_view(items@).subrange(0, j + 1).map_values(|g: GenItemV| g.text)
                =~= items_view(items@).subrange(0, j as int).map_values(|g: GenItemV| g.text).push(items@[j as int].text@));
            j = j + 1;
        }
        proof {
            assert(items_view(items@).subrange(0, items.len() as int) =~= items_view(items@));
            assert(results_view(results@).subrange(0, i + 1).drop_last() =~= results_view(results@).subrange(0, i as int));
        }
        i = i + 1;
    }
    assert(results_view(results@).subrange(0, results.len() as int) =~= results_view(results@));
    out
}

/// Whether an item needs generated native-side support code.
pub open spec fn needs_native_support(a: Api) -> bool {
    match a {
        Api::StringConstructor { .. } | Api::Subclass { .. } | Api::SubclassFn { .. } | Api::SubclassConstructor { .. } => true,
        _ => false,
    }
}

fn needs_native_support_exec(a: &Api) -> (r: bool)
    ensures
        r == needs_native_support(*a),
{
    match a {
        Api::StringConstructor { .. } | Api::Subclass { .. } | Api::SubclassFn { .. } | Api::SubclassConstructor { .. } => true,
        _ => false,
    }
}

pub open spec fn include_line(s: Seq<char>) -> Seq<char> {
    "include!("@ + quoted(s) + ");"@
}

/// The header lines passed through to the foreign declarations, followed by
/// the generated support header when some item needs one.
pub open spec fn include_lines(includes: Seq<Seq<char>>, mod_name: Seq<char>, extra: bool) -> Seq<Seq<char>> {
    includes.map_values(|s: Seq<char>| include_line(s))
        + if extra { seq![include_line("autocxxgen_"@ + mod_name + ".h"@)] } else { seq![] }
}

pub fn build_include_foreign_items(include_list: &Vec<String>, mod_name: &String, has_additional_cpp_needs: bool) -> (r: Vec<String>)
    ensures
        strings_view(r@) == include_lines(strings_view(include_list@), mod_name@, has_additional_cpp_needs),
{
    let mut r: Vec<String> = Vec::new();
    let mut i: usize = 0;
    while i < include_list.len()
        invariant
            i <= include_list.len(),
            r@.len() == i,
            forall|k: int| 0 <= k < i ==> r@[k]@ == include_line(include_list@[k]@),
        decreases include_list.len() - i,
    {
        let q = quote_text(include_list[i].as_str());
        r.push(cat3("include!(", q.as_str(), ");"));
        i = i + 1;
    }
    let ghost base = strings_view(r@);
    assert(base =~= strings_view(include_list@).map_values(|s: Seq<char>| include_line(s)));
    if has_additional_cpp_needs {
        let f = cat3("autocxxgen_", mod_name.as_str(), ".h");
        let q = quote_text(f.as_str());
        r.push(cat3("include!(", q.as_str(), ");"));
        assert(strings_view(r@) =~= base.push(include_line("autocxxgen_"@ + mod_name@ + ".h"@)));
    }
    assert(strings_view(r@) =~= include_lines(strings_view(include_list@), mod_name@, has_additional_cpp_needs));
    r
}

pub open spec fn foreign_block(decls: Seq<Seq<char>>) -> Seq<char> {
    "unsafe extern \"C++\" { "@ + join(decls, " "@) + " }"@
}

pub open spec fn host_block(decls: Seq<Seq<char>>) -> Seq<char> {
    "extern \"Rust\" { "@ + join(decls, " "@) + " }"@
}

/// The final output, given the bundles and what the roots of the two
/// namespace trees rendered to.
pub open spec fn assembled(
    results: Seq<CodegenResultV>,
    use_root: Seq<Seq<char>>,
    bindgen_root: Seq<Seq<char>>,
    includes: Seq<Seq<char>>,
    mod_name: Seq<char>,
    exclude_utilities: bool,
    extra: bool,
) -> Seq<Seq<char>> {
    region_texts(results, Region::Global)
        + seq![
            "mod bindgen { pub(super) mod root { "@ + join(bindgen_root + uses_for_ns(0, exclude_utilities), " "@) + " } }"@,
            "#[cxx::bridge] mod cxxbridge { "@ + join(region_texts(results, Region::Bridge) + seq![
                foreign_block(region_texts(results, Region::ForeignDecls) + include_lines(includes, mod_name, extra)),
                host_block(region_texts(results, Region::HostDecls)),
            ], " "@) + " }"@,
            "#[allow(unused_imports)] use bindgen::root;"@,
        ]
        + use_root
}

pub open spec fn api_names(apis: Seq<Api>) -> Seq<QnView> {
    apis.map_values(|a: Api| a.spec_name()@)
}

pub open spec fn all_results(apis: Seq<Api>, map: Seq<OriginalName>, config: CodegenConfig) -> Seq<CodegenResultV> {
    apis.map_values(|a: Api| item_result(a, apis, map, config))
}

/// Whether `r` is the output for `apis`: the bundles of all items, with the
/// re-exports and the wrapper types each nested by namespace in a
/// well-formed tree of the items' names.
pub open spec fn output_for(
    r: Seq<Seq<char>>,
    apis: Seq<Api>,
    includes: Seq<Seq<char>>,
    map: Seq<OriginalName>,
    config: CodegenConfig,
) -> bool {
    let results = all_results(apis, map, config);
    let names = api_names(apis);
    exists|t: NsTree, ur: Seq<Seq<Seq<char>>>, br: Seq<Seq<Seq<char>>>| {
        &&& tree_wf(t, names)
        &&& ur.len() == t.nodes@.len()
        &&& br.len() == t.nodes@.len()
        &&& forall|k: int| 0 <= k < ur.len() ==> #[trigger] ur[k] == use_level(t.nodes@, names, results, k, ur)
        &&& forall|k: int| 0 <= k < br.len() ==> #[trigger] br[k] == bindgen_level(t.nodes@, results, k, br, config.exclude_utilities)
        &&& r == assembled(results, ur.last(), br.last(), includes, config.mod_name@, config.exclude_utilities,
            exists|i: int| 0 <= i < apis.len() && needs_native_support(#[trigger] apis[i]))
    }
}

proof fn lemma_tree_shape(t: NsTree, names: Seq<QnView>)
    requires
        tree_wf(t, names),
    ensures
        entries_in_range(t, names.len() as int),
        children_before(t),
        child_segment_nonempty(t),
{
    assert forall|k: int, a: int| 0 <= k < t.nodes@.len() && 0 <= a < t.nodes@[k].entries@.len() implies
        (#[trigger] t.nodes@[k].entries@[a]) < names.len() by {
        assert(node_wf(t.nodes@, names, k));
        crate::ns_tree::lemma_level_indices(names, node_path(t.nodes@, k), names.len() as int);
        assert(crate::ns_tree::usizes_view(t.nodes@[k].entries@)[a] == t.nodes@[k].entries@[a] as int);
    }
    assert forall|k: int, j: int| 0 <= k < t.nodes@.len() && 0 <= j < t.nodes@[k].children@.len() implies
        (#[trigger] t.nodes@[k].children@[j]) < k by {
        assert(node_wf(t.nodes@, names, k));
        assert(wf_children(t.nodes@, names, k));
    }
    assert forall|k: int, j: int| 0 <= k < t.nodes@.len() && 0 <= j < t.nodes@[k].children@.len() implies
        node_path(t.nodes@, #[trigger] t.nodes@[k].children@[j] as int).len() > 0 by {
        assert(node_wf(t.nodes@, names, k));
        assert(wf_children(t.nodes@, names, k));
        assert(crate::ns_tree::child_path(t.nodes@, k, j).len() == node_path(t.nodes@, k).len() + 1);
    }
}

fn collect_names(apis: &Vec<Api>) -> (r: (Vec<QualifiedName>, bool))
    ensures
        names_view(r.0@) == api_names(apis@),
        r.1 == exists|k: int| 0 <= k < apis@.len() && needs_native_support(#[trigger] apis@[k]),
{
    let mut names: Vec<QualifiedName> = Vec::new();
    let mut needs_cpp = false;
    let mut i: usize = 0;
    while i < apis.len()
        invariant
            i <= apis.len(),
            names@.len() == i,
            forall|k: int| 0 <= k < i ==> (#[trigger] names@[k])@ == apis@[k].spec_name()@,
            needs_cpp == exists|k: int| 0 <= k < i && needs_native_support(#[trigger] apis@[k]),
        decreases apis.len() - i,
    {
        names.push(apis[i].name().clone_name());
        if needs_native_support_exec(&apis[i]) {
            needs_cpp = true;
        }
        i = i + 1;
    }
    assert(names_view(names@) =~= api_names(apis@));
    (names, needs_cpp)
}

fn stitch(
    results: &Vec<CodegenResult>,
    bindgen_root: &Vec<String>,
    use_root: &Vec<String>,
    include_list: &Vec<String>,
    config: &CodegenConfig,
    needs_cpp: bool,
) -> (r: Vec<String>)
    ensures
        strings_view(r@) == assembled(results_view(results@), strings_view(use_root@), strings_view(bindgen_root@),
            strings_view(include_list@), config.mod_name@, config.exclude_utilities, needs_cpp),
{
    let mut out = collect_region(results, Region::Global);
    let ghost g = strings_view(out@);
    // the wrapper-type region
    let mut root_items = clone_strings(bindgen_root);
    let uses = render_uses_for_ns(0, config.exclude_utilities);
    append_strings(&mut root_items, &uses);
    let j = join_strings(&root_items, " ");
    let item1 = cat3("mod bindgen { pub(super) mod root { ", j.as_str(), " } }");
    // the bridge
    let mut foreign = collect_region(results, Region::ForeignDecls);
    let incs = build_include_foreign_items(include_list, &config.mod_name, needs_cpp);
    append_strings(&mut foreign, &incs);
    let fj = join_strings(&foreign, " ");
    let host = collect_region(results, Region::HostDecls);
    let hj = join_strings(&host, " ");
    let mut bridge = collect_region(results, Region::Bridge);
    let ghost b0 = strings_view(bridge@);
    bridge.push(cat3("unsafe extern \"C++\" { ", fj.as_str(), " }"));
    bridge.push(cat3("extern \"Rust\" { ", hj.as_str(), " }"));
    assert(strings_view(bridge@) =~= b0 + seq![foreign_block(strings_view(foreign@)), host_block(strings_view(host@))]);
    let bj = join_strings(&bridge, " ");
    let item2 = cat3("#[cxx::bridge] mod cxxbridge { ", bj.as_str(), " }");
    let item3 = String::from_str("#[allow(unused_imports)] use bindgen::root;");
    let tail = vec![item1, item2, item3];
    append_strings(&mut out, &tail);
    // the re-exports
    append_strings(&mut out, use_root);
    assert(strings_view(tail@) =~= seq![
        "mod bindgen { pub(super) mod root { "@ + join(strings_view(bindgen_root@) + uses_for_ns(0, config.exclude_utilities), " "@) + " } }"@,
        "#[cxx::bridge] mod cxxbridge { "@ + join(region_texts(results_view(results@), Region::Bridge) + seq![
            foreign_block(region_texts(results_view(results@), Region::ForeignDecls) + include_lines(strings_view(include_list@), config.mod_name@, needs_cpp)),
            host_block(region_texts(results_view(results@), Region::HostDecls)),
        ], " "@) + " }"@,
        "#[allow(unused_imports)] use bindgen::root;"@,
    ]);
    out
}

/// Generates the whole output for a list of analysed items.
pub fn rs_codegen(apis: &Vec<Api>, include_list: &Vec<String>, map: &Vec<OriginalName>, config: &CodegenConfig) -> (r: Vec<String>)
    ensures
        output_for(strings_view(r@), apis@, strings_view(include_list@), map@, *config),
{
    let results = generate_all(apis, map, config);
    let ghost rv = results_view(results@);
    assert(rv =~= all_results(apis@, map@, *config));
    let (names, needs_cpp) = collect_names(apis);
    let tree = build_tree(&names);
    proof {
        lemma_tree_shape(tree, names_view(names@));
    }
    let use_rendered = render_use_tree(&tree, &names, &results);
    let bindgen_rendered = render_bindgen_tree(&tree, &results, config.exclude_utilities);
    let root = tree.nodes.len() - 1;
    let out = stitch(&results, &bindgen_rendered[root], &use_rendered[root], include_list, config, needs_cpp);
    proof {
        let names_v = names_view(names@);
        let ur = use_rendered@.map_values(|v: Vec<String>| strings_view(v@));
        let br = bindgen_rendered@.map_values(|v: Vec<String>| strings_view(v@));
        assert(ur.last() == strings_view(use_rendered@[root as int]@));
        assert(br.last() == strings_view(bindgen_rendered@[root as int]@));
        assert forall|k: int| 0 <= k < ur.len() implies #[trigger] ur[k] == use_level(tree.nodes@, names_v, rv, k, ur) by {
            assert(strings_view(use_rendered@[k]@) == use_level(tree.nodes@, names_v, rv, k, ur));
        }
        assert forall|k: int| 0 <= k < br.len() implies #[trigger] br[k] == bindgen_level(tree.nodes@, rv, k, br, config.exclude_utilities) by {
            assert(strings_view(bindgen_rendered@[k]@) == bindgen_level(tree.nodes@, rv, k, br, config.exclude_utilities));
        }
    }
    out
}

} // verus!

verus! {


proof fn lemma_single_root(t: NsTree, names: Seq<QnView>)
    requires
        tree_wf(t, names),
        names.len() == 1,
        names[0].ns.len() == 0,
    ensures
        t.nodes@[t.nodes@.len() - 1].entries@ == seq![0usize],
        t.nodes@[t.nodes@.len() - 1].children@.len() == 0,
{
    let nodes = t.nodes@;
    let k = nodes.len() - 1;
    assert(node_path(nodes, k) =~= Seq::<Seq<char>>::empty());
    assert(names[0].ns =~= node_path(nodes, k));
    assert(node_wf(nodes, names, k));
    assert(level_indices(names, node_path(nodes, k), 0) =~= Seq::<int>::empty());
    assert(level_indices(names, node_path(nodes, k), 1) == seq![0int]);
    let es = nodes[k].entries@;
    assert(usizes_view(es) == seq![0int]);
    assert(es.len() == 1 && usizes_view(es)[0] == 0);
    assert(es =~= seq![0usize]);
    if nodes[k].children@.len() > 0 {
        assert(wf_children(nodes, names, k));
        let cp = child_path(nodes, k, 0);
        assert(cp.len() == 1);
        assert(has_below(names, cp));
        let i = choose|i: int| 0 <= i < names.len() && is_prefix(cp, (#[trigger] names[i]).ns);
        assert(i == 0);
    }
}

proof fn lemma_single_root_renders(
    t: NsTree,
    names: Seq<QnView>,
    results: Seq<CodegenResultV>,
    ur: Seq<Seq<Seq<char>>>,
    br: Seq<Seq<Seq<char>>>,
    exclude_utilities: bool,
)
    requires
        tree_wf(t, names),
        names.len() == 1,
        names[0].ns.len() == 0,
        results.len() == 1,
        ur.len() == t.nodes@.len(),
        br.len() == t.nodes@.len(),
        forall|k: int| 0 <= k < ur.len() ==> #[trigger] ur[k] == use_level(t.nodes@, names, results, k, ur),
        forall|k: int| 0 <= k < br.len() ==> #[trigger] br[k] == bindgen_level(t.nodes@, results, k, br, exclude_utilities),
    ensures
        ur.last() == results[0].materializations.map_values(|m: UseV| use_text(names[0], m)),
        br.last() == results[0].bindgen_mod_items.map_values(|g: GenItemV| g.text)
            + impl_blocks(impl_groups(results, seq![0usize])),
{
    lemma_single_root(t, names);
    let nodes = t.nodes@;
    let k = nodes.len() - 1;
    let es = nodes[k].entries@;
    assert(es.drop_last() =~= Seq::<usize>::empty());
    assert(es.last() == 0);
    assert(entry_uses(names, results, es.drop_last()) == Seq::<Seq<char>>::empty());
    assert(entry_uses(names, results, es) =~= results[0].materializations.map_values(|m: UseV| use_text(names[0], m)));
    assert(nodes[k].children@.map_values(|c: usize| crate::assemble::mod_text(node_path(nodes, c as int).last(), ur[c as int]))
        =~= Seq::<Seq<char>>::empty());
    assert(ur[k] == use_level(nodes, names, results, k, ur));
    assert(ur[k] =~= results[0].materializations.map_values(|m: UseV| use_text(names[0], m)));
    assert(entry_bindgen(results, es.drop_last()) == Seq::<Seq<char>>::empty());
    assert(entry_bindgen(results, es) =~= results[0].bindgen_mod_items.map_values(|g: GenItemV| g.text));
    assert(child_bindgen_mods(nodes, nodes[k].children@, br, exclude_utilities) =~= Seq::<Seq<char>>::empty());
    assert(br[k] == bindgen_level(nodes, results, k, br, exclude_utilities));
    assert(br[k] =~= results[0].bindgen_mod_items.map_values(|g: GenItemV| g.text) + impl_blocks(impl_groups(results, seq![0usize])));
}

/// Output for a single trivially copyable record in the root namespace,
/// which is no extensible base: one extern-type assertion of kind
/// `Trivial`, the record's value definition as the only wrapper item, one
/// bridge declaration of the type under its own name, and one plain
/// re-export of it.
#[verifier::rlimit(40)]
pub proof fn trivially_copyable_record_end_to_end(
    r: Seq<Seq<char>>,
    name: QualifiedName,
    body: String,
    generic_params: Vec<String>,
    doc: Option<String>,
    map: Seq<OriginalName>,
    config: CodegenConfig,
)
    requires
        name@.ns.len() == 0,
        !names_view(config.superclasses@).contains(name@),
        output_for(r, seq![Api::Struct { name, kind: TypeKind::Pod, body, generic_params, doc }], seq![], map, config),
    ensures
        r.len() == 5,
        r[0] == extern_type_impl(map, TypeKind::Pod, name@).text,
        extern_type_impl(map, TypeKind::Pod, name@).kind == ItemKind::ExternTypeTrivial,
        r[1] == "mod bindgen { pub(super) mod root { "@ + join(seq![body@] + uses_for_ns(0, config.exclude_utilities), " "@) + " } }"@,
        r[2] == "#[cxx::bridge] mod cxxbridge { "@ + join(impl_items(name@.id, config.exclude_impls).map_values(|g: GenItemV| g.text) + seq![
            crate::codegen::foreign_block(seq![cxxbridge_type(map, name@, true, None).text]),
            crate::codegen::host_block(seq![]),
        ], " "@) + " }"@,
        cxxbridge_type(map, name@, true, None).kind == ItemKind::BridgeType,
        cxxbridge_type(map, name@, true, None).name == name@.id,
        r[3] == "#[allow(unused_imports)] use bindgen::root;"@,
        r[4] == use_text(name@, UseV::UsedFromCxxBridge),
        use_text(name@, UseV::UsedFromCxxBridge) == "pub use "@ + "cxxbridge::"@ + name@.id + ";"@,
{
    let a = Api::Struct { name, kind: TypeKind::Pod, body, generic_params, doc };
    let apis = seq![a];
    let results = all_results(apis, map, config);
    let names = api_names(apis);
    let item = type_result(map, config.exclude_impls, name@, TypeKind::Pod, Some(body@), strings_view(generic_params@),
        crate::types::opt_view(doc), None);
    assert(results[0] == item);
    assert(names[0] == name@);
    let (t, ur, br) = choose|t: NsTree, ur: Seq<Seq<Seq<char>>>, br: Seq<Seq<Seq<char>>>| {
        &&& tree_wf(t, names)
        &&& ur.len() == t.nodes@.len()
        &&& br.len() == t.nodes@.len()
        &&& forall|k: int| 0 <= k < ur.len() ==> #[trigger] ur[k] == use_level(t.nodes@, names, results, k, ur)
        &&& forall|k: int| 0 <= k < br.len() ==> #[trigger] br[k] == bindgen_level(t.nodes@, results, k, br, config.exclude_utilities)
        &&& r == assembled(results, ur.last(), br.last(), seq![], config.mod_name@, config.exclude_utilities,
            exists|i: int| 0 <= i < apis.len() && needs_native_support(#[trigger] apis[i]))
    };
    lemma_single_root_renders(t, names, results, ur, br, config.exclude_utilities);
    assert(item.materializations =~= seq![UseV::UsedFromCxxBridge]);
    assert(ur.last() =~= seq![use_text(name@, UseV::UsedFromCxxBridge)]);
    assert(crate::emit_common::supers_text(0) =~= Seq::<char>::empty());
    assert(item.bindgen_mod_items =~= seq![GenItemV { kind: ItemKind::ValueType, name: name@.id, text: body@ }]);
    assert(impl_groups(results, seq![0usize]).tys.len() == 0) by {
        let es = seq![0usize];
        assert(es.drop_last() =~= Seq::<usize>::empty());
        assert(es.last() == 0);
        assert(results[0].impl_entry.is_none());
        assert(impl_groups(results, es.drop_last()).tys.len() == 0);
    }
    assert(impl_blocks(impl_groups(results, seq![0usize])) =~= Seq::<Seq<char>>::empty());
    assert(br.last() =~= seq![body@]);
    assert(results.drop_last() =~= Seq::<CodegenResultV>::empty());
    assert(results.last() == item);
    assert(region_texts(results.drop_last(), Region::Global) == Seq::<Seq<char>>::empty());
    assert(region_texts(results.drop_last(), Region::Bridge) == Seq::<Seq<char>>::empty());
    assert(region_texts(results.drop_last(), Region::ForeignDecls) == Seq::<Seq<char>>::empty());
    assert(region_texts(results.drop_last(), Region::HostDecls) == Seq::<Seq<char>>::empty());
    assert(item.global_items == seq![extern_type_impl(map, TypeKind::Pod, name@)]);
    assert(item.extern_c_mod_items == seq![cxxbridge_type(map, name@, true, None)]);
    assert(region_texts(results, Region::Global) =~= seq![extern_type_impl(map, TypeKind::Pod, name@).text]);
    assert(region_texts(results, Region::Bridge) =~= impl_items(name@.id, config.exclude_impls).map_values(|g: GenItemV| g.text));
    assert(region_texts(results, Region::ForeignDecls) =~= seq![cxxbridge_type(map, name@, true, None).text]);
    assert(region_texts(results, Region::HostDecls) =~= Seq::<Seq<char>>::empty());
    assert(!needs_native_support(apis[0]));
    assert(include_lines(seq![], config.mod_name@, false) =~= Seq::<Seq<char>>::empty());
    assert(seq![cxxbridge_type(map, name@, true, None).text] + Seq::<Seq<char>>::empty() =~= seq![cxxbridge_type(map, name@, true, None).text]);
}

} // verus!
