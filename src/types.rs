use vstd::prelude::*;
use crate::names::{QualifiedName, QnView, strings_view};
use crate::model::{params_view, CodegenConfig, CodegenResult, CodegenResultV, GenItem, GenItemV, ItemKind, ParamV, TypeKind, Use, UseV, empty_result, items_view, uses_view};
use crate::context::{SuperclassMethod, SuperclassMethodV, methods_view};
use crate::text::{join, join_strings};
use crate::emit_common::{param_text, ret_text, render_ret, unsafe_prefix, unsafe_token};
use crate::bridge_types::{OriginalName, cxxbridge_type, extern_type_impl, generate_cxxbridge_type, generate_extern_type_impl, opt_doc};

verus! {

pub open spec fn receiver_text(m: SuperclassMethodV) -> Seq<char> {
    if m.receiver_mutability == crate::model::ReceiverMutability::Const { "&self"@ } else { "&mut self"@ }
}

/// The parameters after the receiver.
pub open spec fn rest_params(ps: Seq<ParamV>) -> Seq<ParamV> {
    if ps.len() == 0 { ps } else { ps.drop_first() }
}

/// A method's parameter list with its receiver written as `self`.
pub open spec fn method_params_text(m: SuperclassMethodV) -> Seq<char> {
    join(seq![receiver_text(m)] + rest_params(m.params).map_values(|p: ParamV| param_text(p)), ", "@)
}

/// The names of the arguments forwarded after the receiver.
pub open spec fn forwarded_args(m: SuperclassMethodV) -> Seq<Seq<char>> {
    rest_params(m.params).map_values(|p: ParamV| p.name)
}

pub open spec fn method_sig_text(m: SuperclassMethodV, name: Seq<char>) -> Seq<char> {
    unsafe_prefix(m.requires_unsafe) + "fn "@ + name + "("@ + method_params_text(m) + ")"@ + ret_text(m.ret_type)
}

/// The raw super-call signature of a method.
pub open spec fn super_decl_text(m: SuperclassMethodV) -> Seq<char> {
    method_sig_text(m, m.name + "_super"@) + ";"@
}

/// The overridable signature of a method, by default calling the super-call.
pub open spec fn main_def_text(m: SuperclassMethodV) -> Seq<char> {
    method_sig_text(m, m.name) + " { self."@ + m.name + "_super("@ + join(forwarded_args(m), ", "@) + ") }"@
}

pub open spec fn supers_trait_text(base: QnView, ms: Seq<SuperclassMethodV>) -> Seq<char> {
    "#[allow(non_snake_case)] pub trait "@ + (base.id + "_supers"@) + " { "@
        + join(ms.map_values(|m: SuperclassMethodV| super_decl_text(m)), " "@) + " }"@
}

pub open spec fn methods_trait_text(base: QnView, ms: Seq<SuperclassMethodV>) -> Seq<char> {
    "#[allow(non_snake_case)] pub trait "@ + (base.id + "_methods"@) + " : "@ + (base.id + "_supers"@) + " { "@
        + join(ms.map_values(|m: SuperclassMethodV| main_def_text(m)), " "@) + " }"@
}

/// The two traits an extensible base with virtual methods contributes.
pub open spec fn superclass_traits(base: QnView, ms: Seq<SuperclassMethodV>) -> Seq<GenItemV> {
    seq![
        GenItemV { kind: ItemKind::Trait, name: base.id + "_supers"@, text: supers_trait_text(base, ms) },
        GenItemV { kind: ItemKind::Trait, name: base.id + "_methods"@, text: methods_trait_text(base, ms) },
    ]
}

pub open spec fn superclass_uses(base: QnView) -> Seq<UseV> {
    seq![UseV::SpecificNameFromBindgen(base.id + "_methods"@), UseV::SpecificNameFromBindgen(base.id + "_supers"@)]
}

fn render_method_params(m: &SuperclassMethod) -> (r: String)
    ensures
        r@ == method_params_text(m@),
{
    let mut parts: Vec<String> = Vec::new();
    match m.receiver_mutability {
        crate::model::ReceiverMutability::Const => parts.push(String::from_str("&self")),
        crate::model::ReceiverMutability::Mutable => parts.push(String::from_str("&mut self")),
    }
    let mut i: usize = 1;
    let ghost rest = rest_params(m@.params).map_values(|p: ParamV| param_text(p));
    while i < m.params.len()
        invariant
            1 <= i <= m.params.len() || (i == 1 && m.params.len() == 0),
            parts@.len() == i,
            parts@[0]@ == receiver_text(m@),
            forall|k: int| 1 <= k < i ==> parts@[k]@ == param_text(m.params@[k]@),
        decreases m.params.len() - i,
    {
        let mut t = m.params[i].name.clone();
        t.append(": ");
        t.append(m.params[i].ty.as_str());
        parts.push(t);
        i = i + 1;
    }
    assert(strings_view(parts@) =~= seq![receiver_text(m@)] + rest);
    join_strings(&parts, ", ")
}

pub(crate) fn render_forwarded_args(m: &SuperclassMethod) -> (r: String)
    ensures
        r@ == join(forwarded_args(m@), ", "@),
{
    let mut parts: Vec<String> = Vec::new();
    let mut i: usize = 1;
    while i < m.params.len()
        invariant
            1 <= i,
            i <= m.params.len() || (i == 1 && m.params.len() == 0),
            parts@.len() == i - 1,
            forall|k: int| 0 <= k < i - 1 ==> parts@[k]@ == m.params@[k + 1].name@,
        decreases m.params.len() - i,
    {
        parts.push(m.params[i].name.clone());
        i = i + 1;
    }
    assert forall|k: int| 0 <= k < forwarded_args(m@).len() implies strings_view(parts@)[k] == forwarded_args(m@)[k] by {
        assert(parts@[k]@ == m.params@[k + 1].name@);
    }
    assert(strings_view(parts@) =~= forwarded_args(m@));
    join_strings(&parts, ", ")
}

pub(crate) fn render_method_sig(m: &SuperclassMethod, name: &String) -> (r: String)
    ensures
        r@ == method_sig_text(m@, name@),
{
    let mut t = unsafe_token(m.requires_unsafe);
    t.append("fn ");
    t.append(name.as_str());
    t.append("(");
    let p = render_method_params(m);
    t.append(p.as_str());
    t.append(")");
    let r = render_ret(&m.ret_type);
    t.append(r.as_str());
    t
}

fn render_super_decl(m: &SuperclassMethod) -> (r: String)
    ensures
        r@ == super_decl_text(m@),
{
    let mut n = m.name.clone();
    n.append("_super");
    let mut t = render_method_sig(m, &n);
    t.append(";");
    t
}

fn render_main_def(m: &SuperclassMethod) -> (r: String)
    ensures
        r@ == main_def_text(m@),
{
    let mut t = render_method_sig(m, &m.name);
    t.append(" { self.");
    t.append(m.name.as_str());
    t.append("_super(");
    let a = render_forwarded_args(m);
    t.append(a.as_str());
    t.append(") }");
    t
}

/// Whether a base has at least one recorded virtual method.
pub open spec fn has_methods(methods: Option<Seq<SuperclassMethodV>>) -> bool {
    match methods {
        Some(ms) => ms.len() > 0,
        None => false,
    }
}

/// Adds the supers and methods traits of the extensible base `name`, when it
/// has at least one recorded virtual method, with their re-exports.
pub fn add_superclass_stuff_to_type(
    name: &QualifiedName,
    bindgen_mod_items: &mut Vec<GenItem>,
    materializations: &mut Vec<Use>,
    methods: Option<&Vec<SuperclassMethod>>,
)
    ensures
        match methods {
            Some(ms) if ms@.len() > 0 => {
                &&& items_view(final(bindgen_mod_items)@) == items_view(old(bindgen_mod_items)@)
                    + superclass_traits(name@, methods_view(ms@))
                &&& uses_view(final(materializations)@) == uses_view(old(materializations)@) + superclass_uses(name@)
            },
            _ => {
                &&& final(bindgen_mod_items)@ == old(bindgen_mod_items)@
                &&& final(materializations)@ == old(materializations)@
            },
        },
{
    if let Some(ms) = methods {
        if ms.len() == 0 {
            return;
        }
        let mut supers: Vec<String> = Vec::new();
        let mut mains: Vec<String> = Vec::new();
        let mut i: usize = 0;
        while i < ms.len()
            invariant
                i <= ms.len(),
                supers@.len() == i,
                mains@.len() == i,
                forall|k: int| 0 <= k < i ==> supers@[k]@ == super_decl_text(ms@[k]@),
                forall|k: int| 0 <= k < i ==> mains@[k]@ == main_def_text(ms@[k]@),
            decreases ms.len() - i,
        {
            supers.push(render_super_decl(&ms[i]));
            mains.push(render_main_def(&ms[i]));
            i = i + 1;
        }
        assert(strings_view(supers@) =~= methods_view(ms@).map_values(|m: SuperclassMethodV| super_decl_text(m)));
        assert(strings_view(mains@) =~= methods_view(ms@).map_values(|m: SuperclassMethodV| main_def_text(m)));
        let mut supers_name = name.id.clone();
        supers_name.append("_supers");
        let mut methods_name = name.id.clone();
        methods_name.append("_methods");
        let mut t1 = String::from_str("#[allow(non_snake_case)] pub trait ");
        t1.append(supers_name.as_str());
        t1.append(" { ");
        let j1 = join_strings(&supers, " ");
        t1.append(j1.as_str());
        t1.append(" }");
        let mut t2 = String::from_str("#[allow(non_snake_case)] pub trait ");
        t2.append(methods_name.as_str());
        t2.append(" : ");
        t2.append(supers_name.as_str());
        t2.append(" { ");
        let j2 = join_strings(&mains, " ");
        t2.append(j2.as_str());
        t2.append(" }");
        let ghost b0 = bindgen_mod_items@;
        let ghost m0 = materializations@;
        assert(t1@ == supers_trait_text(name@, methods_view(ms@)));
        assert(t2@ == methods_trait_text(name@, methods_view(ms@)));
        bindgen_mod_items.push(GenItem { kind: ItemKind::Trait, name: supers_name.clone(), text: t1 });
        bindgen_mod_items.push(GenItem { kind: ItemKind::Trait, name: methods_name.clone(), text: t2 });
        materializations.push(Use::SpecificNameFromBindgen(methods_name));
        materializations.push(Use::SpecificNameFromBindgen(supers_name));
        assert(items_view(bindgen_mod_items@) =~= items_view(b0).push(superclass_traits(name@, methods_view(ms@))[0]).push(superclass_traits(name@, methods_view(ms@))[1]));
        assert(items_view(bindgen_mod_items@) =~= items_view(b0) + superclass_traits(name@, methods_view(ms@)));
        assert(uses_view(materializations@) =~= uses_view(m0) + superclass_uses(name@));
    }
}

/// The smart-pointer and vector instantiations the bridge gets for a type.
pub open spec fn impl_items(id: Seq<char>, exclude_impls: bool) -> Seq<GenItemV> {
    if exclude_impls {
        seq![]
    } else {
        seq![
            GenItemV { kind: ItemKind::Impl, name: id, text: "impl UniquePtr<"@ + id + "> {}"@ },
            GenItemV { kind: ItemKind::Impl, name: id, text: "impl SharedPtr<"@ + id + "> {}"@ },
            GenItemV { kind: ItemKind::Impl, name: id, text: "impl WeakPtr<"@ + id + "> {}"@ },
            GenItemV { kind: ItemKind::Impl, name: id, text: "impl CxxVector<"@ + id + "> {}"@ },
        ]
    }
}

fn impl_item(prefix: &str, id: &String) -> (r: GenItem)
    ensures
        r@ == (GenItemV { kind: ItemKind::Impl, name: id@, text: prefix@ + id@ + "> {}"@ }),
{
    let mut t = String::from_str(prefix);
    t.append(id.as_str());
    t.append("> {}");
    GenItem { kind: ItemKind::Impl, name: id.clone(), text: t }
}

pub fn create_impl_items(id: &String, config: &CodegenConfig) -> (r: Vec<GenItem>)
    ensures
        items_view(r@) == impl_items(id@, config.exclude_impls),
{
    let mut r: Vec<GenItem> = Vec::new();
    if !config.exclude_impls {
        r.push(impl_item("impl UniquePtr<", id));
        r.push(impl_item("impl SharedPtr<", id));
        r.push(impl_item("impl WeakPtr<", id));
        r.push(impl_item("impl CxxVector<", id));
    }
    assert(items_view(r@) =~= impl_items(id@, config.exclude_impls));
    r
}

/// A generic parameter list; nothing when there is none.
pub open spec fn generics_text(g: Seq<Seq<char>>) -> Seq<char> {
    if g.len() == 0 { seq![] } else { "<"@ + join(g, ", "@) + ">"@ }
}

/// A field that uses every generic parameter; nothing when there is none.
pub open spec fn phantom_text(g: Seq<Seq<char>>) -> Seq<char> {
    if g.len() == 0 { seq![] } else { ", _phantom: core::marker::PhantomData<("@ + join(g, ", "@) + ")>"@ }
}

fn render_generics(g: &Vec<String>) -> (r: (String, String))
    ensures
        r.0@ == generics_text(strings_view(g@)),
        r.1@ == phantom_text(strings_view(g@)),
{
    if g.len() == 0 {
        (String::new(), String::new())
    } else {
        let j = join_strings(g, ", ");
        (crate::text::cat3("<", j.as_str(), ">"), crate::text::cat3(", _phantom: core::marker::PhantomData<(", j.as_str(), ")>"))
    }
}

/// The stand-in definition of an opaque type nested in another type: a flat
/// struct under the nested name, keeping its generic parameters and doc.
pub open spec fn nested_placeholder_text(id: Seq<char>, generics: Seq<Seq<char>>, doc: Option<Seq<char>>) -> Seq<char> {
    opt_doc(doc) + "#[repr(C)] pub struct "@ + id + generics_text(generics)
        + " { _pinned: core::marker::PhantomData<core::marker::PhantomPinned>, _data: [u8; 0]"@ + phantom_text(generics) + " }"@
}

pub open spec fn opt_view(o: Option<String>) -> Option<Seq<char>> {
    match o {
        Some(s) => Some(s@),
        None => None,
    }
}

/// The output for a record or enum type of the given kind; `body` is its
/// definition where one is known.
pub open spec fn type_result(
    map: Seq<OriginalName>,
    config_exclude_impls: bool,
    name: QnView,
    kind: TypeKind,
    body: Option<Seq<char>>,
    generics: Seq<Seq<char>>,
    doc: Option<Seq<char>>,
    methods: Option<Seq<SuperclassMethodV>>,
) -> CodegenResultV {
    let traits = if has_methods(methods) { superclass_traits(name, methods.unwrap()) } else { seq![] };
    let uses = seq![UseV::UsedFromCxxBridge] + if has_methods(methods) { superclass_uses(name) } else { seq![] };
    if kind == TypeKind::Pod || kind == TypeKind::NonPodNested {
        let def = if kind == TypeKind::Pod { body.unwrap() } else { nested_placeholder_text(name.id, generics, doc) };
        CodegenResultV {
            global_items: seq![extern_type_impl(map, kind, name)],
            bridge_items: impl_items(name.id, config_exclude_impls),
            extern_c_mod_items: seq![cxxbridge_type(map, name, true, None)],
            bindgen_mod_items: traits.push(GenItemV { kind: ItemKind::ValueType, name: name.id, text: def }),
            materializations: uses,
            ..empty_result()
        }
    } else {
        CodegenResultV {
            extern_c_mod_items: seq![cxxbridge_type(map, name, false, doc)],
            bindgen_mod_items: traits.push(GenItemV { kind: ItemKind::Use, name: name.id, text: "pub use cxxbridge::"@ + name.id + ";"@ }),
            materializations: uses,
            ..empty_result()
        }
    }
}

/// Generates a record or enum type.
pub fn generate_type(
    map: &Vec<OriginalName>,
    config: &CodegenConfig,
    name: &QualifiedName,
    kind: TypeKind,
    body: &Option<String>,
    generics: &Vec<String>,
    doc: &Option<String>,
    methods: Option<&Vec<SuperclassMethod>>,
) -> (r: CodegenResult)
    requires
        kind == TypeKind::Pod ==> body.is_some(),
    ensures
        r@ == type_result(map@, config.exclude_impls, name@, kind, opt_view(*body), strings_view(generics@), opt_view(*doc),
            match methods { Some(ms) => Some(methods_view(ms@)), None => None }),
{
    let mut r = CodegenResult::empty();
    r.materializations.push(Use::UsedFromCxxBridge);
    add_superclass_stuff_to_type(name, &mut r.bindgen_mod_items, &mut r.materializations, methods);
    let ghost mv = match methods { Some(ms) => Some(methods_view(ms@)), None => None };
    let ghost traits = if has_methods(mv) { superclass_traits(name@, mv.unwrap()) } else { seq![] };
    assert(items_view(r.bindgen_mod_items@) =~= traits);
    if kind == TypeKind::Pod || kind == TypeKind::NonPodNested {
        let def = if kind == TypeKind::Pod {
            match body {
                Some(b) => b.clone(),
                None => String::new(),
            }
        } else {
            let mut t = match doc {
                Some(d) => {
                    let mut a = crate::emit_common::render_doc_attr(d.as_str());
                    a.append(" ");
                    a
                },
                None => String::new(),
            };
            t.append("#[repr(C)] pub struct ");
            t.append(name.id.as_str());
            let (gen_params, phantom) = render_generics(generics);
            t.append(gen_params.as_str());
            t.append(" { _pinned: core::marker::PhantomData<core::marker::PhantomPinned>, _data: [u8; 0]");
            t.append(phantom.as_str());
            t.append(" }");
            t
        };
        r.bindgen_mod_items.push(GenItem { kind: ItemKind::ValueType, name: name.id.clone(), text: def });
        r.global_items.push(generate_extern_type_impl(map, kind, name));
        r.bridge_items = create_impl_items(&name.id, config);
        r.extern_c_mod_items.push(generate_cxxbridge_type(map, name, true, &None));
    } else {
        let mut t = String::from_str("pub use cxxbridge::");
        t.append(name.id.as_str());
        t.append(";");
        r.bindgen_mod_items.push(GenItem { kind: ItemKind::Use, name: name.id.clone(), text: t });
        r.extern_c_mod_items.push(generate_cxxbridge_type(map, name, false, doc));
    }
    let ghost want = type_result(map@, config.exclude_impls, name@, kind, opt_view(*body), strings_view(generics@), opt_view(*doc), mv);
    assert(items_view(r.bindgen_mod_items@) =~= want.bindgen_mod_items);
    assert(items_view(r.global_items@) =~= want.global_items);
    assert(items_view(r.extern_c_mod_items@) =~= want.extern_c_mod_items);
    assert(uses_view(r.materializations@) =~= want.materializations);
    assert(r@ =~= want);
    r
}

} // verus!

verus! {

proof fn lemma_methods_on_contains(apis: Seq<crate::model::Api>, b: QnView, i: int)
    requires
        0 <= i < apis.len(),
        crate::context::is_virtual_on(apis[i], b),
    ensures
        crate::context::methods_on(apis, b).contains(crate::context::method_record(apis[i])),
    decreases apis.len(),
{
    let pre = apis.drop_last();
    if i < apis.len() - 1 {
        assert(pre[i] == apis[i]);
        lemma_methods_on_contains(pre, b, i);
        let ms = crate::context::methods_on(pre, b);
        let m = choose|m: int| 0 <= m < ms.len() && ms[m] == crate::context::method_record(apis[i]);
        assert(crate::context::methods_on(apis, b)[m] == ms[m]);
    } else {
        let ms = crate::context::methods_on(apis, b);
        assert(ms[ms.len() - 1] == crate::context::method_record(apis[i]));
    }
}

/// A virtual or pure-virtual method item on the base `b` is among the
/// methods recorded for `b`, with its parameters in their original order,
/// and every parameter name but the receiver's is forwarded, in order.
pub proof fn virtual_method_is_recorded(apis: Seq<crate::model::Api>, b: QnView, i: int)
    requires
        0 <= i < apis.len(),
        crate::context::is_virtual_on(apis[i], b),
    ensures
        crate::context::methods_on(apis, b).contains(crate::context::method_record(apis[i])),
        ({
            let m = crate::context::method_record(apis[i]);
            &&& m.params == params_view(apis[i]->Function_analysis.params@)
            &&& m.params.len() > 0 ==> forwarded_args(m)
                == m.params.map_values(|p: ParamV| p.name).subrange(1, m.params.len() as int)
        }),
{
    lemma_methods_on_contains(apis, b, i);
    let m = crate::context::method_record(apis[i]);
    if m.params.len() > 0 {
        assert(forwarded_args(m) =~= m.params.map_values(|p: ParamV| p.name).subrange(1, m.params.len() as int));
    }
}

} // verus!
