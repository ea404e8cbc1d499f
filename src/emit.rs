use vstd::prelude::*;
use crate::names::{QualifiedName, QnView, strings_view};
use crate::model::{Api, CodegenConfig, CodegenResult, CodegenResultV, GenItem, GenItemV, ItemKind, TypeKind, Use, UseV, empty_result, items_view, params_view, uses_view};
use crate::context::{BaseMethods, SuperclassMethod, SuperclassMethodV, any_unsafe, methods_view, names_view};
use crate::context::contains_name;
use crate::text::{cat3, cat5};
use crate::emit_common::{render_signature, signature_text};
use crate::bridge_types::OriginalName;
use crate::errors::{error_entry, generate_error_entry};
use crate::types::{generate_type, opt_view, type_result};
use crate::subclass::{generate_subclass, generate_subclass_fn, subclass_fn_result, subclass_result};

verus! {

/// The methods recorded for the base `q`: those of the first entry for it.
pub open spec fn methods_for(table: Seq<BaseMethods>, q: QnView) -> Option<Seq<SuperclassMethodV>>
    decreases table.len(),
{
    if table.len() == 0 {
        None
    } else {
        match methods_for(table.drop_last(), q) {
            Some(m) => Some(m),
            None => if table.last().base@ == q { Some(methods_view(table.last().methods@)) } else { None },
        }
    }
}

proof fn lemma_methods_prefix(table: Seq<BaseMethods>, q: QnView, i: int)
    requires
        0 <= i <= table.len(),
        methods_for(table.subrange(0, i), q).is_some(),
    ensures
        methods_for(table, q) == methods_for(table.subrange(0, i), q),
    decreases table.len() - i,
{
    if i < table.len() {
        assert(table.subrange(0, i + 1).drop_last() =~= table.subrange(0, i));
        lemma_methods_prefix(table, q, i + 1);
    } else {
        assert(table.subrange(0, i) =~= table);
    }
}

/// Looks up the methods recorded for a base.
pub fn find_methods<'a>(table: &'a Vec<BaseMethods>, q: &QualifiedName) -> (r: Option<&'a Vec<SuperclassMethod>>)
    ensures
        match r {
            Some(ms) => methods_for(table@, q@) == Some(methods_view(ms@)),
            None => methods_for(table@, q@).is_none(),
        },
{
    let mut i: usize = 0;
    while i < table.len()
        invariant
            i <= table.len(),
            methods_for(table@.subrange(0, i as int), q@).is_none(),
        decreases table.len() - i,
    {
        assert(table@.subrange(0, i + 1).drop_last() =~= table@.subrange(0, i as int));
        if table[i].base.same_as(q) {
            proof {
                lemma_methods_prefix(table@, q@, i + 1);
            }
            return Some(&table[i].methods);
        }
        i = i + 1;
    }
    assert(table@.subrange(0, table.len() as int) =~= table@);
    None
}

/// The conversion trait into a foreign-owned string, and its four source forms.
pub open spec fn string_items() -> Seq<GenItemV> {
    seq![
        GenItemV { kind: ItemKind::Trait, name: "ToCppString"@,
            text: "pub trait ToCppString { fn into_cpp(self) -> cxx::UniquePtr<cxx::CxxString>; }"@ },
        GenItemV { kind: ItemKind::Impl, name: "ToCppString"@,
            text: "impl ToCppString for &str { fn into_cpp(self) -> cxx::UniquePtr<cxx::CxxString> { make_string(self) } }"@ },
        GenItemV { kind: ItemKind::Impl, name: "ToCppString"@,
            text: "impl ToCppString for String { fn into_cpp(self) -> cxx::UniquePtr<cxx::CxxString> { make_string(&self) } }"@ },
        GenItemV { kind: ItemKind::Impl, name: "ToCppString"@,
            text: "impl ToCppString for &String { fn into_cpp(self) -> cxx::UniquePtr<cxx::CxxString> { make_string(self) } }"@ },
        GenItemV { kind: ItemKind::Impl, name: "ToCppString"@,
            text: "impl ToCppString for cxx::UniquePtr<cxx::CxxString> { fn into_cpp(self) -> cxx::UniquePtr<cxx::CxxString> { self } }"@ },
    ]
}

pub fn get_string_items() -> (r: Vec<GenItem>)
    ensures
        items_view(r@) == string_items(),
{
    let r = vec![
        crate::model::gen_item(ItemKind::Trait, "ToCppString",
            String::from_str("pub trait ToCppString { fn into_cpp(self) -> cxx::UniquePtr<cxx::CxxString>; }")),
        crate::model::gen_item(ItemKind::Impl, "ToCppString",
            String::from_str("impl ToCppString for &str { fn into_cpp(self) -> cxx::UniquePtr<cxx::CxxString> { make_string(self) } }")),
        crate::model::gen_item(ItemKind::Impl, "ToCppString",
            String::from_str("impl ToCppString for String { fn into_cpp(self) -> cxx::UniquePtr<cxx::CxxString> { make_string(&self) } }")),
        crate::model::gen_item(ItemKind::Impl, "ToCppString",
            String::from_str("impl ToCppString for &String { fn into_cpp(self) -> cxx::UniquePtr<cxx::CxxString> { make_string(self) } }")),
        crate::model::gen_item(ItemKind::Impl, "ToCppString",
            String::from_str("impl ToCppString for cxx::UniquePtr<cxx::CxxString> { fn into_cpp(self) -> cxx::UniquePtr<cxx::CxxString> { self } }")),
    ];
    assert(items_view(r@) =~= string_items());
    r
}

/// What one API item becomes, given the recorded base methods and the
/// derived types eligible for a peer constructor.
pub open spec fn api_result(
    api: Api,
    map: Seq<OriginalName>,
    exclude_impls: bool,
    makestring_name: Seq<char>,
    methods: spec_fn(QnView) -> Option<Seq<SuperclassMethodV>>,
    trivial: spec_fn(QnView) -> bool,
) -> CodegenResultV {
    match api {
        Api::StringConstructor { .. } => CodegenResultV {
            extern_c_mod_items: seq![GenItemV { kind: ItemKind::BridgeFn, name: makestring_name,
                text: "fn "@ + makestring_name + "(str_: &str) -> UniquePtr<CxxString>;"@ }],
            global_items: string_items(),
            materializations: seq![UseV::UsedFromCxxBridgeWithAlias("make_string"@)],
            ..empty_result()
        },
        Api::Function { name, analysis } => CodegenResultV {
            extern_c_mod_items: seq![GenItemV { kind: ItemKind::BridgeFn, name: name@.id,
                text: signature_text(any_unsafe(params_view(analysis.params@)), name@.id, params_view(analysis.params@), analysis.ret_type@) + ";"@ }],
            materializations: seq![UseV::UsedFromCxxBridge],
            ..empty_result()
        },
        Api::Const { name, body } | Api::Typedef { name, body } => CodegenResultV {
            bindgen_mod_items: seq![GenItemV { kind: ItemKind::Verbatim, name: name@.id, text: body@ }],
            materializations: seq![UseV::UsedFromBindgen],
            ..empty_result()
        },
        Api::Struct { name, kind, body, generic_params, doc } =>
            type_result(map, exclude_impls, name@, kind, Some(body@), strings_view(generic_params@), opt_view(doc), methods(name@)),
        Api::Enum { name, body, doc } =>
            type_result(map, exclude_impls, name@, TypeKind::Pod, Some(body@), seq![], opt_view(doc), methods(name@)),
        Api::ForwardDeclaration { name } =>
            type_result(map, exclude_impls, name@, TypeKind::Abstract, None, seq![], None, methods(name@)),
        Api::CType { name } => CodegenResultV {
            extern_c_mod_items: seq![GenItemV { kind: ItemKind::Verbatim, name: name@.id,
                text: "type "@ + name@.id + " = autocxx::"@ + name@.id + ";"@ }],
            ..empty_result()
        },
        Api::RustType { name, path } => CodegenResultV {
            global_items: seq![GenItemV { kind: ItemKind::Use, name: name@.id, text: "use super::"@ + path@ + ";"@ }],
            extern_rust_mod_items: seq![GenItemV { kind: ItemKind::BridgeType, name: name@.id, text: "type "@ + name@.id + ";"@ }],
            ..empty_result()
        },
        Api::RustFn { name, sig, path } => CodegenResultV {
            global_items: seq![GenItemV { kind: ItemKind::Use, name: name@.id, text: "use super::"@ + path@ + ";"@ }],
            extern_rust_mod_items: seq![GenItemV { kind: ItemKind::BridgeFn, name: name@.id, text: sig@ + ";"@ }],
            ..empty_result()
        },
        Api::SubclassFn { name, details, subclass } => subclass_fn_result(name@.id, details, subclass@),
        Api::Subclass { name, superclass } =>
            subclass_result(map, exclude_impls, name@, superclass@, methods(superclass@), trivial(name@)),
        Api::SubclassConstructor { .. } => empty_result(),
        Api::Ignored { err, ctx, .. } => error_entry(err@, ctx),
    }
}

fn single(kind: ItemKind, name: &String, text: String) -> (r: Vec<GenItem>)
    ensures
        items_view(r@) == seq![GenItemV { kind, name: name@, text: text@ }],
{
    let r = vec![GenItem { kind, name: name.clone(), text }];
    assert(items_view(r@) =~= seq![GenItemV { kind, name: name@, text: text@ }]);
    r
}

/// Generates the output bundle of one API item.
pub fn generate_rs_for_api(
    api: &Api,
    map: &Vec<OriginalName>,
    config: &CodegenConfig,
    associated_methods: &Vec<BaseMethods>,
    trivially_constructed: &Vec<QualifiedName>,
) -> (r: CodegenResult)
    ensures
        r@ == api_result(*api, map@, config.exclude_impls, config.makestring_name@,
            |q: QnView| methods_for(associated_methods@, q), |q: QnView| names_view(trivially_constructed@).contains(q)),
{
    let ghost want = api_result(*api, map@, config.exclude_impls, config.makestring_name@,
        |q: QnView| methods_for(associated_methods@, q), |q: QnView| names_view(trivially_constructed@).contains(q));
    match api {
        Api::StringConstructor { .. } => {
            let mut r = CodegenResult::empty();
            let n = &config.makestring_name;
            r.extern_c_mod_items = single(ItemKind::BridgeFn, n, cat3("fn ", n.as_str(), "(str_: &str) -> UniquePtr<CxxString>;"));
            r.global_items = get_string_items();
            r.materializations.push(Use::UsedFromCxxBridgeWithAlias(String::from_str("make_string")));
            assert(uses_view(r.materializations@) =~= want.materializations);
            assert(r@ =~= want);
            r
        },
        Api::Function { name, analysis } => {
            let mut r = CodegenResult::empty();
            let u = crate::context::any_requires_unsafe(&analysis.params);
            let sig = render_signature(u, &name.id, &analysis.params, &analysis.ret_type);
            r.extern_c_mod_items = single(ItemKind::BridgeFn, &name.id, cat3(sig.as_str(), ";", ""));
            proof { reveal_strlit(""); }
            r.materializations.push(Use::UsedFromCxxBridge);
            assert(items_view(r.extern_c_mod_items@) =~= want.extern_c_mod_items);
            assert(uses_view(r.materializations@) =~= want.materializations);
            assert(r@ =~= want);
            r
        },
        Api::Const { name, body } | Api::Typedef { name, body } => {
            let mut r = CodegenResult::empty();
            r.bindgen_mod_items = single(ItemKind::Verbatim, &name.id, body.clone());
            r.materializations.push(Use::UsedFromBindgen);
            assert(uses_view(r.materializations@) =~= want.materializations);
            assert(r@ =~= want);
            r
        },
        Api::Struct { name, kind, body, generic_params, doc } => {
            let b = Some(body.clone());
            generate_type(map, config, name, *kind, &b, generic_params, doc, find_methods(associated_methods, name))
        },
        Api::Enum { name, body, doc } => {
            let b = Some(body.clone());
            let none: Vec<String> = Vec::new();
            assert(strings_view(none@) =~= Seq::<Seq<char>>::empty());
            generate_type(map, config, name, TypeKind::Pod, &b, &none, doc, find_methods(associated_methods, name))
        },
        Api::ForwardDeclaration { name } => {
            let none: Vec<String> = Vec::new();
            assert(strings_view(none@) =~= Seq::<Seq<char>>::empty());
            generate_type(map, config, name, TypeKind::Abstract, &None, &none, &None, find_methods(associated_methods, name))
        },
        Api::CType { name } => {
            let mut r = CodegenResult::empty();
            r.extern_c_mod_items = single(ItemKind::Verbatim, &name.id,
                cat5("type ", name.id.as_str(), " = autocxx::", name.id.as_str(), ";"));
            assert(r@ =~= want);
            r
        },
        Api::RustType { name, path } => {
            let mut r = CodegenResult::empty();
            r.global_items = single(ItemKind::Use, &name.id, cat3("use super::", path.as_str(), ";"));
            r.extern_rust_mod_items = single(ItemKind::BridgeType, &name.id, cat3("type ", name.id.as_str(), ";"));
            assert(r@ =~= want);
            r
        },
        Api::RustFn { name, sig, path } => {
            let mut r = CodegenResult::empty();
            r.global_items = single(ItemKind::Use, &name.id, cat3("use super::", path.as_str(), ";"));
            r.extern_rust_mod_items = single(ItemKind::BridgeFn, &name.id, cat3(sig.as_str(), ";", ""));
            proof { reveal_strlit(""); }
            assert(items_view(r.extern_rust_mod_items@) =~= want.extern_rust_mod_items);
            assert(r@ =~= want);
            r
        },
        Api::SubclassFn { name, details, subclass } => generate_subclass_fn(&name.id, details, subclass),
        Api::Subclass { name, superclass } => {
            let methods = find_methods(associated_methods, superclass);
            let peer = contains_name(trivially_constructed, name);
            generate_subclass(map, config, name, superclass, methods, peer)
        },
        Api::SubclassConstructor { .. } => CodegenResult::empty(),
        Api::Ignored { err, ctx, .. } => generate_error_entry(err, ctx),
    }
}

} // verus!
