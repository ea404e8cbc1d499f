use vstd::prelude::*;
use crate::names::{QualifiedName, QnView, strings_view};
use crate::model::{CodegenConfig, CodegenResult, CodegenResultV, GenItem, GenItemV, ItemKind, ParamV, ReceiverMutability, SubclassFnDetails, Use, UseV, empty_result, items_view, params_view, uses_view};
use crate::context::{SuperclassMethod, SuperclassMethodV, methods_view};
use crate::text::{cat3, cat5, cat7, join, join_strings, quoted, quote_text};
use crate::emit_common::{unqualified_params, unqualify_params, methods_trait_name, path_text, render_path, render_signature, signature_text, suffixed, supers_trait_name};
use crate::bridge_types::{OriginalName, cxxbridge_type, generate_cxxbridge_type};
use crate::types::{create_impl_items, forwarded_args, impl_items, method_sig_text};

verus! {

/// The fault raised when the host object behind a peer is gone.
pub open spec fn destroyed_msg(method: Seq<char>, sub: Seq<char>, sup: Seq<char>) -> Seq<char> {
    "Rust subclass API (method "@ + method + " of subclass "@ + sub + " of superclass "@ + sup
        + ") called after subclass destroyed"@
}

/// The fault raised on a re-entrant call into a host object already borrowed.
pub open spec fn reentrant_msg(method: Seq<char>, sub: Seq<char>, sup: Seq<char>) -> Seq<char> {
    "Rust subclass API (method "@ + method + " of subclass "@ + sub + " of superclass "@ + sup
        + ") called whilst subclass already borrowed - likely a re-entrant call"@
}

pub open spec fn mut_kw(m: ReceiverMutability) -> Seq<char> {
    if m == ReceiverMutability::Mutable { "mut "@ } else { seq![] }
}

pub open spec fn borrow_call(m: ReceiverMutability) -> Seq<char> {
    if m == ReceiverMutability::Mutable { "try_borrow_mut"@ } else { "try_borrow"@ }
}

pub open spec fn deref_call(m: ReceiverMutability) -> Seq<char> {
    if m == ReceiverMutability::Mutable { "DerefMut::deref_mut"@ } else { "Deref::deref"@ }
}

/// The names of the arguments after the back-reference holder.
pub open spec fn call_args(ps: Seq<ParamV>) -> Seq<Seq<char>> {
    if ps.len() == 0 { seq![] } else { ps.drop_first().map_values(|p: ParamV| p.name) }
}

pub open spec fn args_tail(ps: Seq<ParamV>) -> Seq<char> {
    if call_args(ps).len() == 0 { seq![] } else { ", "@ + join(call_args(ps), ", "@) }
}

/// The statements of a forwarding function, in order: resolve the
/// back-reference, borrow the host object, dereference it, call the method.
pub open spec fn forwarding_body(
    ps: Seq<ParamV>,
    method: Seq<char>,
    m: ReceiverMutability,
    sub: Seq<char>,
    sup: QnView,
) -> Seq<Seq<char>> {
    seq![
        "let rc = me.0.get().expect("@ + quoted(destroyed_msg(method, sub, sup.id)) + ");"@,
        "let "@ + mut_kw(m) + "b = rc.as_ref()."@ + borrow_call(m) + "().expect("@
            + quoted(reentrant_msg(method, sub, sup.id)) + ");"@,
        "let r = std::ops::"@ + deref_call(m) + "(&"@ + mut_kw(m) + "b);"@,
        path_text(methods_trait_name(sup)) + "::"@ + method + "(r"@ + args_tail(ps) + ")"@,
    ]
}

pub open spec fn forwarding_fn_text(api_name: Seq<char>, d: SubclassFnDetails, sub: QnView) -> Seq<char> {
    signature_text(d.requires_unsafe, api_name, params_view(d.params@), d.ret@) + " {\n"@
        + join(forwarding_body(params_view(d.params@), d.method_name@, d.receiver_mutability, sub.id, d.superclass@), "\n"@)
        + "\n}"@
}

/// The output for the function through which the foreign side reaches a
/// host override; its bridge declaration names types without path qualifiers.
pub open spec fn subclass_fn_result(api_name: Seq<char>, d: SubclassFnDetails, sub: QnView) -> CodegenResultV {
    CodegenResultV {
        global_items: seq![GenItemV { kind: ItemKind::Function, name: api_name, text: forwarding_fn_text(api_name, d, sub) }],
        extern_rust_mod_items: seq![GenItemV {
            kind: ItemKind::BridgeFn,
            name: api_name,
            text: signature_text(d.requires_unsafe, api_name, unqualified_params(params_view(d.params@)),
                crate::text::unqualified(d.ret@)) + ";"@,
        }],
        ..empty_result()
    }
}

fn render_args_tail(ps: &Vec<crate::model::Param>) -> (r: String)
    ensures
        r@ == args_tail(params_view(ps@)),
{
    let mut names: Vec<String> = Vec::new();
    let mut i: usize = 1;
    while i < ps.len()
        invariant
            1 <= i,
            i <= ps.len() || (i == 1 && ps.len() == 0),
            names@.len() == i - 1,
            forall|k: int| 0 <= k < i - 1 ==> names@[k]@ == ps@[k + 1].name@,
        decreases ps.len() - i,
    {
        names.push(ps[i].name.clone());
        i = i + 1;
    }
    assert forall|k: int| 0 <= k < call_args(params_view(ps@)).len() implies
        strings_view(names@)[k] == call_args(params_view(ps@))[k] by {
        assert(names@[k]@ == ps@[k + 1].name@);
    }
    assert(strings_view(names@) =~= call_args(params_view(ps@)));
    if names.len() == 0 {
        String::new()
    } else {
        let mut r = String::from_str(", ");
        let j = join_strings(&names, ", ");
        r.append(j.as_str());
        r
    }
}

fn message(method: &String, sub: &String, sup: &String, tail: &str) -> (r: String)
    ensures
        r@ == "Rust subclass API (method "@ + method@ + " of subclass "@ + sub@ + " of superclass "@ + sup@ + tail@,
{
    let mut r = cat5("Rust subclass API (method ", method.as_str(), " of subclass ", sub.as_str(), " of superclass ");
    r.append(sup.as_str());
    r.append(tail);
    r
}

fn render_forwarding_body(d: &SubclassFnDetails, sub: &QualifiedName) -> (r: Vec<String>)
    ensures
        strings_view(r@) == forwarding_body(params_view(d.params@), d.method_name@, d.receiver_mutability, sub@.id, d.superclass@),
{
    let is_mut = d.receiver_mutability == ReceiverMutability::Mutable;
    let mk = if is_mut { "mut " } else { "" };
    let borrow = if is_mut { "try_borrow_mut" } else { "try_borrow" };
    let deref = if is_mut { "DerefMut::deref_mut" } else { "Deref::deref" };
    let destroyed = message(&d.method_name, &sub.id, &d.superclass.id, ") called after subclass destroyed");
    let reentrant = message(&d.method_name, &sub.id, &d.superclass.id,
        ") called whilst subclass already borrowed - likely a re-entrant call");
    let q1 = quote_text(destroyed.as_str());
    let q2 = quote_text(reentrant.as_str());
    let l0 = cat3("let rc = me.0.get().expect(", q1.as_str(), ");");
    let mut l1 = cat5("let ", mk, "b = rc.as_ref().", borrow, "().expect(");
    l1.append(q2.as_str());
    l1.append(");");
    let l2 = cat7("let r = std::ops::", deref, "(&", mk, "b);", "", "");
    let trait_name = suffixed(&d.superclass, "_methods");
    let p = render_path(&trait_name);
    let tail = render_args_tail(&d.params);
    let l3 = cat7(p.as_str(), "::", d.method_name.as_str(), "(r", tail.as_str(), ")", "");
    proof {
        reveal_strlit("");
        assert(l2@ =~= "let r = std::ops::"@ + deref_call(d.receiver_mutability) + "(&"@ + mut_kw(d.receiver_mutability) + "b);"@);
        assert(l3@ =~= path_text(methods_trait_name(d.superclass@)) + "::"@ + d.method_name@ + "(r"@ + args_tail(params_view(d.params@)) + ")"@);
    }
    let r = vec![l0, l1, l2, l3];
    assert(strings_view(r@) =~= forwarding_body(params_view(d.params@), d.method_name@, d.receiver_mutability, sub@.id, d.superclass@));
    r
}

/// The function the foreign side calls to reach a host override: it fails
/// loudly if the host object is gone or already borrowed, and otherwise
/// calls the method through the base's methods trait.
pub fn generate_subclass_fn(api_name: &String, details: &SubclassFnDetails, subclass: &QualifiedName) -> (r: CodegenResult)
    ensures
        r@ == subclass_fn_result(api_name@, *details, subclass@),
{
    let sig = render_signature(details.requires_unsafe, api_name, &details.params, &details.ret);
    let body = render_forwarding_body(details, subclass);
    let joined = join_strings(&body, "\n");
    let def = cat5(sig.as_str(), " {\n", joined.as_str(), "\n}", "");
    let bridge_params = unqualify_params(&details.params);
    let bridge_ret = crate::text::unqualify(details.ret.as_str());
    let bridge_sig = render_signature(details.requires_unsafe, api_name, &bridge_params, &bridge_ret);
    let decl = cat3(bridge_sig.as_str(), ";", "");
    proof {
        reveal_strlit("");
        assert(def@ =~= forwarding_fn_text(api_name@, *details, subclass@));
        assert(decl@ =~= signature_text(details.requires_unsafe, api_name@, unqualified_params(params_view(details.params@)),
            crate::text::unqualified(details.ret@)) + ";"@);
    }
    let mut r = CodegenResult::empty();
    r.global_items.push(GenItem { kind: ItemKind::Function, name: api_name.clone(), text: def });
    r.extern_rust_mod_items.push(GenItem { kind: ItemKind::BridgeFn, name: api_name.clone(), text: decl });
    assert(items_view(r.global_items@) =~= subclass_fn_result(api_name@, *details, subclass@).global_items);
    assert(items_view(r.extern_rust_mod_items@) =~= subclass_fn_result(api_name@, *details, subclass@).extern_rust_mod_items);
    assert(r@ =~= subclass_fn_result(api_name@, *details, subclass@));
    r
}

/// The forwarding body's first statement resolves the back-reference and
/// raises the "destroyed" fault when it is absent; only the second statement
/// borrows the host object, exclusively when the receiver is mutable, and
/// raises the "re-entrant" fault when that borrow is already held.
pub proof fn forwarding_checks_order(ps: Seq<ParamV>, method: Seq<char>, m: ReceiverMutability, sub: Seq<char>, sup: QnView)
    ensures
        forwarding_body(ps, method, m, sub, sup).len() == 4,
        forwarding_body(ps, method, m, sub, sup)[0]
            == "let rc = me.0.get().expect("@ + quoted(destroyed_msg(method, sub, sup.id)) + ");"@,
        forwarding_body(ps, method, m, sub, sup)[1]
            == "let "@ + mut_kw(m) + "b = rc.as_ref()."@ + borrow_call(m) + "().expect("@
                + quoted(reentrant_msg(method, sub, sup.id)) + ");"@,
        m == ReceiverMutability::Mutable ==> borrow_call(m) == "try_borrow_mut"@,
        m == ReceiverMutability::Const ==> borrow_call(m) == "try_borrow"@,
{
}

} // verus!

verus! {

pub open spec fn holder_name(id: Seq<char>) -> Seq<char> {
    id + "Holder"@
}

pub open spec fn cpp_peer_name(id: Seq<char>) -> Seq<char> {
    id + "Cpp"@
}

pub open spec fn relinquish_name(id: Seq<char>) -> Seq<char> {
    cpp_peer_name(id) + "_remove_ownership"@
}

pub open spec fn remove_ownership_name(id: Seq<char>) -> Seq<char> {
    id + "_remove_ownership"@
}

pub open spec fn as_name(sup: Seq<char>) -> Seq<char> {
    "As_"@ + sup
}

pub open spec fn as_mut_name(sup: Seq<char>) -> Seq<char> {
    "As_"@ + sup + "_mut"@
}

pub open spec fn peer_fn(m: ReceiverMutability) -> Seq<char> {
    if m == ReceiverMutability::Mutable { "peer_mut"@ } else { "peer"@ }
}

/// A forwarding method of the derived type: it calls the peer's super-call.
pub open spec fn super_forward_text(m: SuperclassMethodV) -> Seq<char> {
    method_sig_text(m, m.name + "_super"@) + " { use autocxx::subclass::CppSubclass; self."@ + peer_fn(m.receiver_mutability)
        + "()."@ + (m.name + "_super"@) + "("@ + join(forwarded_args(m), ", "@) + ") }"@
}

pub open spec fn supers_impl_text(sup: QnView, id: Seq<char>, ms: Seq<SuperclassMethodV>) -> Seq<char> {
    "#[allow(non_snake_case)] impl "@ + path_text(supers_trait_name(sup)) + " for super::super::super::"@ + id + " { "@
        + join(ms.map_values(|m: SuperclassMethodV| super_forward_text(m)), " "@) + " }"@
}

pub open spec fn peer_ctor_text(sub: QnView) -> Seq<char> {
    "impl autocxx::subclass::CppPeerConstructor<"@ + cpp_peer_name(sub.id) + "> for super::super::super::"@ + sub.id
        + " { fn make_peer(&mut self, peer_holder: autocxx::subclass::CppSubclassRustPeerHolder<Self>) -> cxx::UniquePtr<"@
        + path_text(QnView { ns: sub.ns, id: cpp_peer_name(sub.id) }) + "> { "@ + cpp_peer_name(sub.id)
        + "::make_unique(peer_holder) } }"@
}

pub open spec fn as_ref_text(sup: QnView, id: Seq<char>) -> Seq<char> {
    "impl AsRef<"@ + path_text(sup) + "> for super::super::super::"@ + id + " { fn as_ref(&self) -> &cxxbridge::"@ + sup.id
        + " { use autocxx::subclass::CppSubclass; self.peer()."@ + as_name(sup.id) + "() } }"@
}

pub open spec fn pin_mut_text(sup: QnView, id: Seq<char>) -> Seq<char> {
    "impl super::super::super::"@ + id + " { pub fn pin_mut(&mut self) -> std::pin::Pin<&mut cxxbridge::"@ + sup.id
        + "> { use autocxx::subclass::CppSubclass; self.peer_mut()."@ + as_mut_name(sup.id) + "() } }"@
}

pub open spec fn impl_item_v(name: Seq<char>, text: Seq<char>) -> GenItemV {
    GenItemV { kind: ItemKind::Impl, name, text }
}

pub open spec fn subclass_wrapper_items(
    sub: QnView,
    sup: QnView,
    methods: Option<Seq<SuperclassMethodV>>,
    peer_ctor: bool,
) -> Seq<GenItemV> {
    let id = sub.id;
    let cpp = cpp_peer_name(id);
    seq![
        GenItemV { kind: ItemKind::Use, name: cpp, text: "pub use cxxbridge::"@ + cpp + ";"@ },
        GenItemV {
            kind: ItemKind::ValueType,
            name: holder_name(id),
            text: "pub struct "@ + holder_name(id) + "(pub autocxx::subclass::CppSubclassRustPeerHolder<super::super::super::"@
                + id + ">);"@,
        },
        impl_item_v(cpp, "impl autocxx::subclass::CppSubclassCppPeer for "@ + cpp
            + " { fn relinquish_ownership(&self) { self."@ + relinquish_name(id) + "(); } }"@),
    ]
        + if crate::types::has_methods(methods) { seq![impl_item_v(id, supers_impl_text(sup, id, methods.unwrap()))] } else { seq![] }
        + if peer_ctor { seq![impl_item_v(id, peer_ctor_text(sub))] } else { seq![] }
        + seq![impl_item_v(id, as_ref_text(sup, id)), impl_item_v(id, pin_mut_text(sup, id))]
}

/// The output for a host type deriving from the foreign base `sup`.
pub open spec fn subclass_result(
    map: Seq<OriginalName>,
    exclude_impls: bool,
    sub: QnView,
    sup: QnView,
    methods: Option<Seq<SuperclassMethodV>>,
    peer_ctor: bool,
) -> CodegenResultV {
    let id = sub.id;
    let cpp = cpp_peer_name(id);
    let holder = holder_name(id);
    let remove = remove_ownership_name(id);
    CodegenResultV {
        extern_c_mod_items: seq![
            cxxbridge_type(map, QnView { ns: sub.ns, id: cpp }, false, None),
            GenItemV { kind: ItemKind::BridgeFn, name: relinquish_name(id), text: "fn "@ + relinquish_name(id) + "(self: &"@ + cpp + ");"@ },
            GenItemV { kind: ItemKind::BridgeFn, name: as_name(sup.id), text: "fn "@ + as_name(sup.id) + "(self: &"@ + cpp + ") -> &"@ + sup.id + ";"@ },
            GenItemV {
                kind: ItemKind::BridgeFn,
                name: as_mut_name(sup.id),
                text: "fn "@ + as_mut_name(sup.id) + "(self: Pin<&mut "@ + cpp + ">) -> Pin<&mut "@ + sup.id + ">;"@,
            },
        ],
        bridge_items: impl_items(cpp, exclude_impls),
        bindgen_mod_items: subclass_wrapper_items(sub, sup, methods, peer_ctor),
        global_items: seq![
            GenItemV { kind: ItemKind::Use, name: holder, text: "pub use bindgen::root::"@ + holder + ";"@ },
            GenItemV {
                kind: ItemKind::Function,
                name: remove,
                text: "#[allow(non_snake_case)] pub fn "@ + remove + "(me: Box<"@ + holder + ">) -> Box<"@ + holder
                    + "> { Box::new("@ + holder + "(me.0.relinquish_ownership())) }"@,
            },
        ],
        materializations: seq![UseV::Custom(GenItemV { kind: ItemKind::Use, name: cpp, text: "pub use cxxbridge::"@ + cpp + ";"@ })],
        extern_rust_mod_items: seq![
            GenItemV { kind: ItemKind::BridgeType, name: holder, text: "pub type "@ + holder + ";"@ },
            GenItemV { kind: ItemKind::BridgeFn, name: remove, text: "fn "@ + remove + "(me: Box<"@ + holder + ">) -> Box<"@ + holder + ">;"@ },
        ],
        impl_entry: None,
    }
}

fn render_super_forward(m: &SuperclassMethod) -> (r: String)
    ensures
        r@ == super_forward_text(m@),
{
    let mut n = m.name.clone();
    n.append("_super");
    let sig = crate::types::render_method_sig(m, &n);
    let peer = if m.receiver_mutability == ReceiverMutability::Mutable { "peer_mut" } else { "peer" };
    let args = crate::types::render_forwarded_args(m);
    let mut t = cat5(sig.as_str(), " { use autocxx::subclass::CppSubclass; self.", peer, "().", n.as_str());
    t.append("(");
    t.append(args.as_str());
    t.append(") }");
    t
}

fn render_supers_impl(sup: &QualifiedName, id: &String, ms: &Vec<SuperclassMethod>) -> (r: String)
    ensures
        r@ == supers_impl_text(sup@, id@, methods_view(ms@)),
{
    let mut parts: Vec<String> = Vec::new();
    let mut i: usize = 0;
    while i < ms.len()
        invariant
            i <= ms.len(),
            parts@.len() == i,
            forall|k: int| 0 <= k < i ==> parts@[k]@ == super_forward_text(ms@[k]@),
        decreases ms.len() - i,
    {
        parts.push(render_super_forward(&ms[i]));
        i = i + 1;
    }
    assert(strings_view(parts@) =~= methods_view(ms@).map_values(|m: SuperclassMethodV| super_forward_text(m)));
    let joined = join_strings(&parts, " ");
    let supers = suffixed(sup, "_supers");
    let p = render_path(&supers);
    cat7("#[allow(non_snake_case)] impl ", p.as_str(), " for super::super::super::", id.as_str(), " { ", joined.as_str(), " }")
}

fn gen(kind: ItemKind, name: &String, text: String) -> (r: GenItem)
    ensures
        r@ == (GenItemV { kind, name: name@, text: text@ }),
{
    GenItem { kind, name: name.clone(), text }
}

/// Generates the shim of a host type deriving from a foreign base: the
/// holder of its back-reference, the relinquish-ownership hook, the
/// forwarding methods, the peer constructor when asked for, and the upcasts.
pub fn generate_subclass(
    map: &Vec<OriginalName>,
    config: &CodegenConfig,
    sub: &QualifiedName,
    superclass: &QualifiedName,
    methods: Option<&Vec<SuperclassMethod>>,
    generate_peer_constructor: bool,
) -> (r: CodegenResult)
    ensures
        r@ == subclass_result(map@, config.exclude_impls, sub@, superclass@,
            match methods { Some(ms) => Some(methods_view(ms@)), None => None }, generate_peer_constructor),
{
    let id = &sub.id;
    let sup_id = &superclass.id;
    let cpp = suffixed(sub, "Cpp");
    let cpp_id = &cpp.id;
    let mut holder = id.clone();
    holder.append("Holder");
    let mut relinquish = cpp_id.clone();
    relinquish.append("_remove_ownership");
    let mut remove = id.clone();
    remove.append("_remove_ownership");
    let as_id = cat3("As_", sup_id.as_str(), "");
    let as_mut_id = cat3("As_", sup_id.as_str(), "_mut");
    proof {
        reveal_strlit("");
        assert(as_id@ =~= as_name(superclass@.id));
    }
    let mut r = CodegenResult::empty();
    // wrapper-type region
    r.bindgen_mod_items.push(gen(ItemKind::Use, cpp_id, cat3("pub use cxxbridge::", cpp_id.as_str(), ";")));
    r.bindgen_mod_items.push(gen(ItemKind::ValueType, &holder, cat5("pub struct ", holder.as_str(),
        "(pub autocxx::subclass::CppSubclassRustPeerHolder<super::super::super::", id.as_str(), ">);")));
    r.bindgen_mod_items.push(gen(ItemKind::Impl, cpp_id, cat5("impl autocxx::subclass::CppSubclassCppPeer for ", cpp_id.as_str(),
        " { fn relinquish_ownership(&self) { self.", relinquish.as_str(), "(); } }")));
    let ghost base3 = items_view(r.bindgen_mod_items@);
    match methods {
        Some(ms) => {
            if ms.len() > 0 {
                let t = render_supers_impl(superclass, id, ms);
                r.bindgen_mod_items.push(gen(ItemKind::Impl, id, t));
            }
        },
        None => {},
    }
    let ghost base4 = items_view(r.bindgen_mod_items@);
    if generate_peer_constructor {
        let cpp_path = render_path(&cpp);
        let mut t = cat5("impl autocxx::subclass::CppPeerConstructor<", cpp_id.as_str(), "> for super::super::super::", id.as_str(),
            " { fn make_peer(&mut self, peer_holder: autocxx::subclass::CppSubclassRustPeerHolder<Self>) -> cxx::UniquePtr<");
        t.append(cpp_path.as_str());
        t.append("> { ");
        t.append(cpp_id.as_str());
        t.append("::make_unique(peer_holder) } }");
        r.bindgen_mod_items.push(gen(ItemKind::Impl, id, t));
    }
    let ghost base5 = items_view(r.bindgen_mod_items@);
    let sup_path = render_path(superclass);
    let mut t = cat7("impl AsRef<", sup_path.as_str(), "> for super::super::super::", id.as_str(), " { fn as_ref(&self) -> &cxxbridge::",
        sup_id.as_str(), " { use autocxx::subclass::CppSubclass; self.peer().");
    t.append(as_id.as_str());
    t.append("() } }");
    r.bindgen_mod_items.push(gen(ItemKind::Impl, id, t));
    let mut t = cat5("impl super::super::super::", id.as_str(), " { pub fn pin_mut(&mut self) -> std::pin::Pin<&mut cxxbridge::", sup_id.as_str(),
        "> { use autocxx::subclass::CppSubclass; self.peer_mut().");
    t.append(as_mut_id.as_str());
    t.append("() } }");
    r.bindgen_mod_items.push(gen(ItemKind::Impl, id, t));
    // bridge declarations
    r.extern_c_mod_items.push(generate_cxxbridge_type(map, &cpp, false, &None));
    r.extern_c_mod_items.push(gen(ItemKind::BridgeFn, &relinquish, cat5("fn ", relinquish.as_str(), "(self: &", cpp_id.as_str(), ");")));
    let mut t = cat5("fn ", as_id.as_str(), "(self: &", cpp_id.as_str(), ") -> &");
    t.append(sup_id.as_str());
    t.append(";");
    r.extern_c_mod_items.push(gen(ItemKind::BridgeFn, &as_id, t));
    let mut t = cat5("fn ", as_mut_id.as_str(), "(self: Pin<&mut ", cpp_id.as_str(), ">) -> Pin<&mut ");
    t.append(sup_id.as_str());
    t.append(">;");
    r.extern_c_mod_items.push(gen(ItemKind::BridgeFn, &as_mut_id, t));
    r.bridge_items = create_impl_items(cpp_id, config);
    // items outside any namespace
    r.global_items.push(gen(ItemKind::Use, &holder, cat3("pub use bindgen::root::", holder.as_str(), ";")));
    let mut t = cat7("#[allow(non_snake_case)] pub fn ", remove.as_str(), "(me: Box<", holder.as_str(), ">) -> Box<", holder.as_str(),
        "> { Box::new(");
    t.append(holder.as_str());
    t.append("(me.0.relinquish_ownership())) }");
    r.global_items.push(gen(ItemKind::Function, &remove, t));
    r.materializations.push(Use::Custom(gen(ItemKind::Use, cpp_id, cat3("pub use cxxbridge::", cpp_id.as_str(), ";"))));
    r.extern_rust_mod_items.push(gen(ItemKind::BridgeType, &holder, cat3("pub type ", holder.as_str(), ";")));
    let mut t = cat7("fn ", remove.as_str(), "(me: Box<", holder.as_str(), ">) -> Box<", holder.as_str(), ">;");
    r.extern_rust_mod_items.push(gen(ItemKind::BridgeFn, &remove, t));
    let ghost mv = match methods { Some(ms) => Some(methods_view(ms@)), None => None };
    let ghost want = subclass_result(map@, config.exclude_impls, sub@, superclass@, mv, generate_peer_constructor);
    proof {
        let w = subclass_wrapper_items(sub@, superclass@, mv, generate_peer_constructor);
        assert(items_view(r.bindgen_mod_items@) =~= w);
        assert(items_view(r.extern_c_mod_items@) =~= want.extern_c_mod_items);
        assert(items_view(r.global_items@) =~= want.global_items);
        assert(items_view(r.extern_rust_mod_items@) =~= want.extern_rust_mod_items);
        assert(uses_view(r.materializations@) =~= want.materializations);
    }
    assert(r@ =~= want);
    r
}

} // verus!
