use codegen_rs::bridge_types::OriginalName;
use codegen_rs::codegen::rs_codegen;
use codegen_rs::context::{accumulate_superclass_methods, find_trivially_constructed_subclasses, methods_of_base};
use codegen_rs::emit::generate_rs_for_api;
use codegen_rs::errors::{generate_error_entry, sanitize_error_ident};
use codegen_rs::model::{
    Api, CodegenConfig, CodegenResult, ErrorContext, FnAnalysis, FnKind, GenItem, ItemKind, MethodKind, Param,
    ReceiverMutability, SubclassFnDetails, TypeKind, Use,
};
use codegen_rs::names::QualifiedName;
use codegen_rs::ns_tree::build_tree;
use codegen_rs::subclass::generate_subclass_fn;
use codegen_rs::text::{escape, join_strings, unqualify};

fn qn(ns: &[&str], id: &str) -> QualifiedName {
    let ns: Vec<String> = ns.iter().map(|s| s.to_string()).collect();
    QualifiedName::new(&ns, &id.to_string())
}

fn param(name: &str, ty: &str) -> Param {
    Param { name: name.to_string(), ty: ty.to_string(), requires_unsafe: false }
}

fn config(superclasses: Vec<QualifiedName>) -> CodegenConfig {
    CodegenConfig {
        superclasses,
        exclude_utilities: false,
        exclude_impls: true,
        makestring_name: "autocxx_make_string_0x1".to_string(),
        mod_name: "ffi".to_string(),
    }
}

fn ctor(sub: &str, trivial: bool) -> Api {
    Api::SubclassConstructor { name: qn(&[], &format!("{}_ctor", sub)), subclass: qn(&[], sub), is_trivial: trivial }
}

fn virtual_method(base: &QualifiedName, name: &str, kind: MethodKind, params: Vec<Param>) -> Api {
    Api::Function {
        name: qn(&[], name),
        analysis: FnAnalysis {
            kind: FnKind::Method { receiver: base.clone_name(), method_kind: kind },
            params,
            ret_type: String::new(),
        },
    }
}

fn eligible(apis: &Vec<Api>) -> Vec<String> {
    find_trivially_constructed_subclasses(apis).iter().map(|q| q.id.clone()).collect()
}

fn emit(api: &Api, apis: &Vec<Api>, cfg: &CodegenConfig) -> CodegenResult {
    let table = accumulate_superclass_methods(&cfg.superclasses, apis);
    let trivial = find_trivially_constructed_subclasses(apis);
    let map: Vec<OriginalName> = Vec::new();
    generate_rs_for_api(api, &map, cfg, &table, &trivial)
}

fn texts(items: &Vec<GenItem>) -> Vec<String> {
    items.iter().map(|g| g.text.clone()).collect()
}

fn count_kind(items: &Vec<GenItem>, kind: ItemKind) -> usize {
    items.iter().filter(|g| g.kind == kind).count()
}

#[test]
fn two_trivial_constructors_are_eligible() {
    let apis = vec![ctor("D", true), ctor("D", true)];
    assert_eq!(eligible(&apis), vec!["D".to_string()]);
}

#[test]
fn trivial_and_non_trivial_constructor_not_eligible() {
    let apis = vec![ctor("D", true), ctor("D", false)];
    assert!(eligible(&apis).is_empty());
}

#[test]
fn only_non_trivial_constructor_not_eligible() {
    let apis = vec![ctor("D", false)];
    assert!(eligible(&apis).is_empty());
}

#[test]
fn no_constructor_not_eligible() {
    let apis = vec![Api::Subclass { name: qn(&[], "D"), superclass: qn(&[], "B") }];
    assert!(eligible(&apis).is_empty());
}

#[test]
fn eligibility_is_per_derived_type() {
    let apis = vec![ctor("D", true), ctor("E", true), ctor("E", false), ctor("F", true)];
    assert_eq!(eligible(&apis), vec!["D".to_string(), "F".to_string()]);
}

#[test]
fn pure_virtual_method_is_recorded_with_its_parameter_names() {
    let base = qn(&[], "B");
    let apis = vec![
        virtual_method(&base, "foo", MethodKind::PureVirtual(ReceiverMutability::Mutable),
            vec![param("self_", "&mut B"), param("a", "i32"), param("b", "u8")]),
        virtual_method(&base, "plain", MethodKind::Normal, vec![param("self_", "&B")]),
        virtual_method(&qn(&[], "Other"), "bar", MethodKind::Virtual(ReceiverMutability::Const), vec![param("self_", "&Other")]),
    ];
    let ms = methods_of_base(&apis, &base);
    assert_eq!(ms.len(), 1);
    assert_eq!(ms[0].name, "foo");
    let names: Vec<String> = ms[0].params.iter().map(|p| p.name.clone()).collect();
    assert_eq!(names, vec!["self_".to_string(), "a".to_string(), "b".to_string()]);
    assert!(ms[0].receiver_mutability == ReceiverMutability::Mutable);
    assert!(!ms[0].requires_unsafe);

    let table = accumulate_superclass_methods(&vec![base.clone_name(), base.clone_name()], &apis);
    assert_eq!(table.len(), 1);
    assert_eq!(table[0].methods.len(), 1);

    // the receiver is not forwarded; the others are, in order
    let sub = Api::Subclass { name: qn(&[], "D"), superclass: base.clone_name() };
    let cfg = config(vec![base.clone_name()]);
    let r = emit(&sub, &apis, &cfg);
    let all = texts(&r.bindgen_mod_items).join("\n");
    assert!(all.contains("fn foo_super(&mut self, a: i32, b: u8) { use autocxx::subclass::CppSubclass; self.peer_mut().foo_super(a, b) }"));
}

#[test]
fn unsafe_parameter_marks_the_method() {
    let base = qn(&[], "B");
    let mut p = param("ptr", "*mut u8");
    p.requires_unsafe = true;
    let apis = vec![virtual_method(&base, "poke", MethodKind::Virtual(ReceiverMutability::Const), vec![param("self_", "&B"), p])];
    let ms = methods_of_base(&apis, &base);
    assert!(ms[0].requires_unsafe);
}

fn details(m: ReceiverMutability) -> SubclassFnDetails {
    SubclassFnDetails {
        params: vec![param("me", "&DHolder"), param("x", "i32")],
        ret: "i32".to_string(),
        method_name: "foo".to_string(),
        superclass: qn(&["ns"], "B"),
        receiver_mutability: m,
        requires_unsafe: false,
    }
}

#[test]
fn forwarding_function_checks_destroyed_before_borrowing() {
    let r = generate_subclass_fn(&"D_foo".to_string(), &details(ReceiverMutability::Mutable), &qn(&[], "D"));
    assert_eq!(r.global_items.len(), 1);
    let body = &r.global_items[0].text;
    let destroyed = body.find("called after subclass destroyed").unwrap();
    let borrow = body.find("try_borrow_mut()").unwrap();
    let reentrant = body.find("likely a re-entrant call").unwrap();
    assert!(destroyed < borrow);
    assert!(borrow < reentrant);
    assert!(body.contains("let mut b = rc.as_ref().try_borrow_mut()"));
    assert!(body.contains("std::ops::DerefMut::deref_mut(&mut b)"));
    assert!(body.contains("ns::B_methods::foo(r, x)"));
    assert_eq!(r.extern_rust_mod_items.len(), 1);
    assert_eq!(r.extern_rust_mod_items[0].text, "fn D_foo(me: &DHolder, x: i32) -> i32;");
}

#[test]
fn forwarding_function_borrows_shared_for_const_receiver() {
    let r = generate_subclass_fn(&"D_foo".to_string(), &details(ReceiverMutability::Const), &qn(&[], "D"));
    let body = &r.global_items[0].text;
    assert!(body.contains("let b = rc.as_ref().try_borrow().expect("));
    assert!(!body.contains("try_borrow_mut"));
    assert!(body.contains("std::ops::Deref::deref(&b)"));
    assert!(body.starts_with("fn D_foo(me: &DHolder, x: i32) -> i32 {\n"));
}

#[test]
fn builtin_type_name_gets_suffix() {
    assert_eq!(sanitize_error_ident(&"u8".to_string()), Some("u8_autocxx_error".to_string()));
    assert_eq!(sanitize_error_ident(&"Widget".to_string()), None);
    let r = generate_error_entry(&"bad".to_string(), &ErrorContext::Item("u8".to_string()));
    assert_eq!(r.materializations.len(), 1);
    match &r.materializations[0] {
        Use::Custom(item) => {
            assert_eq!(item.name, "u8_autocxx_error");
            assert!(!item.text.contains("struct u8;"));
        }
        _ => panic!("expected a placeholder"),
    }
}

#[test]
fn scenario_trivially_copyable_record() {
    let s = Api::Struct {
        name: qn(&[], "Point"),
        kind: TypeKind::Pod,
        body: "pub struct Point { pub x: i32, pub y: i32 }".to_string(),
        generic_params: Vec::new(),
        doc: None,
    };
    let apis = vec![s];
    let cfg = config(Vec::new());
    let r = emit(&apis[0], &apis, &cfg);
    assert_eq!(count_kind(&r.bindgen_mod_items, ItemKind::ValueType), 1);
    assert_eq!(r.bindgen_mod_items.len(), 1);
    assert_eq!(r.global_items.len(), 1);
    assert!(r.global_items[0].kind == ItemKind::ExternTypeTrivial);
    assert_eq!(r.global_items[0].text,
        "unsafe impl cxx::ExternType for bindgen::root::Point { type Id = cxx::type_id!(\"Point\"); type Kind = cxx::kind::Trivial; }");
    assert_eq!(r.extern_c_mod_items.len(), 1);
    assert!(r.extern_c_mod_items[0].kind == ItemKind::BridgeType);
    assert_eq!(r.extern_c_mod_items[0].name, "Point");
    assert_eq!(r.extern_c_mod_items[0].text, "type Point = super::bindgen::root::Point;");
    assert_eq!(r.materializations.len(), 1);
    assert!(matches!(r.materializations[0], Use::UsedFromCxxBridge));
}

#[test]
fn scenario_derived_type_with_two_methods() {
    let base = qn(&[], "B");
    let apis = vec![
        virtual_method(&base, "foo", MethodKind::Virtual(ReceiverMutability::Const), vec![param("self_", "&B")]),
        virtual_method(&base, "bar", MethodKind::PureVirtual(ReceiverMutability::Mutable), vec![param("self_", "&mut B"), param("n", "u32")]),
        ctor("D", true),
        Api::Subclass { name: qn(&[], "D"), superclass: base.clone_name() },
    ];
    let cfg = config(vec![base.clone_name()]);
    let r = emit(&apis[3], &apis, &cfg);
    let items = texts(&r.bindgen_mod_items);
    let supers_impl: Vec<&String> = items.iter().filter(|t| t.contains("impl B_supers for")).collect();
    assert_eq!(supers_impl.len(), 1);
    assert_eq!(supers_impl[0].matches("_super(&").count(), 2);
    assert_eq!(items.iter().filter(|t| t.contains("CppPeerConstructor<DCpp>")).count(), 1);
    assert_eq!(items.iter().filter(|t| t.contains("fn relinquish_ownership(&self) { self.DCpp_remove_ownership(); }")).count(), 1);
    assert_eq!(items.iter().filter(|t| t.contains("impl AsRef<B>")).count(), 1);
    assert_eq!(items.iter().filter(|t| t.contains("pub fn pin_mut(&mut self)")).count(), 1);
    let decls = texts(&r.extern_c_mod_items);
    assert!(decls.contains(&"fn As_B(self: &DCpp) -> &B;".to_string()));
    assert!(decls.contains(&"fn As_B_mut(self: Pin<&mut DCpp>) -> Pin<&mut B>;".to_string()));
    assert!(decls.contains(&"fn DCpp_remove_ownership(self: &DCpp);".to_string()));
}

#[test]
fn derived_type_without_peer_constructor() {
    let base = qn(&[], "B");
    let apis = vec![ctor("D", false), Api::Subclass { name: qn(&[], "D"), superclass: base.clone_name() }];
    let cfg = config(vec![base.clone_name()]);
    let r = emit(&apis[1], &apis, &cfg);
    assert!(texts(&r.bindgen_mod_items).iter().all(|t| !t.contains("CppPeerConstructor")));
}

#[test]
fn scenario_failed_item() {
    let apis = vec![Api::Ignored { name: qn(&[], "Thing"), err: "X".to_string(), ctx: ErrorContext::Item("Thing".to_string()) }];
    let cfg = config(Vec::new());
    let r = emit(&apis[0], &apis, &cfg);
    assert_eq!(r.materializations.len(), 1);
    match &r.materializations[0] {
        Use::Custom(item) => {
            assert!(item.kind == ItemKind::Placeholder);
            assert_eq!(item.text, "#[doc = \"autocxx bindings couldn't be generated: X\"] pub struct Thing;");
        }
        _ => panic!("expected a placeholder"),
    }
    assert!(r.extern_c_mod_items.is_empty());
    assert!(r.extern_rust_mod_items.is_empty());
    assert!(r.bridge_items.is_empty());
    assert!(r.global_items.is_empty());
    assert!(r.bindgen_mod_items.is_empty());
    assert!(r.impl_entry.is_none());
}

#[test]
fn failed_method_merges_into_type() {
    let r = generate_error_entry(&"why".to_string(), &ErrorContext::Method { self_ty: "Widget".to_string(), method: "go".to_string() });
    assert!(r.materializations.is_empty());
    let e = r.impl_entry.unwrap();
    assert_eq!(e.ty, "Widget");
    assert_eq!(e.item.text, "#[doc = \"autocxx bindings couldn't be generated: why\"] fn go(_uhoh: autocxx::BindingGenerationFailure) {}");
}

#[test]
fn failed_method_on_builtin_type_becomes_top_level() {
    let r = generate_error_entry(&"why".to_string(), &ErrorContext::Method { self_ty: "u8".to_string(), method: "go".to_string() });
    assert!(r.impl_entry.is_none());
    match &r.materializations[0] {
        Use::Custom(item) => assert_eq!(item.name, "u8_method_go"),
        _ => panic!("expected a placeholder"),
    }
}

#[test]
fn error_text_is_escaped() {
    assert_eq!(escape("a\"b\\c"), "a\\\"b\\\\c");
    let r = generate_error_entry(&"say \"hi\"".to_string(), &ErrorContext::Item("T".to_string()));
    match &r.materializations[0] {
        Use::Custom(item) => assert!(item.text.contains("say \\\"hi\\\"")),
        _ => panic!("expected a placeholder"),
    }
}

#[test]
fn emitting_twice_gives_identical_bundles() {
    let base = qn(&[], "B");
    let apis = vec![
        virtual_method(&base, "foo", MethodKind::Virtual(ReceiverMutability::Const), vec![param("self_", "&B")]),
        Api::Struct { name: base.clone_name(), kind: TypeKind::NonPod, body: String::new(), generic_params: Vec::new(), doc: Some("A base.".to_string()) },
        Api::Subclass { name: qn(&[], "D"), superclass: base.clone_name() },
    ];
    let cfg = config(vec![base.clone_name()]);
    for api in apis.iter() {
        let a = emit(api, &apis, &cfg);
        let b = emit(api, &apis, &cfg);
        assert_eq!(texts(&a.bindgen_mod_items), texts(&b.bindgen_mod_items));
        assert_eq!(texts(&a.extern_c_mod_items), texts(&b.extern_c_mod_items));
        assert_eq!(texts(&a.global_items), texts(&b.global_items));
        assert_eq!(texts(&a.extern_rust_mod_items), texts(&b.extern_rust_mod_items));
    }
    let out1 = rs_codegen(&apis, &Vec::new(), &Vec::new(), &cfg);
    let out2 = rs_codegen(&apis, &Vec::new(), &Vec::new(), &cfg);
    assert_eq!(out1, out2);
}

#[test]
fn base_with_methods_gets_supers_and_methods_traits() {
    let base = qn(&[], "B");
    let apis = vec![
        virtual_method(&base, "foo", MethodKind::Virtual(ReceiverMutability::Const), vec![param("self_", "&B"), param("k", "i32")]),
        Api::Struct { name: base.clone_name(), kind: TypeKind::NonPod, body: String::new(), generic_params: Vec::new(), doc: None },
    ];
    let cfg = config(vec![base.clone_name()]);
    let r = emit(&apis[1], &apis, &cfg);
    let items = texts(&r.bindgen_mod_items);
    assert_eq!(items[0], "#[allow(non_snake_case)] pub trait B_supers { fn foo_super(&self, k: i32); }");
    assert_eq!(items[1], "#[allow(non_snake_case)] pub trait B_methods : B_supers { fn foo(&self, k: i32) { self.foo_super(k) } }");
    assert_eq!(items[2], "pub use cxxbridge::B;");
    assert_eq!(r.materializations.len(), 3);
}

#[test]
fn namespace_tree_keeps_order_and_skips_empty_scopes() {
    let names = vec![qn(&["a", "b"], "X"), qn(&[], "Top"), qn(&["a"], "Y"), qn(&["a", "b"], "Z"), qn(&["c"], "W")];
    let t = build_tree(&names);
    let root = t.nodes.last().unwrap();
    assert!(root.path.is_empty());
    assert_eq!(root.entries, vec![1]);
    assert_eq!(root.children.len(), 2);
    let a = &t.nodes[root.children[0]];
    assert_eq!(a.path, vec!["a".to_string()]);
    assert_eq!(a.entries, vec![2]);
    let ab = &t.nodes[a.children[0]];
    assert_eq!(ab.entries, vec![0, 3]);
    assert!(ab.children.is_empty());
    // every node but the root holds something at or below it
    for n in t.nodes.iter() {
        assert!(!n.entries.is_empty() || !n.children.is_empty());
    }
}

#[test]
fn output_nests_reexports_by_namespace() {
    let apis = vec![
        Api::Const { name: qn(&["a"], "K"), body: "pub const K: i32 = 1;".to_string() },
        Api::Const { name: qn(&["a"], "L"), body: "pub const L: i32 = 2;".to_string() },
        Api::StringConstructor { name: qn(&[], "make_string") },
    ];
    let cfg = config(Vec::new());
    let includes = vec!["foo.h".to_string()];
    let out = rs_codegen(&apis, &includes, &Vec::new(), &cfg);
    assert!(out.contains(&"pub mod a { pub use super::bindgen::root::a::K; pub use super::bindgen::root::a::L; }".to_string()));
    assert!(out.contains(&"pub use cxxbridge::make_string as make_string;".to_string()));
    assert!(out.contains(&"#[allow(unused_imports)] use bindgen::root;".to_string()));
    let bridge = out.iter().find(|s| s.starts_with("#[cxx::bridge]")).unwrap();
    assert!(bridge.contains("include!(\"foo.h\");"));
    assert!(bridge.contains("include!(\"autocxxgen_ffi.h\");"));
    assert!(bridge.contains("fn autocxx_make_string_0x1(str_: &str) -> UniquePtr<CxxString>;"));
    let bindgen = out.iter().find(|s| s.starts_with("mod bindgen")).unwrap();
    assert!(bindgen.contains("pub mod a { pub const K: i32 = 1; pub const L: i32 = 2; #[allow(unused_imports)] use self::super::super::super::cxxbridge;"));
    assert_eq!(out.iter().filter(|s| s.starts_with("pub trait ToCppString")).count(), 1);
    assert_eq!(out.iter().filter(|s| s.starts_with("impl ToCppString for")).count(), 4);
}

#[test]
fn impl_entries_merge_per_type() {
    let apis = vec![
        Api::Ignored { name: qn(&[], "e1"), err: "one".to_string(), ctx: ErrorContext::Method { self_ty: "W".to_string(), method: "m1".to_string() } },
        Api::Ignored { name: qn(&[], "e2"), err: "two".to_string(), ctx: ErrorContext::Method { self_ty: "W".to_string(), method: "m2".to_string() } },
    ];
    let out = rs_codegen(&apis, &Vec::new(), &Vec::new(), &config(Vec::new()));
    let bindgen = out.iter().find(|s| s.starts_with("mod bindgen")).unwrap();
    assert_eq!(bindgen.matches("impl W {").count(), 1);
    assert!(bindgen.contains("fn m1(") && bindgen.contains("fn m2("));
}

#[test]
fn join_puts_separator_between() {
    assert_eq!(join_strings(&vec!["a".to_string(), "b".to_string(), "c".to_string()], ", "), "a, b, c");
    assert_eq!(join_strings(&Vec::new(), ", "), "");
}

#[test]
fn renamed_type_keeps_original_name_on_bridge() {
    let name = qn(&["ns"], "Inner");
    let map = vec![OriginalName { name: name.clone_name(), original: qn(&["Outer"], "Inner") }];
    let apis = vec![Api::Struct { name: name.clone_name(), kind: TypeKind::NonPod, body: String::new(), generic_params: Vec::new(), doc: None }];
    let cfg = config(Vec::new());
    let table = accumulate_superclass_methods(&cfg.superclasses, &apis);
    let trivial = find_trivially_constructed_subclasses(&apis);
    let r = generate_rs_for_api(&apis[0], &map, &cfg, &table, &trivial);
    assert_eq!(r.extern_c_mod_items[0].text, "#[namespace = \"ns::Outer\"] #[cxx_name = \"Inner\"] type Inner;");
}

#[test]
fn base_without_methods_gets_no_traits() {
    let base = qn(&[], "B");
    let apis = vec![
        Api::Struct { name: base.clone_name(), kind: TypeKind::NonPod, body: String::new(), generic_params: Vec::new(), doc: None },
        Api::Subclass { name: qn(&[], "D"), superclass: base.clone_name() },
    ];
    let cfg = config(vec![base.clone_name()]);
    let r = emit(&apis[0], &apis, &cfg);
    assert_eq!(texts(&r.bindgen_mod_items), vec!["pub use cxxbridge::B;".to_string()]);
    assert_eq!(r.materializations.len(), 1);
    let d = emit(&apis[1], &apis, &cfg);
    assert!(texts(&d.bindgen_mod_items).iter().all(|t| !t.contains("B_supers")));
}

#[test]
fn unqualify_keeps_last_segments() {
    assert_eq!(unqualify("&mut root::a::B"), "&mut B");
    assert_eq!(unqualify("std::pin::Pin<&mut ffi::X>"), "Pin<&mut X>");
    assert_eq!(unqualify("i32"), "i32");
    assert_eq!(unqualify("::std::X"), "::X");
    assert_eq!(unqualify(""), "");
}

#[test]
fn forwarding_bridge_declaration_is_unqualified() {
    let d = SubclassFnDetails {
        params: vec![param("me", "&root::DHolder"), param("x", "ffi::a::Widget")],
        ret: "cxx::UniquePtr<ffi::Widget>".to_string(),
        method_name: "foo".to_string(),
        superclass: qn(&[], "B"),
        receiver_mutability: ReceiverMutability::Const,
        requires_unsafe: true,
    };
    let r = generate_subclass_fn(&"D_foo".to_string(), &d, &qn(&[], "D"));
    assert_eq!(r.extern_rust_mod_items[0].text, "unsafe fn D_foo(me: &DHolder, x: Widget) -> UniquePtr<Widget>;");
    assert!(r.global_items[0].text.starts_with("unsafe fn D_foo(me: &root::DHolder, x: ffi::a::Widget) -> cxx::UniquePtr<ffi::Widget> {"));
}

#[test]
fn nested_opaque_keeps_generics_and_doc() {
    let apis = vec![Api::Struct {
        name: qn(&["a"], "Inner"),
        kind: TypeKind::NonPodNested,
        body: "pub struct Inner<T> { t: T }".to_string(),
        generic_params: vec!["T".to_string()],
        doc: Some("Nested.".to_string()),
    }];
    let cfg = config(Vec::new());
    let r = emit(&apis[0], &apis, &cfg);
    assert_eq!(r.bindgen_mod_items.len(), 1);
    assert_eq!(r.bindgen_mod_items[0].text,
        "#[doc = \"Nested.\"] #[repr(C)] pub struct Inner<T> { _pinned: core::marker::PhantomData<core::marker::PhantomPinned>, _data: [u8; 0], _phantom: core::marker::PhantomData<(T)> }");
    assert!(r.global_items[0].kind == ItemKind::ExternTypeOpaque);
}
