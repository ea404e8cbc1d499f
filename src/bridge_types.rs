use vstd::prelude::*;
use crate::names::{QualifiedName, QnView, strings_view, clone_strings, append_strings};
use crate::model::{GenItem, GenItemV, ItemKind, TypeKind};
use crate::text::{join, join_strings, quoted, quote_text};
use crate::emit_common::{doc_attr, render_doc_attr};

verus! {

/// The foreign-side name that a generated name was renamed from.
pub struct OriginalName {
    pub name: QualifiedName,
    /// The foreign name; its namespace holds the enclosing classes of a nested type.
    pub original: QualifiedName,
}

/// The original name recorded for `q`: the first entry of `map` for it.
pub open spec fn original_of(map: Seq<OriginalName>, q: QnView) -> Option<QnView>
    decreases map.len(),
{
    if map.len() == 0 {
        None
    } else {
        match original_of(map.drop_last(), q) {
            Some(o) => Some(o),
            None => if map.last().name@ == q { Some(map.last().original@) } else { None },
        }
    }
}

proof fn lemma_original_prefix(map: Seq<OriginalName>, q: QnView, i: int)
    requires
        0 <= i <= map.len(),
        original_of(map.subrange(0, i), q).is_some(),
    ensures
        original_of(map, q) == original_of(map.subrange(0, i), q),
    decreases map.len() - i,
{
    if i < map.len() {
        assert(map.subrange(0, i + 1).drop_last() =~= map.subrange(0, i));
        lemma_original_prefix(map, q, i + 1);
    } else {
        assert(map.subrange(0, i) =~= map);
    }
}

/// Looks up the original name of `q`.
pub fn find_original(map: &Vec<OriginalName>, q: &QualifiedName) -> (r: Option<QualifiedName>)
    ensures
        match r {
            Some(o) => original_of(map@, q@) == Some(o@),
            None => original_of(map@, q@).is_none(),
        },
{
    let mut i: usize = 0;
    while i < map.len()
        invariant
            i <= map.len(),
            original_of(map@.subrange(0, i as int), q@).is_none(),
        decreases map.len() - i,
    {
        assert(map@.subrange(0, i + 1).drop_last() =~= map@.subrange(0, i as int));
        if map[i].name.same_as(q) {
            proof {
                lemma_original_prefix(map@, q@, i + 1);
            }
            return Some(map[i].original.clone_name());
        }
        i = i + 1;
    }
    assert(map@.subrange(0, map.len() as int) =~= map@);
    None
}

/// The namespace under which the foreign side knows `q`: its own, followed
/// by the classes that enclose the original.
pub open spec fn cxx_namespace(map: Seq<OriginalName>, q: QnView) -> Seq<Seq<char>> {
    match original_of(map, q) {
        Some(o) => q.ns + o.ns,
        None => q.ns,
    }
}

pub open spec fn namespace_attr(ns: Seq<Seq<char>>) -> Seq<char> {
    if ns.len() == 0 { seq![] } else { "#[namespace = "@ + quoted(join(ns, "::"@)) + "] "@ }
}

pub open spec fn cxx_name_attr(o: Option<QnView>) -> Seq<char> {
    match o {
        Some(o) => "#[cxx_name = "@ + quoted(o.id) + "] "@,
        None => seq![],
    }
}

pub open spec fn opt_doc(doc: Option<Seq<char>>) -> Seq<char> {
    match doc {
        Some(d) => doc_attr(d) + " "@,
        None => seq![],
    }
}

/// `seg::` for each segment.
pub open spec fn ns_path_prefix(ns: Seq<Seq<char>>) -> Seq<char>
    decreases ns.len(),
{
    if ns.len() == 0 { seq![] } else { ns_path_prefix(ns.drop_last()) + ns.last() + "::"@ }
}

pub fn render_ns_prefix(ns: &Vec<String>) -> (r: String)
    ensures
        r@ == ns_path_prefix(strings_view(ns@)),
{
    let mut r = String::new();
    let mut i: usize = 0;
    while i < ns.len()
        invariant
            i <= ns.len(),
            r@ == ns_path_prefix(strings_view(ns@.subrange(0, i as int))),
        decreases ns.len() - i,
    {
        assert(strings_view(ns@.subrange(0, i + 1)).drop_last() =~= strings_view(ns@.subrange(0, i as int)));
        r.append(ns[i].as_str());
        r.append("::");
        i = i + 1;
    }
    assert(ns@.subrange(0, ns.len() as int) =~= ns@);
    r
}

/// The bridge's declaration of the type `q`: opaque, or an alias of the
/// wrapper type's definition when `references_bindgen`.
pub open spec fn cxxbridge_type_text(map: Seq<OriginalName>, q: QnView, references_bindgen: bool, doc: Option<Seq<char>>) -> Seq<char> {
    namespace_attr(cxx_namespace(map, q)) + cxx_name_attr(original_of(map, q)) + opt_doc(doc)
        + if references_bindgen {
            "type "@ + q.id + " = super::bindgen::root::"@ + ns_path_prefix(q.ns) + q.id + ";"@
        } else {
            "type "@ + q.id + ";"@
        }
}

pub open spec fn cxxbridge_type(map: Seq<OriginalName>, q: QnView, references_bindgen: bool, doc: Option<Seq<char>>) -> GenItemV {
    GenItemV { kind: ItemKind::BridgeType, name: q.id, text: cxxbridge_type_text(map, q, references_bindgen, doc) }
}

fn render_namespace_attr(ns: &Vec<String>) -> (r: String)
    ensures
        r@ == namespace_attr(strings_view(ns@)),
{
    let mut text = String::new();
    if ns.len() > 0 {
        text.append("#[namespace = ");
        let joined = join_strings(ns, "::");
        let q = quote_text(joined.as_str());
        text.append(q.as_str());
        text.append("] ");
    }
    text
}

fn render_cxx_name_attr(o: &Option<QualifiedName>) -> (r: String)
    ensures
        r@ == cxx_name_attr(match o { Some(o) => Some(o@), None => None }),
{
    let mut text = String::new();
    match o {
        Some(o) => {
            text.append("#[cxx_name = ");
            let q = quote_text(o.id.as_str());
            text.append(q.as_str());
            text.append("] ");
        },
        None => {},
    }
    text
}

fn render_opt_doc(doc: &Option<String>) -> (r: String)
    ensures
        r@ == opt_doc(match doc { Some(d) => Some(d@), None => None }),
{
    match doc {
        Some(d) => {
            let mut a = render_doc_attr(d.as_str());
            a.append(" ");
            a
        },
        None => String::new(),
    }
}

fn render_type_decl(name: &QualifiedName, references_bindgen: bool) -> (r: String)
    ensures
        r@ == if references_bindgen {
            "type "@ + name@.id + " = super::bindgen::root::"@ + ns_path_prefix(name@.ns) + name@.id + ";"@
        } else {
            "type "@ + name@.id + ";"@
        },
{
    let mut text = String::from_str("type ");
    text.append(name.id.as_str());
    if references_bindgen {
        text.append(" = super::bindgen::root::");
        let p = render_ns_prefix(&name.ns);
        text.append(p.as_str());
        text.append(name.id.as_str());
    }
    text.append(";");
    text
}

/// The bridge's declaration of a type.
pub fn generate_cxxbridge_type(map: &Vec<OriginalName>, name: &QualifiedName, references_bindgen: bool, doc: &Option<String>) -> (r: GenItem)
    ensures
        r@ == cxxbridge_type(map@, name@, references_bindgen, match doc { Some(d) => Some(d@), None => None }),
{
    let original = find_original(map, name);
    let mut ns = clone_strings(&name.ns);
    match &original {
        Some(o) => {
            append_strings(&mut ns, &o.ns);
        },
        None => {},
    }
    let mut text = render_namespace_attr(&ns);
    let a = render_cxx_name_attr(&original);
    text.append(a.as_str());
    let d = render_opt_doc(doc);
    text.append(d.as_str());
    let t = render_type_decl(name, references_bindgen);
    text.append(t.as_str());
    GenItem { kind: ItemKind::BridgeType, name: name.id.clone(), text }
}

/// The foreign identity string of `q`: its original path.
pub open spec fn identity_text(map: Seq<OriginalName>, q: QnView) -> Seq<char> {
    join(cxx_namespace(map, q).push(match original_of(map, q) { Some(o) => o.id, None => q.id }), "::"@)
}

/// The assertion binding the wrapper type of `q` to its foreign identity.
pub open spec fn extern_type_impl(map: Seq<OriginalName>, kind: TypeKind, q: QnView) -> GenItemV {
    GenItemV {
        kind: if kind == TypeKind::Pod { ItemKind::ExternTypeTrivial } else { ItemKind::ExternTypeOpaque },
        name: q.id,
        text: "unsafe impl cxx::ExternType for bindgen::root::"@ + ns_path_prefix(q.ns) + q.id
            + " { type Id = cxx::type_id!("@ + quoted(identity_text(map, q)) + "); type Kind = cxx::kind::"@
            + (if kind == TypeKind::Pod { "Trivial"@ } else { "Opaque"@ }) + "; }"@,
    }
}

pub fn generate_extern_type_impl(map: &Vec<OriginalName>, kind: TypeKind, name: &QualifiedName) -> (r: GenItem)
    ensures
        r@ == extern_type_impl(map@, kind, name@),
{
    let original = find_original(map, name);
    let mut segs = clone_strings(&name.ns);
    match &original {
        Some(o) => {
            append_strings(&mut segs, &o.ns);
            segs.push(o.id.clone());
        },
        None => {
            segs.push(name.id.clone());
        },
    }
    let identity = join_strings(&segs, "::");
    let mut text = String::from_str("unsafe impl cxx::ExternType for bindgen::root::");
    let p = render_ns_prefix(&name.ns);
    text.append(p.as_str());
    text.append(name.id.as_str());
    text.append(" { type Id = cxx::type_id!(");
    let q = quote_text(identity.as_str());
    text.append(q.as_str());
    text.append("); type Kind = cxx::kind::");
    let is_pod = kind == TypeKind::Pod;
    if is_pod {
        text.append("Trivial");
    } else {
        text.append("Opaque");
    }
    text.append("; }");
    let k = if is_pod { ItemKind::ExternTypeTrivial } else { ItemKind::ExternTypeOpaque };
    let r = GenItem { kind: k, name: name.id.clone(), text };
    assert(strings_view(segs@) =~= cxx_namespace(map@, name@).push(match original_of(map@, name@) { Some(o) => o.id, None => name@.id }));
    r
}

} // verus!
