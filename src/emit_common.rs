use vstd::prelude::*;
use crate::names::{QualifiedName, QnView, strings_view, clone_strings};
use crate::model::{Param, ParamV, params_view};
use crate::text::{join, join_strings, quoted, quote_text};

verus! {

/// `s@ == lit@`, for a literal.
pub fn eq_lit(s: &String, lit: &str) -> (r: bool)
    ensures
        r == (s@ == lit@),
{
    *s == String::from_str(lit)
}

/// `unsafe ` where the item must be marked unsafe.
pub open spec fn unsafe_prefix(requires_unsafe: bool) -> Seq<char> {
    if requires_unsafe { "unsafe "@ } else { seq![] }
}

pub fn unsafe_token(requires_unsafe: bool) -> (r: String)
    ensures
        r@ == unsafe_prefix(requires_unsafe),
{
    if requires_unsafe {
        String::from_str("unsafe ")
    } else {
        String::new()
    }
}

pub open spec fn param_text(p: ParamV) -> Seq<char> {
    p.name + ": "@ + p.ty
}

/// A parameter list as it stands between parentheses.
pub open spec fn params_text(ps: Seq<ParamV>) -> Seq<char> {
    join(ps.map_values(|p: ParamV| param_text(p)), ", "@)
}

pub fn render_params(ps: &Vec<Param>) -> (r: String)
    ensures
        r@ == params_text(params_view(ps@)),
{
    let mut parts: Vec<String> = Vec::new();
    let mut i: usize = 0;
    while i < ps.len()
        invariant
            i <= ps.len(),
            parts@.len() == i,
            forall|k: int| 0 <= k < i ==> parts@[k]@ == param_text(ps@[k]@),
        decreases ps.len() - i,
    {
        let mut t = ps[i].name.clone();
        t.append(": ");
        t.append(ps[i].ty.as_str());
        parts.push(t);
        i = i + 1;
    }
    assert(strings_view(parts@) =~= params_view(ps@).map_values(|p: ParamV| param_text(p)));
    join_strings(&parts, ", ")
}

/// The return-type part of a signature; nothing for the unit type.
pub open spec fn ret_text(ret: Seq<char>) -> Seq<char> {
    if ret.len() == 0 { seq![] } else { " -> "@ + ret }
}

pub fn render_ret(ret: &String) -> (r: String)
    ensures
        r@ == ret_text(ret@),
{
    if ret.unicode_len() == 0 {
        String::new()
    } else {
        let mut r = String::from_str(" -> ");
        r.append(ret.as_str());
        r
    }
}

/// A function signature without its body.
pub open spec fn signature_text(requires_unsafe: bool, name: Seq<char>, params: Seq<ParamV>, ret: Seq<char>) -> Seq<char> {
    unsafe_prefix(requires_unsafe) + "fn "@ + name + "("@ + params_text(params) + ")"@ + ret_text(ret)
}

pub fn render_signature(requires_unsafe: bool, name: &String, params: &Vec<Param>, ret: &String) -> (r: String)
    ensures
        r@ == signature_text(requires_unsafe, name@, params_view(params@), ret@),
{
    let mut r = unsafe_token(requires_unsafe);
    r.append("fn ");
    r.append(name.as_str());
    r.append("(");
    let p = render_params(params);
    r.append(p.as_str());
    r.append(")");
    let t = render_ret(ret);
    r.append(t.as_str());
    r
}

/// A doc attribute carrying a text.
pub open spec fn doc_attr(text: Seq<char>) -> Seq<char> {
    "#[doc = "@ + quoted(text) + "]"@
}

pub fn render_doc_attr(text: &str) -> (r: String)
    ensures
        r@ == doc_attr(text@),
{
    let mut r = String::from_str("#[doc = ");
    let q = quote_text(text);
    r.append(q.as_str());
    r.append("]");
    r
}

/// The path of a name: its namespace segments and identifier joined by `::`.
pub open spec fn path_text(q: QnView) -> Seq<char> {
    join(q.ns.push(q.id), "::"@)
}

pub fn render_path(q: &QualifiedName) -> (r: String)
    ensures
        r@ == path_text(q@),
{
    let mut segs = clone_strings(&q.ns);
    segs.push(q.id.clone());
    assert(strings_view(segs@) =~= q@.ns.push(q@.id));
    join_strings(&segs, "::")
}

/// A name in the namespace of `q` whose identifier is `q`'s with a suffix.
pub open spec fn suffixed_name(q: QnView, suffix: Seq<char>) -> QnView {
    QnView { ns: q.ns, id: q.id + suffix }
}

pub fn suffixed(q: &QualifiedName, suffix: &str) -> (r: QualifiedName)
    ensures
        r@ == suffixed_name(q@, suffix@),
{
    let mut id = q.id.clone();
    id.append(suffix);
    QualifiedName { ns: clone_strings(&q.ns), id }
}

/// The trait of the raw super-call signatures of an extensible base.
pub open spec fn supers_trait_name(base: QnView) -> QnView {
    suffixed_name(base, "_supers"@)
}

/// The trait of the overridable signatures of an extensible base.
pub open spec fn methods_trait_name(base: QnView) -> QnView {
    suffixed_name(base, "_methods"@)
}

/// `n` times `super::`, climbing `n` enclosing scopes.
pub open spec fn supers_text(n: nat) -> Seq<char>
    decreases n,
{
    if n == 0 { seq![] } else { supers_text((n - 1) as nat) + "super::"@ }
}

pub fn render_supers(n: usize) -> (r: String)
    ensures
        r@ == supers_text(n as nat),
{
    let mut r = String::new();
    let mut i: usize = 0;
    while i < n
        invariant
            i <= n,
            r@ == supers_text(i as nat),
        decreases n - i,
    {
        r.append("super::");
        i = i + 1;
    }
    r
}

} // verus!

verus! {

/// A parameter with the path qualifiers of its type removed.
pub open spec fn unqualified_param(p: ParamV) -> ParamV {
    ParamV { name: p.name, ty: crate::text::unqualified(p.ty), requires_unsafe: p.requires_unsafe }
}

pub open spec fn unqualified_params(ps: Seq<ParamV>) -> Seq<ParamV> {
    ps.map_values(|p: ParamV| unqualified_param(p))
}

/// Removes the path qualifiers from the parameters' types.
pub fn unqualify_params(ps: &Vec<Param>) -> (r: Vec<Param>)
    ensures
        params_view(r@) == unqualified_params(params_view(ps@)),
{
    let mut r: Vec<Param> = Vec::new();
    let mut i: usize = 0;
    while i < ps.len()
        invariant
            i <= ps.len(),
            r@.len() == i,
            forall|k: int| 0 <= k < i ==> r@[k]@ == unqualified_param(ps@[k]@),
        decreases ps.len() - i,
    {
        r.push(Param {
            name: ps[i].name.clone(),
            ty: crate::text::unqualify(ps[i].ty.as_str()),
            requires_unsafe: ps[i].requires_unsafe,
        });
        i = i + 1;
    }
    assert(params_view(r@) =~= unqualified_params(params_view(ps@)));
    r
}

} // verus!
