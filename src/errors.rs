use vstd::prelude::*;
use crate::model::{CodegenResult, CodegenResultV, ErrorContext, GenItem, GenItemV, ImplEntry, ItemKind, Use, UseV, empty_result, uses_view};
use crate::emit_common::{doc_attr, eq_lit, render_doc_attr};

verus! {

/// Identifiers reserved by the host language's built-in types.
pub open spec fn is_builtin_type_name(s: Seq<char>) -> bool {
    s == "bool"@ || s == "char"@ || s == "str"@ || s == "String"@
        || s == "i8"@ || s == "i16"@ || s == "i32"@ || s == "i64"@ || s == "i128"@ || s == "isize"@
        || s == "u8"@ || s == "u16"@ || s == "u32"@ || s == "u64"@ || s == "u128"@ || s == "usize"@
        || s == "f32"@ || s == "f64"@
}

pub fn conflicts_with_built_in_type(s: &String) -> (r: bool)
    ensures
        r == is_builtin_type_name(s@),
{
    eq_lit(s, "bool") || eq_lit(s, "char") || eq_lit(s, "str") || eq_lit(s, "String")
        || eq_lit(s, "i8") || eq_lit(s, "i16") || eq_lit(s, "i32") || eq_lit(s, "i64")
        || eq_lit(s, "i128") || eq_lit(s, "isize") || eq_lit(s, "u8") || eq_lit(s, "u16")
        || eq_lit(s, "u32") || eq_lit(s, "u64") || eq_lit(s, "u128") || eq_lit(s, "usize")
        || eq_lit(s, "f32") || eq_lit(s, "f64")
}

/// The suffix that keeps a placeholder clear of a built-in type's name.
pub open spec fn error_suffix() -> Seq<char> {
    "_autocxx_error"@
}

/// The identifier a placeholder for `id` gets.
pub open spec fn sanitized(id: Seq<char>) -> Seq<char> {
    if is_builtin_type_name(id) { id + error_suffix() } else { id }
}

/// A replacement identifier when `id` collides with a built-in type's name.
pub fn sanitize_error_ident(id: &String) -> (r: Option<String>)
    ensures
        r.is_some() == is_builtin_type_name(id@),
        r.is_some() ==> r.unwrap()@ == id@ + error_suffix(),
{
    if conflicts_with_built_in_type(id) {
        let mut s = id.clone();
        s.append("_autocxx_error");
        Some(s)
    } else {
        None
    }
}

fn sanitized_ident(id: &String) -> (r: String)
    ensures
        r@ == sanitized(id@),
{
    match sanitize_error_ident(id) {
        Some(s) => s,
        None => id.clone(),
    }
}

/// The documentation a placeholder carries.
pub open spec fn error_doc(err: Seq<char>) -> Seq<char> {
    "autocxx bindings couldn't be generated: "@ + err
}

pub open spec fn placeholder_struct_text(err: Seq<char>, id: Seq<char>) -> Seq<char> {
    doc_attr(error_doc(err)) + " pub struct "@ + id + ";"@
}

pub open spec fn placeholder_fn_text(err: Seq<char>, id: Seq<char>) -> Seq<char> {
    doc_attr(error_doc(err)) + " fn "@ + id + "(_uhoh: autocxx::BindingGenerationFailure) {}"@
}

pub open spec fn placeholder_struct(err: Seq<char>, id: Seq<char>) -> GenItemV {
    GenItemV { kind: ItemKind::Placeholder, name: id, text: placeholder_struct_text(err, id) }
}

/// What an item that failed analysis becomes.
pub open spec fn error_entry(err: Seq<char>, ctx: ErrorContext) -> CodegenResultV {
    match ctx {
        ErrorContext::Item(id) => CodegenResultV {
            materializations: seq![UseV::Custom(placeholder_struct(err, sanitized(id@)))],
            ..empty_result()
        },
        ErrorContext::Method { self_ty, method } => if !is_builtin_type_name(self_ty@) {
            let m = sanitized(method@);
            CodegenResultV {
                impl_entry: Some((self_ty@, GenItemV { kind: ItemKind::Placeholder, name: m, text: placeholder_fn_text(err, m) })),
                ..empty_result()
            }
        } else {
            CodegenResultV {
                materializations: seq![UseV::Custom(placeholder_struct(err, self_ty@ + "_method_"@ + method@))],
                ..empty_result()
            }
        },
    }
}

fn placeholder_struct_item(err: &String, id: String) -> (r: GenItem)
    ensures
        r@ == placeholder_struct(err@, id@),
{
    let mut msg = String::from_str("autocxx bindings couldn't be generated: ");
    msg.append(err.as_str());
    let mut text = render_doc_attr(msg.as_str());
    text.append(" pub struct ");
    text.append(id.as_str());
    text.append(";");
    GenItem { kind: ItemKind::Placeholder, name: id, text }
}

/// A placeholder standing for an item that failed analysis, carrying the
/// failure as documentation.
pub fn generate_error_entry(err: &String, ctx: &ErrorContext) -> (r: CodegenResult)
    ensures
        r@ == error_entry(err@, *ctx),
{
    let mut r = CodegenResult::empty();
    match ctx {
        ErrorContext::Item(id) => {
            let item = placeholder_struct_item(err, sanitized_ident(id));
            r.materializations.push(Use::Custom(item));
        },
        ErrorContext::Method { self_ty, method } => {
            if !conflicts_with_built_in_type(self_ty) {
                let m = sanitized_ident(method);
                let mut msg = String::from_str("autocxx bindings couldn't be generated: ");
                msg.append(err.as_str());
                let mut text = render_doc_attr(msg.as_str());
                text.append(" fn ");
                text.append(m.as_str());
                text.append("(_uhoh: autocxx::BindingGenerationFailure) {}");
                r.impl_entry = Some(ImplEntry { ty: self_ty.clone(), item: GenItem { kind: ItemKind::Placeholder, name: m, text } });
            } else {
                let mut id = self_ty.clone();
                id.append("_method_");
                id.append(method.as_str());
                let item = placeholder_struct_item(err, id);
                r.materializations.push(Use::Custom(item));
            }
        },
    }
    assert(uses_view(r.materializations@) =~= error_entry(err@, *ctx).materializations);
    assert(r@ =~= error_entry(err@, *ctx));
    r
}

} // verus!

verus! {

/// A placeholder for an identifier that collides with a built-in type's
/// name is that name with the fixed suffix, never the name itself.
pub proof fn sanitized_placeholder_avoids_builtin(id: Seq<char>)
    ensures
        is_builtin_type_name(id) ==> sanitized(id) == id + error_suffix() && sanitized(id) != id,
        !is_builtin_type_name(id) ==> sanitized(id) == id,
{
    if is_builtin_type_name(id) {
        assert((id + error_suffix()).len() == id.len() + error_suffix().len());
        assert(error_suffix().len() > 0) by {
            reveal_strlit("_autocxx_error");
        }
    }
}

} // verus!
