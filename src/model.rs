use vstd::prelude::*;
use crate::names::QualifiedName;

verus! {

/// Whether a method's receiver is borrowed shared or exclusive.
#[derive(Clone, Copy, PartialEq, Eq, Structural)]
pub enum ReceiverMutability {
    Const,
    Mutable,
}

/// How a method is dispatched.
#[derive(Clone, Copy, PartialEq, Eq, Structural)]
pub enum MethodKind {
    Normal,
    Static,
    Constructor,
    Destructor,
    Virtual(ReceiverMutability),
    PureVirtual(ReceiverMutability),
}

/// One parameter of a signature: its pattern name, its type as text, and
/// whether passing it requires an `unsafe` call.
pub struct Param {
    pub name: String,
    pub ty: String,
    pub requires_unsafe: bool,
}

pub struct ParamV {
    pub name: Seq<char>,
    pub ty: Seq<char>,
    pub requires_unsafe: bool,
}

impl View for Param {
    type V = ParamV;

    open spec fn view(&self) -> ParamV {
        ParamV { name: self.name@, ty: self.ty@, requires_unsafe: self.requires_unsafe }
    }
}

pub open spec fn params_view(v: Seq<Param>) -> Seq<ParamV> {
    v.map_values(|p: Param| p@)
}

/// Copies a parameter list.
pub fn clone_params(v: &Vec<Param>) -> (r: Vec<Param>)
    ensures
        params_view(r@) == params_view(v@),
{
    let mut r: Vec<Param> = Vec::new();
    let mut i: usize = 0;
    while i < v.len()
        invariant
            i <= v.len(),
            r@.len() == i,
            forall|k: int| 0 <= k < i ==> r@[k]@ == v@[k]@,
        decreases v.len() - i,
    {
        let p = Param {
            name: v[i].name.clone(),
            ty: v[i].ty.clone(),
            requires_unsafe: v[i].requires_unsafe,
        };
        r.push(p);
        i = i + 1;
    }
    assert(params_view(r@) =~= params_view(v@));
    r
}

/// Whether a function is free-standing or a method of a receiver type.
pub enum FnKind {
    Function,
    Method { receiver: QualifiedName, method_kind: MethodKind },
}

/// What the analysis stage found out about a function.
pub struct FnAnalysis {
    pub kind: FnKind,
    /// All parameters; for a method the first one is the receiver.
    pub params: Vec<Param>,
    /// The return type as text; empty for the unit type.
    pub ret_type: String,
}

/// How a record type can be represented on the host side.
#[derive(Clone, Copy, PartialEq, Eq, Structural)]
pub enum TypeKind {
    /// Trivially copyable: a full value definition crosses the boundary.
    Pod,
    /// Only ever held on the heap, behind a pointer.
    NonPod,
    /// Opaque, and nested inside another type.
    NonPodNested,
    /// Abstract, or declared but never defined.
    Abstract,
}

/// Where an analysis failure applies.
pub enum ErrorContext {
    Item(String),
    Method { self_ty: String, method: String },
}

/// What a forwarding function of a derived type needs to know.
pub struct SubclassFnDetails {
    /// All parameters; the first is the holder of the back-reference, `me`.
    pub params: Vec<Param>,
    pub ret: String,
    pub method_name: String,
    pub superclass: QualifiedName,
    pub receiver_mutability: ReceiverMutability,
    pub requires_unsafe: bool,
}

/// One analysed item of the foreign API.
pub enum Api {
    StringConstructor { name: QualifiedName },
    Function { name: QualifiedName, analysis: FnAnalysis },
    Const { name: QualifiedName, body: String },
    Typedef { name: QualifiedName, body: String },
    /// A record type: its definition, its generic parameters and its doc.
    Struct { name: QualifiedName, kind: TypeKind, body: String, generic_params: Vec<String>, doc: Option<String> },
    Enum { name: QualifiedName, body: String, doc: Option<String> },
    ForwardDeclaration { name: QualifiedName },
    CType { name: QualifiedName },
    RustType { name: QualifiedName, path: String },
    RustFn { name: QualifiedName, sig: String, path: String },
    SubclassFn { name: QualifiedName, details: SubclassFnDetails, subclass: QualifiedName },
    Subclass { name: QualifiedName, superclass: QualifiedName },
    SubclassConstructor { name: QualifiedName, subclass: QualifiedName, is_trivial: bool },
    Ignored { name: QualifiedName, err: String, ctx: ErrorContext },
}

impl Api {
    pub open spec fn spec_name(&self) -> QualifiedName {
        match self {
            Api::StringConstructor { name } => *name,
            Api::Function { name, .. } => *name,
            Api::Const { name, .. } => *name,
            Api::Typedef { name, .. } => *name,
            Api::Struct { name, .. } => *name,
            Api::Enum { name, .. } => *name,
            Api::ForwardDeclaration { name } => *name,
            Api::CType { name } => *name,
            Api::RustType { name, .. } => *name,
            Api::RustFn { name, .. } => *name,
            Api::SubclassFn { name, .. } => *name,
            Api::Subclass { name, .. } => *name,
            Api::SubclassConstructor { name, .. } => *name,
            Api::Ignored { name, .. } => *name,
        }
    }

    /// The qualified name under which the item's output is filed.
    pub fn name(&self) -> (r: &QualifiedName)
        ensures
            *r == self.spec_name(),
    {
        match self {
            Api::StringConstructor { name } => name,
            Api::Function { name, .. } => name,
            Api::Const { name, .. } => name,
            Api::Typedef { name, .. } => name,
            Api::Struct { name, .. } => name,
            Api::Enum { name, .. } => name,
            Api::ForwardDeclaration { name } => name,
            Api::CType { name } => name,
            Api::RustType { name, .. } => name,
            Api::RustFn { name, .. } => name,
            Api::SubclassFn { name, .. } => name,
            Api::Subclass { name, .. } => name,
            Api::SubclassConstructor { name, .. } => name,
            Api::Ignored { name, .. } => name,
        }
    }
}

/// What sort of declaration a generated item is.
#[derive(Clone, Copy, PartialEq, Eq, Structural)]
pub enum ItemKind {
    /// A full value-type definition (struct or enum).
    ValueType,
    /// An extern-type assertion for a trivially copyable type.
    ExternTypeTrivial,
    /// An extern-type assertion for an opaque type.
    ExternTypeOpaque,
    /// An opaque type declared on the bridge.
    BridgeType,
    /// A function signature declared on the bridge.
    BridgeFn,
    /// A `use` statement.
    Use,
    /// A trait definition.
    Trait,
    /// An `impl` block.
    Impl,
    /// A function definition.
    Function,
    /// A placeholder standing for an item that could not be generated.
    Placeholder,
    /// Anything else, carried through as written.
    Verbatim,
}

/// One generated declaration: its kind, the identifier it declares, and its text.
pub struct GenItem {
    pub kind: ItemKind,
    pub name: String,
    pub text: String,
}

pub struct GenItemV {
    pub kind: ItemKind,
    pub name: Seq<char>,
    pub text: Seq<char>,
}

impl View for GenItem {
    type V = GenItemV;

    open spec fn view(&self) -> GenItemV {
        GenItemV { kind: self.kind, name: self.name@, text: self.text@ }
    }
}

pub open spec fn items_view(v: Seq<GenItem>) -> Seq<GenItemV> {
    v.map_values(|g: GenItem| g@)
}

pub fn gen_item(kind: ItemKind, name: &str, text: String) -> (r: GenItem)
    ensures
        r@ == (GenItemV { kind, name: name@, text: text@ }),
{
    GenItem { kind, name: String::from_str(name), text }
}

/// How a generated symbol is re-exported in the public surface.
pub enum Use {
    /// Re-exported from the bridge under its own name.
    UsedFromCxxBridge,
    /// Re-exported from the bridge under another name.
    UsedFromCxxBridgeWithAlias(String),
    /// Re-exported from the wrapper-type region.
    UsedFromBindgen,
    /// Re-exported from the wrapper-type region under a given identifier.
    SpecificNameFromBindgen(String),
    /// A custom item placed in the public surface as it is.
    Custom(GenItem),
}

pub enum UseV {
    UsedFromCxxBridge,
    UsedFromCxxBridgeWithAlias(Seq<char>),
    UsedFromBindgen,
    SpecificNameFromBindgen(Seq<char>),
    Custom(GenItemV),
}

impl View for Use {
    type V = UseV;

    open spec fn view(&self) -> UseV {
        match self {
            Use::UsedFromCxxBridge => UseV::UsedFromCxxBridge,
            Use::UsedFromCxxBridgeWithAlias(a) => UseV::UsedFromCxxBridgeWithAlias(a@),
            Use::UsedFromBindgen => UseV::UsedFromBindgen,
            Use::SpecificNameFromBindgen(a) => UseV::SpecificNameFromBindgen(a@),
            Use::Custom(g) => UseV::Custom(g@),
        }
    }
}

pub open spec fn uses_view(v: Seq<Use>) -> Seq<UseV> {
    v.map_values(|u: Use| u@)
}

/// A member to be merged into the `impl` block of the named type.
pub struct ImplEntry {
    pub ty: String,
    pub item: GenItem,
}

/// Everything generated for one API item.
pub struct CodegenResult {
    /// Foreign-side declarations of the bridge.
    pub extern_c_mod_items: Vec<GenItem>,
    /// Host-side declarations of the bridge.
    pub extern_rust_mod_items: Vec<GenItem>,
    /// Further items inside the bridge.
    pub bridge_items: Vec<GenItem>,
    /// Items outside any namespace.
    pub global_items: Vec<GenItem>,
    /// Wrapper-type definitions, filed under the item's namespace.
    pub bindgen_mod_items: Vec<GenItem>,
    pub impl_entry: Option<ImplEntry>,
    pub materializations: Vec<Use>,
}

pub struct CodegenResultV {
    pub extern_c_mod_items: Seq<GenItemV>,
    pub extern_rust_mod_items: Seq<GenItemV>,
    pub bridge_items: Seq<GenItemV>,
    pub global_items: Seq<GenItemV>,
    pub bindgen_mod_items: Seq<GenItemV>,
    pub impl_entry: Option<(Seq<char>, GenItemV)>,
    pub materializations: Seq<UseV>,
}

impl View for CodegenResult {
    type V = CodegenResultV;

    open spec fn view(&self) -> CodegenResultV {
        CodegenResultV {
            extern_c_mod_items: items_view(self.extern_c_mod_items@),
            extern_rust_mod_items: items_view(self.extern_rust_mod_items@),
            bridge_items: items_view(self.bridge_items@),
            global_items: items_view(self.global_items@),
            bindgen_mod_items: items_view(self.bindgen_mod_items@),
            impl_entry: match self.impl_entry {
                Some(e) => Some((e.ty@, e.item@)),
                None => None,
            },
            materializations: uses_view(self.materializations@),
        }
    }
}

pub open spec fn empty_result() -> CodegenResultV {
    CodegenResultV {
        extern_c_mod_items: seq![],
        extern_rust_mod_items: seq![],
        bridge_items: seq![],
        global_items: seq![],
        bindgen_mod_items: seq![],
        impl_entry: None,
        materializations: seq![],
    }
}

impl CodegenResult {
    /// A bundle with nothing in it.
    pub fn empty() -> (r: CodegenResult)
        ensures
            r@ == empty_result(),
    {
        let r = CodegenResult {
            extern_c_mod_items: Vec::new(),
            extern_rust_mod_items: Vec::new(),
            bridge_items: Vec::new(),
            global_items: Vec::new(),
            bindgen_mod_items: Vec::new(),
            impl_entry: None,
            materializations: Vec::new(),
        };
        assert(items_view(r.global_items@) =~= seq![]);
        assert(uses_view(r.materializations@) =~= seq![]);
        assert(r@ =~= empty_result());
        r
    }
}

} // verus!

verus! {

/// The settings the emitter reads.
pub struct CodegenConfig {
    /// The foreign types that host types may extend.
    pub superclasses: Vec<QualifiedName>,
    /// Leaves out the convenience helpers.
    pub exclude_utilities: bool,
    /// Leaves out the smart-pointer and vector instantiations of the bridge.
    pub exclude_impls: bool,
    /// The name of the bridge function that allocates a foreign string.
    pub makestring_name: String,
    /// The name of the generated module.
    pub mod_name: String,
}

} // verus!
