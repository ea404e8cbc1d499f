use vstd::prelude::*;
use crate::names::{QualifiedName, QnView};
use crate::model::{Api, FnAnalysis, FnKind, MethodKind, Param, ParamV, ReceiverMutability, clone_params, params_view};

verus! {

/// Whether `a` declares a constructor of the derived type `q` with the given triviality.
pub open spec fn is_ctor_of(a: Api, q: QnView, trivial: bool) -> bool {
    match a {
        Api::SubclassConstructor { subclass, is_trivial, .. } => subclass@ == q && is_trivial == trivial,
        _ => false,
    }
}

pub open spec fn has_ctor(apis: Seq<Api>, q: QnView, trivial: bool) -> bool {
    exists|i: int| 0 <= i < apis.len() && is_ctor_of(#[trigger] apis[i], q, trivial)
}

/// A derived type gets an automatic peer constructor when it declares at
/// least one constructor and all of them are trivial.
pub open spec fn trivially_constructed(apis: Seq<Api>, q: QnView) -> bool {
    has_ctor(apis, q, true) && !has_ctor(apis, q, false)
}

pub open spec fn names_view(v: Seq<QualifiedName>) -> Seq<QnView> {
    v.map_values(|n: QualifiedName| n@)
}

pub open spec fn no_duplicate_names(v: Seq<QnView>) -> bool {
    forall|i: int, j: int| 0 <= i < j < v.len() ==> v[i] != v[j]
}

/// Whether `q` is among `v`.
pub fn contains_name(v: &Vec<QualifiedName>, q: &QualifiedName) -> (r: bool)
    ensures
        r == names_view(v@).contains(q@),
{
    let mut i: usize = 0;
    while i < v.len()
        invariant
            i <= v.len(),
            forall|k: int| 0 <= k < i ==> v@[k]@ != q@,
        decreases v.len() - i,
    {
        if v[i].same_as(q) {
            assert(names_view(v@)[i as int] == q@);
            return true;
        }
        i = i + 1;
    }
    assert(!names_view(v@).contains(q@)) by {
        if names_view(v@).contains(q@) {
            let k = choose|k: int| 0 <= k < names_view(v@).len() && names_view(v@)[k] == q@;
            assert(v@[k]@ == q@);
        }
    }
    false
}

/// The derived types all of whose declared constructors are trivial (and
/// which declare at least one), each once.
pub fn find_trivially_constructed_subclasses(apis: &Vec<Api>) -> (r: Vec<QualifiedName>)
    ensures
        forall|q: QnView| names_view(r@).contains(q) <==> trivially_constructed(apis@, q),
        no_duplicate_names(names_view(r@)),
{
    let mut complex: Vec<QualifiedName> = Vec::new();
    let mut i: usize = 0;
    while i < apis.len()
        invariant
            i <= apis.len(),
            forall|q: QnView|
                names_view(complex@).contains(q) <==> has_ctor(apis@.subrange(0, i as int), q, false),
        decreases apis.len() - i,
    {
        let ghost before = complex@;
        if let Api::SubclassConstructor { subclass, is_trivial, .. } = &apis[i] {
            if !*is_trivial {
                complex.push(subclass.clone_name());
            }
        }
        proof {
            let pre = apis@.subrange(0, i as int);
            let post = apis@.subrange(0, i + 1);
            assert forall|q: QnView|
                names_view(complex@).contains(q) <==> has_ctor(post, q, false) by {
                if has_ctor(post, q, false) {
                    let k = choose|k: int| 0 <= k < post.len() && is_ctor_of(#[trigger] post[k], q, false);
                    if k < i {
                        assert(pre[k] == post[k]);
                        assert(has_ctor(pre, q, false));
                        assert(names_view(before).contains(q));
                        let m = choose|m: int| 0 <= m < names_view(before).len() && names_view(before)[m] == q;
                        assert(complex@[m] == before[m]);
                        assert(names_view(complex@)[m] == q);
                    } else {
                        assert(names_view(complex@)[complex@.len() - 1] == q);
                    }
                }
                if names_view(complex@).contains(q) {
                    let m = choose|m: int| 0 <= m < names_view(complex@).len() && names_view(complex@)[m] == q;
                    if m < before.len() {
                        assert(complex@[m] == before[m]);
                        assert(names_view(before)[m] == q);
                        assert(names_view(before).contains(q));
                        let k = choose|k: int| 0 <= k < pre.len() && is_ctor_of(#[trigger] pre[k], q, false);
                        assert(post[k] == pre[k]);
                    } else {
                        assert(is_ctor_of(post[i as int], q, false));
                    }
                }
            }
        }
        i = i + 1;
    }
    assert(apis@.subrange(0, apis.len() as int) == apis@);
    let mut r: Vec<QualifiedName> = Vec::new();
    let mut j: usize = 0;
    while j < apis.len()
        invariant
            j <= apis.len(),
            forall|q: QnView| names_view(complex@).contains(q) <==> has_ctor(apis@, q, false),
            forall|q: QnView|
                names_view(r@).contains(q) <==> (has_ctor(apis@.subrange(0, j as int), q, true)
                    && !has_ctor(apis@, q, false)),
            no_duplicate_names(names_view(r@)),
        decreases apis.len() - j,
    {
        let ghost before = r@;
        let ghost old_len = r.len();
        if let Api::SubclassConstructor { subclass, is_trivial, .. } = &apis[j] {
            if *is_trivial && !contains_name(&complex, subclass) && !contains_name(&r, subclass) {
                r.push(subclass.clone_name());
                proof {
                    assert forall|a: int, b: int| 0 <= a < b < names_view(r@).len() implies
                        names_view(r@)[a] != names_view(r@)[b] by {
                        if b == r@.len() - 1 {
                            assert(names_view(before)[a] == names_view(r@)[a]);
                        } else {
                            assert(names_view(before)[a] == names_view(r@)[a]);
                            assert(names_view(before)[b] == names_view(r@)[b]);
                        }
                    }
                }
            }
        }
        proof {
            let pre = apis@.subrange(0, j as int);
            let post = apis@.subrange(0, j + 1);
            assert forall|q: QnView|
                names_view(r@).contains(q) <==> (has_ctor(post, q, true) && !has_ctor(apis@, q, false)) by {
                if has_ctor(post, q, true) && !has_ctor(apis@, q, false) {
                    let k = choose|k: int| 0 <= k < post.len() && is_ctor_of(#[trigger] post[k], q, true);
                    if k < j {
                        assert(pre[k] == post[k]);
                        assert(has_ctor(pre, q, true));
                        assert(names_view(before).contains(q));
                        let m = choose|m: int| 0 <= m < names_view(before).len() && names_view(before)[m] == q;
                        assert(r@[m] == before[m]);
                        assert(names_view(r@)[m] == q);
                    } else if !names_view(before).contains(q) {
                        assert(names_view(r@)[r@.len() - 1] == q);
                    } else {
                        let m = choose|m: int| 0 <= m < names_view(before).len() && names_view(before)[m] == q;
                        assert(r@[m] == before[m]);
                        assert(names_view(r@)[m] == q);
                    }
                }
                if names_view(r@).contains(q) {
                    let m = choose|m: int| 0 <= m < names_view(r@).len() && names_view(r@)[m] == q;
                    if m < before.len() {
                        assert(r@[m] == before[m]);
                        assert(names_view(before)[m] == q);
                        assert(names_view(before).contains(q));
                        let k = choose|k: int| 0 <= k < pre.len() && is_ctor_of(#[trigger] pre[k], q, true);
                        assert(post[k] == pre[k]);
                    } else {
                        assert(is_ctor_of(post[j as int], q, true));
                        assert(apis@[j as int] == post[j as int]);
                        if has_ctor(apis@, q, false) {
                            assert(names_view(complex@).contains(q));
                        }
                    }
                }
            }
        }
        j = j + 1;
    }
    assert(apis@.subrange(0, apis.len() as int) == apis@);
    r
}

} // verus!

verus! {

/// A virtual method declared on an extensible base, as derived types must forward it.
pub struct SuperclassMethod {
    pub name: String,
    /// All parameters; the first is the receiver.
    pub params: Vec<Param>,
    pub ret_type: String,
    pub receiver_mutability: ReceiverMutability,
    /// Whether some parameter makes the forwarding call `unsafe`.
    pub requires_unsafe: bool,
}

pub struct SuperclassMethodV {
    pub name: Seq<char>,
    pub params: Seq<ParamV>,
    pub ret_type: Seq<char>,
    pub receiver_mutability: ReceiverMutability,
    pub requires_unsafe: bool,
}

impl View for SuperclassMethod {
    type V = SuperclassMethodV;

    open spec fn view(&self) -> SuperclassMethodV {
        SuperclassMethodV {
            name: self.name@,
            params: params_view(self.params@),
            ret_type: self.ret_type@,
            receiver_mutability: self.receiver_mutability,
            requires_unsafe: self.requires_unsafe,
        }
    }
}

pub open spec fn methods_view(v: Seq<SuperclassMethod>) -> Seq<SuperclassMethodV> {
    v.map_values(|m: SuperclassMethod| m@)
}

/// The methods recorded for one extensible base.
pub struct BaseMethods {
    pub base: QualifiedName,
    pub methods: Vec<SuperclassMethod>,
}

pub open spec fn any_unsafe(params: Seq<ParamV>) -> bool {
    exists|i: int| 0 <= i < params.len() && (#[trigger] params[i]).requires_unsafe
}

/// Whether `a` is a virtual or pure-virtual method of the base `b`.
pub open spec fn is_virtual_on(a: Api, b: QnView) -> bool {
    match a {
        Api::Function { analysis, .. } => match analysis.kind {
            FnKind::Method { receiver, method_kind } => receiver@ == b && match method_kind {
                MethodKind::Virtual(_) | MethodKind::PureVirtual(_) => true,
                _ => false,
            },
            _ => false,
        },
        _ => false,
    }
}

pub open spec fn virtual_mutability(k: MethodKind) -> ReceiverMutability {
    match k {
        MethodKind::Virtual(m) | MethodKind::PureVirtual(m) => m,
        _ => ReceiverMutability::Const,
    }
}

/// The record made of a virtual method item.
pub open spec fn method_record(a: Api) -> SuperclassMethodV {
    match a {
        Api::Function { name, analysis } => {
            let params = params_view(analysis.params@);
            SuperclassMethodV {
                name: name@.id,
                params,
                ret_type: analysis.ret_type@,
                receiver_mutability: match analysis.kind {
                    FnKind::Method { method_kind, .. } => virtual_mutability(method_kind),
                    _ => ReceiverMutability::Const,
                },
                requires_unsafe: any_unsafe(params),
            }
        },
        _ => arbitrary(),
    }
}

/// The records of the virtual methods of `b` among `apis`, in their order.
pub open spec fn methods_on(apis: Seq<Api>, b: QnView) -> Seq<SuperclassMethodV>
    decreases apis.len(),
{
    if apis.len() == 0 {
        seq![]
    } else {
        let pre = methods_on(apis.drop_last(), b);
        if is_virtual_on(apis.last(), b) {
            pre.push(method_record(apis.last()))
        } else {
            pre
        }
    }
}

pub(crate) fn any_requires_unsafe(params: &Vec<Param>) -> (r: bool)
    ensures
        r == any_unsafe(params_view(params@)),
{
    let mut i: usize = 0;
    while i < params.len()
        invariant
            i <= params.len(),
            forall|k: int| 0 <= k < i ==> !params@[k].requires_unsafe,
        decreases params.len() - i,
    {
        if params[i].requires_unsafe {
            assert(params_view(params@)[i as int].requires_unsafe);
            return true;
        }
        i = i + 1;
    }
    assert(!any_unsafe(params_view(params@))) by {
        if any_unsafe(params_view(params@)) {
            let k = choose|k: int| 0 <= k < params_view(params@).len() && (#[trigger] params_view(params@)[k]).requires_unsafe;
            assert(params@[k].requires_unsafe);
        }
    }
    false
}

/// The virtual methods of the base `base` among `apis`, in their order.
pub fn methods_of_base(apis: &Vec<Api>, base: &QualifiedName) -> (r: Vec<SuperclassMethod>)
    ensures
        methods_view(r@) == methods_on(apis@, base@),
{
    let mut r: Vec<SuperclassMethod> = Vec::new();
    let mut i: usize = 0;
    while i < apis.len()
        invariant
            i <= apis.len(),
            methods_view(r@) == methods_on(apis@.subrange(0, i as int), base@),
        decreases apis.len() - i,
    {
        let ghost before = r@;
        proof {
            assert(apis@.subrange(0, i + 1).drop_last() == apis@.subrange(0, i as int));
            assert(apis@.subrange(0, i + 1).last() == apis@[i as int]);
        }
        if let Api::Function { name, analysis: FnAnalysis { kind: FnKind::Method { receiver, method_kind }, params, ret_type } } = &apis[i] {
            let m = match method_kind {
                MethodKind::Virtual(m) => Some(*m),
                MethodKind::PureVirtual(m) => Some(*m),
                _ => None,
            };
            if let Some(mutability) = m {
                if receiver.same_as(base) {
                    let rec = SuperclassMethod {
                        name: name.final_segment(),
                        params: clone_params(params),
                        ret_type: ret_type.clone(),
                        receiver_mutability: mutability,
                        requires_unsafe: any_requires_unsafe(params),
                    };
                    r.push(rec);
                    assert(methods_view(r@) =~= methods_view(before).push(method_record(apis@[i as int])));
                }
            }
        }
        i = i + 1;
    }
    assert(apis@.subrange(0, apis.len() as int) == apis@);
    r
}

/// For each extensible base (each once, in the order first given), the
/// virtual methods declared on it among `apis`.
pub fn accumulate_superclass_methods(superclasses: &Vec<QualifiedName>, apis: &Vec<Api>) -> (r: Vec<BaseMethods>)
    ensures
        forall|q: QnView| (exists|k: int| 0 <= k < r@.len() && r@[k].base@ == q)
            <==> names_view(superclasses@).contains(q),
        forall|a: int, b: int| 0 <= a < b < r@.len() ==> r@[a].base@ != r@[b].base@,
        forall|k: int| 0 <= k < r@.len() ==> methods_view(#[trigger] r@[k].methods@) == methods_on(apis@, r@[k].base@),
{
    let mut r: Vec<BaseMethods> = Vec::new();
    let mut seen: Vec<QualifiedName> = Vec::new();
    let mut i: usize = 0;
    while i < superclasses.len()
        invariant
            i <= superclasses.len(),
            r@.len() == seen@.len(),
            forall|k: int| 0 <= k < r@.len() ==> r@[k].base@ == #[trigger] seen@[k]@,
            forall|q: QnView| names_view(seen@).contains(q)
                <==> names_view(superclasses@.subrange(0, i as int)).contains(q),
            forall|a: int, b: int| 0 <= a < b < r@.len() ==> r@[a].base@ != r@[b].base@,
            forall|k: int| 0 <= k < r@.len() ==> methods_view(#[trigger] r@[k].methods@) == methods_on(apis@, r@[k].base@),
        decreases superclasses.len() - i,
    {
        let ghost seen_before = seen@;
        let ghost r_before = r@;
        let sc = &superclasses[i];
        if !contains_name(&seen, sc) {
            let methods = methods_of_base(apis, sc);
            r.push(BaseMethods { base: sc.clone_name(), methods });
            seen.push(sc.clone_name());
            proof {
                assert forall|a: int, b: int| 0 <= a < b < r@.len() implies r@[a].base@ != r@[b].base@ by {
                    if b == r@.len() - 1 {
                        assert(r@[a] == r_before[a]);
                        assert(names_view(seen_before)[a] == seen_before[a]@);
                    } else {
                        assert(r@[a] == r_before[a]);
                        assert(r@[b] == r_before[b]);
                    }
                }
                assert forall|k: int| 0 <= k < r@.len() implies r@[k].base@ == #[trigger] seen@[k]@ by {
                    if k < r_before.len() {
                        assert(r@[k] == r_before[k]);
                        assert(seen@[k] == seen_before[k]);
                    }
                }
                assert forall|k: int| 0 <= k < r@.len() implies methods_view(#[trigger] r@[k].methods@) == methods_on(apis@, r@[k].base@) by {
                    if k < r_before.len() {
                        assert(r@[k] == r_before[k]);
                    }
                }
            }
        }
        proof {
            let pre = superclasses@.subrange(0, i as int);
            let post = superclasses@.subrange(0, i + 1);
            assert forall|q: QnView| names_view(seen@).contains(q) <==> names_view(post).contains(q) by {
                if names_view(post).contains(q) {
                    let k = choose|k: int| 0 <= k < names_view(post).len() && names_view(post)[k] == q;
                    if k < i {
                        assert(names_view(pre)[k] == q);
                        assert(names_view(pre).contains(q));
                        assert(names_view(seen_before).contains(q));
                        let m = choose|m: int| 0 <= m < names_view(seen_before).len() && names_view(seen_before)[m] == q;
                        assert(seen@[m] == seen_before[m]);
                        assert(names_view(seen@)[m] == q);
                    } else if names_view(seen_before).contains(q) {
                        let m = choose|m: int| 0 <= m < names_view(seen_before).len() && names_view(seen_before)[m] == q;
                        assert(seen@[m] == seen_before[m]);
                        assert(names_view(seen@)[m] == q);
                    } else {
                        assert(names_view(seen@)[seen@.len() - 1] == q);
                    }
                }
                if names_view(seen@).contains(q) {
                    let m = choose|m: int| 0 <= m < names_view(seen@).len() && names_view(seen@)[m] == q;
                    if m < seen_before.len() {
                        assert(seen@[m] == seen_before[m]);
                        assert(names_view(seen_before)[m] == q);
                        assert(names_view(seen_before).contains(q));
                        let k = choose|k: int| 0 <= k < names_view(pre).len() && names_view(pre)[k] == q;
                        assert(names_view(post)[k] == q);
                    } else {
                        assert(names_view(post)[i as int] == q);
                    }
                }
            }
        }
        i = i + 1;
    }
    assert(superclasses@.subrange(0, superclasses.len() as int) == superclasses@);
    assert forall|q: QnView| (exists|k: int| 0 <= k < r@.len() && r@[k].base@ == q)
        <==> names_view(superclasses@).contains(q) by {
        if names_view(seen@).contains(q) {
            let m = choose|m: int| 0 <= m < names_view(seen@).len() && names_view(seen@)[m] == q;
            assert(r@[m].base@ == seen@[m]@);
        }
        if exists|k: int| 0 <= k < r@.len() && r@[k].base@ == q {
            let k = choose|k: int| 0 <= k < r@.len() && r@[k].base@ == q;
            assert(r@[k].base@ == seen@[k]@);
            assert(names_view(seen@)[k] == q);
        }
    }
    r
}

} // verus!
