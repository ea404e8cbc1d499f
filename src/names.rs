use vstd::prelude::*;

verus! {

/// A namespace path plus a final identifier, the key for every generated symbol.
pub struct QualifiedName {
    pub ns: Vec<String>,
    pub id: String,
}

/// Mathematical model of a qualified name.
pub struct QnView {
    pub ns: Seq<Seq<char>>,
    pub id: Seq<char>,
}

pub open spec fn strings_view(v: Seq<String>) -> Seq<Seq<char>> {
    v.map_values(|s: String| s@)
}

impl View for QualifiedName {
    type V = QnView;

    open spec fn view(&self) -> QnView {
        QnView { ns: strings_view(self.ns@), id: self.id@ }
    }
}

/// Copies a vector of strings, keeping each element.
pub fn clone_strings(v: &Vec<String>) -> (r: Vec<String>)
    ensures
        strings_view(r@) == strings_view(v@),
{
    let mut r: Vec<String> = Vec::new();
    let mut i: usize = 0;
    while i < v.len()
        invariant
            i <= v.len(),
            r@.len() == i,
            forall|k: int| 0 <= k < i ==> r@[k]@ == v@[k]@,
        decreases v.len() - i,
    {
        r.push(v[i].clone());
        i = i + 1;
    }
    assert(strings_view(r@) =~= strings_view(v@));
    r
}

/// Compares two string sequences element by element.
pub fn strings_eq(a: &Vec<String>, b: &Vec<String>) -> (r: bool)
    ensures
        r == (strings_view(a@) == strings_view(b@)),
{
    if a.len() != b.len() {
        assert(strings_view(a@).len() != strings_view(b@).len());
        return false;
    }
    let mut i: usize = 0;
    while i < a.len()
        invariant
            i <= a.len(),
            a.len() == b.len(),
            forall|k: int| 0 <= k < i ==> a@[k]@ == b@[k]@,
        decreases a.len() - i,
    {
        if a[i] != b[i] {
            assert(strings_view(a@)[i as int] != strings_view(b@)[i as int]);
            return false;
        }
        i = i + 1;
    }
    assert(strings_view(a@) =~= strings_view(b@));
    true
}

impl QualifiedName {
    /// A name with the given namespace segments and final identifier.
    pub fn new(ns: &Vec<String>, id: &String) -> (r: QualifiedName)
        ensures
            r@.ns == strings_view(ns@),
            r@.id == id@,
    {
        QualifiedName { ns: clone_strings(ns), id: id.clone() }
    }

    /// A name in the root namespace.
    pub fn new_root(id: &String) -> (r: QualifiedName)
        ensures
            r@.ns.len() == 0,
            r@.id == id@,
    {
        let ns: Vec<String> = Vec::new();
        assert(strings_view(ns@) =~= Seq::<Seq<char>>::empty());
        QualifiedName { ns, id: id.clone() }
    }

    pub fn clone_name(&self) -> (r: QualifiedName)
        ensures
            r@ == self@,
    {
        QualifiedName { ns: clone_strings(&self.ns), id: self.id.clone() }
    }

    /// How many namespace segments enclose the final identifier.
    pub fn namespace_depth(&self) -> (r: usize)
        ensures
            r == self@.ns.len(),
    {
        self.ns.len()
    }

    /// The final identifier.
    pub fn final_segment(&self) -> (r: String)
        ensures
            r@ == self@.id,
    {
        self.id.clone()
    }

    /// Whether two names have equal namespaces and identifiers.
    pub fn same_as(&self, other: &QualifiedName) -> (r: bool)
        ensures
            r == (self@ == other@),
    {
        strings_eq(&self.ns, &other.ns) && self.id == other.id
    }
}

} // verus!

verus! {

/// Appends copies of `src`'s strings to `dst`.
pub fn append_strings(dst: &mut Vec<String>, src: &Vec<String>)
    ensures
        strings_view(final(dst)@) == strings_view(old(dst)@) + strings_view(src@),
{
    let ghost base = strings_view(dst@);
    let mut j: usize = 0;
    while j < src.len()
        invariant
            j <= src.len(),
            dst@.len() == base.len() + j,
            forall|k: int| 0 <= k < base.len() ==> dst@[k]@ == base[k],
            forall|k: int| 0 <= k < j ==> dst@[base.len() + k]@ == src@[k]@,
        decreases src.len() - j,
    {
        dst.push(src[j].clone());
        j = j + 1;
    }
    assert(strings_view(dst@) =~= base + strings_view(src@));
}

} // verus!
