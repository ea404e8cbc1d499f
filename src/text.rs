use vstd::prelude::*;
use crate::names::strings_view;

verus! {

/// `parts` with `sep` between each two neighbours.
pub open spec fn join(parts: Seq<Seq<char>>, sep: Seq<char>) -> Seq<char>
    decreases parts.len(),
{
    if parts.len() == 0 {
        seq![]
    } else if parts.len() == 1 {
        parts[0]
    } else {
        join(parts.drop_last(), sep) + sep + parts.last()
    }
}

/// Joins strings with a separator.
pub fn join_strings(parts: &Vec<String>, sep: &str) -> (r: String)
    ensures
        r@ == join(strings_view(parts@), sep@),
{
    let mut r = String::new();
    let mut i: usize = 0;
    while i < parts.len()
        invariant
            i <= parts.len(),
            r@ == join(strings_view(parts@.subrange(0, i as int)), sep@),
        decreases parts.len() - i,
    {
        let ghost pre = strings_view(parts@.subrange(0, i as int));
        let ghost post = strings_view(parts@.subrange(0, i + 1));
        proof {
            assert(post.drop_last() =~= pre);
            assert(post.last() == parts@[i as int]@);
        }
        if i > 0 {
            r.append(sep);
        }
        r.append(parts[i].as_str());
        proof {
            if i == 0 {
                assert(pre.len() == 0);
                assert(r@ =~= post[0]);
            }
        }
        i = i + 1;
    }
    assert(parts@.subrange(0, parts.len() as int) == parts@);
    r
}

/// How one character is written inside a string literal.
pub open spec fn escape_char(c: char) -> Seq<char> {
    if c == '"' {
        "\\\""@
    } else if c == '\\' {
        "\\\\"@
    } else {
        seq![c]
    }
}

/// A text with quotes and backslashes escaped.
pub open spec fn escaped(s: Seq<char>) -> Seq<char>
    decreases s.len(),
{
    if s.len() == 0 {
        seq![]
    } else {
        escaped(s.drop_last()) + escape_char(s.last())
    }
}

/// A text as a string literal.
pub open spec fn quoted(s: Seq<char>) -> Seq<char> {
    "\""@ + escaped(s) + "\""@
}

/// Escapes quotes and backslashes so that the text can stand in a string literal.
pub fn escape(s: &str) -> (r: String)
    ensures
        r@ == escaped(s@),
{
    let n = s.unicode_len();
    let mut r = String::new();
    let mut i: usize = 0;
    while i < n
        invariant
            i <= n,
            n == s@.len(),
            r@ == escaped(s@.subrange(0, i as int)),
        decreases n - i,
    {
        let c = s.get_char(i);
        proof {
            assert(s@.subrange(0, i + 1).drop_last() =~= s@.subrange(0, i as int));
        }
        if c == '"' {
            r.append("\\\"");
        } else if c == '\\' {
            r.append("\\\\");
        } else {
            let one = s.substring_char(i, i + 1);
            assert(one@ =~= seq![c]);
            r.append(one);
        }
        i = i + 1;
    }
    assert(s@.subrange(0, n as int) =~= s@);
    r
}

/// Writes a text as a string literal.
pub fn quote_text(s: &str) -> (r: String)
    ensures
        r@ == quoted(s@),
{
    let mut r = String::from_str("\"");
    let e = escape(s);
    r.append(e.as_str());
    r.append("\"");
    r
}

} // verus!

verus! {

pub fn cat3(a: &str, b: &str, c: &str) -> (r: String)
    ensures
        r@ == a@ + b@ + c@,
{
    let mut r = String::from_str(a);
    r.append(b);
    r.append(c);
    r
}

pub fn cat5(a: &str, b: &str, c: &str, d: &str, e: &str) -> (r: String)
    ensures
        r@ == a@ + b@ + c@ + d@ + e@,
{
    let mut r = cat3(a, b, c);
    r.append(d);
    r.append(e);
    r
}

pub fn cat7(a: &str, b: &str, c: &str, d: &str, e: &str, f: &str, g: &str) -> (r: String)
    ensures
        r@ == a@ + b@ + c@ + d@ + e@ + f@ + g@,
{
    let mut r = cat5(a, b, c, d, e);
    r.append(f);
    r.append(g);
    r
}

} // verus!

verus! {

pub open spec fn is_ident_char(c: char) -> bool {
    ('a' <= c && c <= 'z') || ('A' <= c && c <= 'Z') || ('0' <= c && c <= '9') || c == '_'
}

/// `s` with every path qualifier `ident::` removed, where `pend` holds the
/// identifier characters read just before `s`.
pub open spec fn unqualify_from(s: Seq<char>, pend: Seq<char>) -> Seq<char>
    decreases s.len(),
{
    if s.len() == 0 {
        pend
    } else if is_ident_char(s[0]) {
        unqualify_from(s.drop_first(), pend.push(s[0]))
    } else if pend.len() > 0 && s.len() >= 2 && s[0] == ':' && s[1] == ':' {
        unqualify_from(s.subrange(2, s.len() as int), seq![])
    } else {
        pend.push(s[0]) + unqualify_from(s.drop_first(), seq![])
    }
}

/// A type's text with its path qualifiers removed: each path keeps only its
/// last segment, generic arguments included.
pub open spec fn unqualified(s: Seq<char>) -> Seq<char> {
    unqualify_from(s, seq![])
}

/// Removes the path qualifiers from a type's text.
pub fn unqualify(s: &str) -> (r: String)
    ensures
        r@ == unqualified(s@),
{
    let n = s.unicode_len();
    let mut out = String::new();
    let mut pend = String::new();
    let mut i: usize = 0;
    assert(s@.subrange(0, n as int) =~= s@);
    assert(out@ + unqualify_from(s@.subrange(0, n as int), pend@) =~= unqualified(s@));
    while i < n
        invariant
            i <= n,
            n == s@.len(),
            out@ + unqualify_from(s@.subrange(i as int, n as int), pend@) == unqualified(s@),
        decreases n - i,
    {
        let ghost rest = s@.subrange(i as int, n as int);
        let c = s.get_char(i);
        let one = s.substring_char(i, i + 1);
        assert(one@ =~= seq![c]);
        assert(rest.drop_first() =~= s@.subrange(i + 1, n as int));
        if ('a' <= c && c <= 'z') || ('A' <= c && c <= 'Z') || ('0' <= c && c <= '9') || c == '_' {
            let ghost old_pend = pend@;
            pend.append(one);
            assert(pend@ =~= old_pend.push(c));
            assert(unqualify_from(rest, old_pend) == unqualify_from(rest.drop_first(), old_pend.push(c)));
            i = i + 1;
        } else if c == ':' && pend.unicode_len() > 0 && i + 1 < n && s.get_char(i + 1) == ':' {
            assert(rest.subrange(2, rest.len() as int) =~= s@.subrange(i + 2, n as int));
            assert(rest[1] == ':');
            assert(unqualify_from(rest, pend@) == unqualify_from(rest.subrange(2, rest.len() as int), seq![]));
            pend = String::new();
            i = i + 2;
        } else {
            let ghost old_pend = pend@;
            let ghost old_out = out@;
            out.append(pend.as_str());
            out.append(one);
            let ghost tail = unqualify_from(s@.subrange(i + 1, n as int), seq![]);
            assert(out@ + tail =~= old_out + (old_pend.push(c) + tail));
            assert(unqualify_from(rest, old_pend) == old_pend.push(c) + tail);
            pend = String::new();
            i = i + 1;
        }
    }
    assert(s@.subrange(n as int, n as int) =~= Seq::<char>::empty());
    out.append(pend.as_str());
    out
}

} // verus!
