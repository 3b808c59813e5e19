//! String helpers: equality, joining, and rendering of Rust string literals.
use vstd::prelude::*;

verus! {

/// Joins `parts` with `sep` between consecutive elements.
pub open spec fn join(parts: Seq<Seq<char>>, sep: Seq<char>) -> Seq<char>
    decreases parts.len(),
{
    if parts.len() == 0 {
        Seq::<char>::empty()
    } else if parts.len() == 1 {
        parts[0]
    } else {
        join(parts.drop_last(), sep) + sep + parts.last()
    }
}

/// The character sequences held by a vector of strings.
pub open spec fn views(v: Seq<String>) -> Seq<Seq<char>> {
    v.map_values(|s: String| s@)
}

/// Exact comparison of two strings by their characters.
pub fn str_eq(a: &str, b: &str) -> (r: bool)
    ensures
        r == (a@ == b@),
{
    let n = a.unicode_len();
    if n != b.unicode_len() {
        return false;
    }
    let mut i: usize = 0;
    while i < n
        invariant
            n == a@.len(),
            n == b@.len(),
            i <= n,
            forall|j: int| 0 <= j < i ==> a@[j] == b@[j],
        decreases n - i,
    {
        if a.get_char(i) != b.get_char(i) {
            return false;
        }
        i = i + 1;
    }
    assert(a@ =~= b@);
    true
}

/// Whether `s` begins with `prefix`.
pub open spec fn starts_with(s: Seq<char>, prefix: Seq<char>) -> bool {
    prefix.len() <= s.len() && s.subrange(0, prefix.len() as int) == prefix
}

/// Joins the strings of `parts` with `sep`.
pub fn join_strings(parts: &Vec<String>, sep: &str) -> (r: String)
    ensures
        r@ == join(views(parts@), sep@),
{
    let mut r = String::new();
    let ghost vs = views(parts@);
    let mut i: usize = 0;
    while i < parts.len()
        invariant
            vs == views(parts@),
            i <= parts.len(),
            r@ == join(vs.take(i as int), sep@),
        decreases parts.len() - i,
    {
        if i != 0 {
            r.append(sep);
        }
        r.append(parts[i].as_str());
        assert(vs.take(i + 1).drop_last() =~= vs.take(i as int));
        i = i + 1;
    }
    assert(vs.take(parts.len() as int) =~= vs);
    r
}

/// How one character is written inside a Rust string literal.
pub open spec fn escape_char(c: char) -> Seq<char> {
    if c == '"' {
        seq!['\\', '"']
    } else if c == '\\' {
        seq!['\\', '\\']
    } else if c == '\n' {
        seq!['\\', 'n']
    } else if c == '\r' {
        seq!['\\', 'r']
    } else if c == '\t' {
        seq!['\\', 't']
    } else if c == '\0' {
        seq!['\\', '0']
    } else {
        seq![c]
    }
}

/// The body of a Rust string literal that denotes `s`.
pub open spec fn escape(s: Seq<char>) -> Seq<char>
    decreases s.len(),
{
    if s.len() == 0 {
        Seq::<char>::empty()
    } else {
        escape(s.drop_last()) + escape_char(s.last())
    }
}

/// A Rust string literal (with its quotes) that denotes `s`.
pub open spec fn str_lit(s: Seq<char>) -> Seq<char> {
    seq!['"'] + escape(s) + seq!['"']
}

/// Renders `s` as a Rust string literal.
pub fn string_literal(s: &str) -> (r: String)
    ensures
        r@ == str_lit(s@),
{
    let mut r = String::new();
    r.append("\"");
    proof {
        reveal_strlit("\"");
    }
    let n = s.unicode_len();
    let mut i: usize = 0;
    while i < n
        invariant
            n == s@.len(),
            i <= n,
            r@ == seq!['"'] + escape(s@.take(i as int)),
        decreases n - i,
    {
        let c = s.get_char(i);
        let ghost before = r@;
        if c == '"' {
            r.append("\\\"");
            proof { reveal_strlit("\\\""); }
        } else if c == '\\' {
            r.append("\\\\");
            proof { reveal_strlit("\\\\"); }
        } else if c == '\n' {
            r.append("\\n");
            proof { reveal_strlit("\\n"); }
        } else if c == '\r' {
            r.append("\\r");
            proof { reveal_strlit("\\r"); }
        } else if c == '\t' {
            r.append("\\t");
            proof { reveal_strlit("\\t"); }
        } else if c == '\0' {
            r.append("\\0");
            proof { reveal_strlit("\\0"); }
        } else {
            let one = s.substring_char(i, i + 1);
            r.append(one);
            assert(one@ =~= seq![c]);
        }
        assert(r@ =~= before + escape_char(c));
        assert(s@.take(i + 1).drop_last() =~= s@.take(i as int));
        i = i + 1;
    }
    assert(s@.take(n as int) =~= s@);
    r.append("\"");
    r
}

} // verus!

verus! {

/// The source text of a compile error with message `msg`.
pub open spec fn compile_error_text(msg: Seq<char>) -> Seq<char> {
    "::core::compile_error! { "@ + str_lit(msg) + " }"@
}

/// Renders a compile error with message `msg`.
pub fn render_compile_error(msg: &str) -> (r: String)
    ensures
        r@ == compile_error_text(msg@),
{
    let mut r = String::from_str("::core::compile_error! { ");
    r.append(string_literal(msg).as_str());
    r.append(" }");
    r
}


/// Whether `sub` occurs in `s`.
pub open spec fn contains_text(s: Seq<char>, sub: Seq<char>) -> bool {
    exists|i: int| 0 <= i && i + sub.len() <= s.len() && #[trigger] s.subrange(i, i + sub.len()) == sub
}

/// A text occurs in any text built around it.
pub proof fn lemma_contains_middle(a: Seq<char>, b: Seq<char>, c: Seq<char>)
    ensures
        contains_text(a + b + c, b),
{
    let s = a + b + c;
    assert(s.subrange(a.len() as int, (a.len() + b.len()) as int) =~= b);
}


/// A text found in a prefix is found in the whole.
pub proof fn lemma_contains_in_prefix(x: Seq<char>, y: Seq<char>, sub: Seq<char>)
    requires
        contains_text(x, sub),
    ensures
        contains_text(x + y, sub),
{
    let i = choose|i: int| 0 <= i && i + sub.len() <= x.len() && #[trigger] x.subrange(i, i + sub.len()) == sub;
    assert((x + y).subrange(i, i + sub.len()) =~= x.subrange(i, i + sub.len()));
}

/// A text found in a suffix is found in the whole.
pub proof fn lemma_contains_in_suffix(x: Seq<char>, y: Seq<char>, sub: Seq<char>)
    requires
        contains_text(y, sub),
    ensures
        contains_text(x + y, sub),
{
    let i = choose|i: int| 0 <= i && i + sub.len() <= y.len() && #[trigger] y.subrange(i, i + sub.len()) == sub;
    assert((x + y).subrange(x.len() + i, x.len() + i + sub.len()) =~= y.subrange(i, i + sub.len()));
}

/// A text ends with, and begins, itself.
pub proof fn lemma_contains_ends(x: Seq<char>, sub: Seq<char>)
    ensures
        contains_text(x + sub, sub),
        contains_text(sub + x, sub),
{
    assert((x + sub).subrange(x.len() as int, (x.len() + sub.len()) as int) =~= sub);
    let z: int = 0;
    assert((sub + x).subrange(z, z + sub.len()) =~= sub);
}


/// Joining a list that begins with `x` gives `x`, then the separator and
/// the rest joined, when there is a rest.
pub proof fn lemma_join_first(x: Seq<char>, r: Seq<Seq<char>>, sep: Seq<char>)
    ensures
        join(seq![x] + r, sep) == x + (if r.len() == 0 { Seq::<char>::empty() } else { sep + join(r, sep) }),
    decreases r.len(),
{
    let l = seq![x] + r;
    if r.len() == 0 {
        assert(l =~= seq![x]);
        assert(join(l, sep) == l[0]);
        assert(x + Seq::<char>::empty() =~= x);
    } else {
        lemma_join_first(x, r.drop_last(), sep);
        assert(l.drop_last() =~= seq![x] + r.drop_last());
        assert(l.last() == r.last());
        if r.len() == 1 {
            assert(r.drop_last().len() == 0);
            assert(join(r, sep) == r[0]);
            assert(join(l, sep) == join(l.drop_last(), sep) + sep + l.last());
            assert(join(l.drop_last(), sep) == x + Seq::<char>::empty());
            assert(join(l, sep) =~= x + (sep + join(r, sep)));
        } else {
            assert(join(r, sep) == join(r.drop_last(), sep) + sep + r.last());
            assert(join(l, sep) =~= x + (sep + join(r, sep)));
        }
    }
}

} // verus!
