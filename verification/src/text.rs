//! Character-level helpers shared by the parsers of names, paths and extras.

use vstd::prelude::*;

verus! {

broadcast use vstd::string::group_string_axioms;

/// The characters of `s`, in order.
pub fn chars_of(s: &str) -> (v: Vec<char>)
    ensures
        v@ == s@,
{
    let mut v: Vec<char> = Vec::new();
    for c in it: s.chars()
        invariant
            v@ == it.seq().take(it.index() as int),
    {
        v.push(c);
    }
    v
}


/// Whether two strings hold the same characters.
pub fn str_eq(a: &str, b: &str) -> (r: bool)
    ensures
        r == (a@ == b@),
{
    let x = chars_of(a);
    let y = chars_of(b);
    chars_eq(&x, &y)
}

/// Whether `a` and `b` hold the same characters, in order.
pub fn chars_eq(a: &Vec<char>, b: &Vec<char>) -> (r: bool)
    ensures
        r == (a@ == b@),
{
    if a.len() != b.len() {
        return false;
    }
    let n = a.len();
    for i in 0..n
        invariant
            n == a.len(),
            n == b.len(),
            forall|j: int| 0 <= j < i ==> a@[j] == b@[j],
    {
        if a[i] != b[i] {
            return false;
        }
    }
    assert(a@ =~= b@);
    true
}

/// Whether `c` is one of the characters that the extras parser drops: `}`, `{` and `"`.
pub open spec fn is_brace_or_quote(c: char) -> bool {
    c == '}' || c == '{' || c == '"'
}

/// `s` without its braces and double quotes.
pub open spec fn strip_braces_quotes(s: Seq<char>) -> Seq<char>
    decreases s.len(),
{
    if s.len() == 0 {
        s
    } else {
        let rest = strip_braces_quotes(s.drop_last());
        if is_brace_or_quote(s.last()) {
            rest
        } else {
            rest.push(s.last())
        }
    }
}

/// The part of `s` after its last `:`; all of `s` when it holds none.
pub open spec fn after_last_colon(s: Seq<char>) -> Seq<char>
    decreases s.len(),
{
    if s.len() == 0 {
        s
    } else if s.last() == ':' {
        Seq::empty()
    } else {
        after_last_colon(s.drop_last()).push(s.last())
    }
}

/// The characters of `s` with braces and quotes removed, after the last `:`.
pub fn last_colon_segment_unquoted(s: &str) -> (seg: Vec<char>)
    ensures
        seg@ == after_last_colon(strip_braces_quotes(s@)),
{
    let chars = chars_of(s);
    let n = chars.len();
    let mut seg: Vec<char> = Vec::new();
    for i in 0..n
        invariant
            n == chars.len(),
            chars@ == s@,
            seg@ == after_last_colon(strip_braces_quotes(s@.take(i as int))),
    {
        let c = chars[i];
        proof {
            assert(s@.take(i + 1).drop_last() =~= s@.take(i as int));
            assert(s@.take(i + 1).last() == c);
        }
        let ghost t = strip_braces_quotes(s@.take(i as int));
        if c == '}' || c == '{' || c == '"' {
            assert(strip_braces_quotes(s@.take(i + 1)) == t);
        } else if c == ':' {
            assert(strip_braces_quotes(s@.take(i + 1)) == t.push(c));
            assert(t.push(c).last() == ':');
            seg = Vec::new();
            assert(seg@ =~= Seq::<char>::empty());
        } else {
            assert(strip_braces_quotes(s@.take(i + 1)) == t.push(c));
            assert(t.push(c).drop_last() =~= t);
            seg.push(c);
        }
    }
    assert(s@.take(n as int) =~= s@);
    seg
}


/// The separator that glTF primitive paths add after a mesh path.
pub open spec fn primitive_marker() -> Seq<char> {
    seq!['/', 'P', 'r', 'i', 'm', 'i', 't', 'i', 'v', 'e']
}

/// `s` cut before the first `/Primitive` at or after position `i`; all of `s` when there is none.
pub open spec fn cut_at_primitive(s: Seq<char>, i: nat) -> Seq<char>
    decreases s.len() - i,
{
    if i + 10 > s.len() {
        s
    } else if s.subrange(i as int, (i + 10) as int) == primitive_marker() {
        s.take(i as int)
    } else {
        cut_at_primitive(s, i + 1)
    }
}

/// The mesh path of a path that may name a primitive of the mesh: the part before the
/// first `/Primitive`, or the whole path when it holds none.
pub fn mesh_path_without_primitive(path: &str) -> (r: String)
    ensures
        r@ == cut_at_primitive(path@, 0),
{
    let chars = chars_of(path);
    let marker = vec!['/', 'P', 'r', 'i', 'm', 'i', 't', 'i', 'v', 'e'];
    assert(marker@ =~= primitive_marker());
    let n = chars.len();
    let mut i: usize = 0;
    while n >= 10 && i <= n - 10
        invariant
            n == chars@.len(),
            chars@ == path@,
            marker@ == primitive_marker(),
            cut_at_primitive(path@, 0) == cut_at_primitive(path@, i as nat),
        decreases n - i,
    {
        let mut same = true;
        let mut k: usize = 0;
        while k < 10
            invariant
                i + 10 <= n,
                n == chars@.len(),
                marker@.len() == 10,
                k <= 10,
                same == (forall|j: int| 0 <= j < k ==> chars@[i + j] == marker@[j]),
            decreases 10 - k,
        {
            if chars[i + k] != marker[k] {
                same = false;
            }
            k = k + 1;
        }
        if same {
            assert(path@.subrange(i as int, i + 10) =~= primitive_marker());
            return path.substring_char(0, i).to_owned();
        }
        assert(path@.subrange(i as int, i + 10) != primitive_marker()) by {
            let j = choose|j: int| 0 <= j < 10 && chars@[i + j] != marker@[j];
            assert(path@.subrange(i as int, i + 10)[j] != primitive_marker()[j]);
        }
        i = i + 1;
    }
    path.to_owned()
}


/// Dropping braces and quotes works piece by piece over a concatenation.
pub proof fn lemma_strip_concat(a: Seq<char>, b: Seq<char>)
    ensures
        strip_braces_quotes(a + b) == strip_braces_quotes(a) + strip_braces_quotes(b),
    decreases b.len(),
{
    if b.len() == 0 {
        assert(a + b =~= a);
        assert(strip_braces_quotes(a) + strip_braces_quotes(b) =~= strip_braces_quotes(a));
    } else {
        lemma_strip_concat(a, b.drop_last());
        assert((a + b).drop_last() =~= a + b.drop_last());
        assert((a + b).last() == b.last());
        if !is_brace_or_quote(b.last()) {
            assert(strip_braces_quotes(a) + strip_braces_quotes(b.drop_last()).push(b.last())
                =~= (strip_braces_quotes(a) + strip_braces_quotes(b.drop_last())).push(b.last()));
        }
    }
}

/// Text with no brace or quote is kept whole.
pub proof fn lemma_strip_plain(s: Seq<char>)
    requires
        forall|i: int| 0 <= i < s.len() ==> !is_brace_or_quote(#[trigger] s[i]),
    ensures
        strip_braces_quotes(s) == s,
    decreases s.len(),
{
    if s.len() > 0 {
        lemma_strip_plain(s.drop_last());
        assert(s.drop_last().push(s.last()) =~= s);
    }
}

/// Text made only of braces and quotes is dropped entirely.
pub proof fn lemma_strip_all(s: Seq<char>)
    requires
        forall|i: int| 0 <= i < s.len() ==> is_brace_or_quote(#[trigger] s[i]),
    ensures
        strip_braces_quotes(s) == Seq::<char>::empty(),
    decreases s.len(),
{
    if s.len() > 0 {
        lemma_strip_all(s.drop_last());
    }
}

/// After a `:` followed by text without one, the last segment is that text.
pub proof fn lemma_after_colon(a: Seq<char>, b: Seq<char>)
    requires
        forall|i: int| 0 <= i < b.len() ==> #[trigger] b[i] != ':',
    ensures
        after_last_colon(a.push(':') + b) == b,
    decreases b.len(),
{
    if b.len() == 0 {
        assert(a.push(':') + b =~= a.push(':'));
    } else {
        lemma_after_colon(a, b.drop_last());
        assert((a.push(':') + b).drop_last() =~= a.push(':') + b.drop_last());
        assert(b.drop_last().push(b.last()) =~= b);
    }
}

/// Cutting from position `i` gives a prefix of `s` with no marker starting at or
/// after `i`.
proof fn lemma_cut_at_primitive(s: Seq<char>, i: nat)
    ensures
        cut_at_primitive(s, i).len() <= s.len(),
        cut_at_primitive(s, i) == s.take(cut_at_primitive(s, i).len() as int),
        forall|j: int| i <= j && j + 10 <= cut_at_primitive(s, i).len()
            ==> #[trigger] s.subrange(j, j + 10) != primitive_marker(),
    decreases s.len() - i,
{
    if i + 10 > s.len() {
        assert(s.take(s.len() as int) =~= s);
    } else if s.subrange(i as int, (i + 10) as int) == primitive_marker() {
    } else {
        lemma_cut_at_primitive(s, i + 1);
    }
}

/// Cutting text with no marker from position `i` on keeps it whole.
proof fn lemma_cut_without_marker(s: Seq<char>, i: nat)
    requires
        forall|j: int| i <= j && j + 10 <= s.len() ==> #[trigger] s.subrange(j, j + 10) != primitive_marker(),
    ensures
        cut_at_primitive(s, i) == s,
    decreases s.len() - i,
{
    if i + 10 <= s.len() {
        lemma_cut_without_marker(s, i + 1);
    }
}

/// The mesh path of a primitive path is a prefix of it that names no primitive, and
/// taking the mesh path of a mesh path changes nothing.
pub proof fn mesh_path_is_plain_prefix(path: Seq<char>)
    ensures
        cut_at_primitive(path, 0).len() <= path.len(),
        cut_at_primitive(path, 0) == path.take(cut_at_primitive(path, 0).len() as int),
        forall|j: int| 0 <= j && j + 10 <= cut_at_primitive(path, 0).len()
            ==> #[trigger] cut_at_primitive(path, 0).subrange(j, j + 10) != primitive_marker(),
        cut_at_primitive(cut_at_primitive(path, 0), 0) == cut_at_primitive(path, 0),
{
    let r = cut_at_primitive(path, 0);
    lemma_cut_at_primitive(path, 0);
    assert forall|j: int| 0 <= j && j + 10 <= r.len() implies #[trigger] r.subrange(j, j + 10) != primitive_marker() by {
        assert(r.subrange(j, j + 10) =~= path.subrange(j, j + 10));
    }
    lemma_cut_without_marker(r, 0);
}

} // verus!
