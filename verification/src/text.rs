//! Character-level text utilities used to build URLs, redirect targets and
//! the rewritten panel `index.html`.
use vstd::prelude::*;

verus! {

broadcast use vstd::string::group_string_axioms;

/// `p` is a prefix of `s`.
pub open spec fn is_prefix(p: Seq<char>, s: Seq<char>) -> bool {
    p.len() <= s.len() && s.subrange(0, p.len() as int) == p
}

/// `p` is a suffix of `s`.
pub open spec fn is_suffix(p: Seq<char>, s: Seq<char>) -> bool {
    p.len() <= s.len() && s.subrange(s.len() - p.len(), s.len() as int) == p
}

/// `s` with the suffix `p` removed when it ends with `p`, and `s` itself otherwise
/// (what `s.strip_suffix(p).unwrap_or(s)` gives).
pub open spec fn strip_suffix_or_keep(s: Seq<char>, p: Seq<char>) -> Seq<char> {
    if is_suffix(p, s) {
        s.subrange(0, s.len() - p.len())
    } else {
        s
    }
}

/// Every non-overlapping occurrence of the non-empty pattern `p` in `s`, scanned
/// from the left, replaced by `r` (what `str::replace` computes).
pub open spec fn replace_all(s: Seq<char>, p: Seq<char>, r: Seq<char>) -> Seq<char>
    decreases s.len(),
{
    if s.len() == 0 || p.len() == 0 {
        s
    } else if is_prefix(p, s) {
        r + replace_all(s.skip(p.len() as int), p, r)
    } else {
        seq![s[0]] + replace_all(s.skip(1), p, r)
    }
}

/// Collects the characters of a string slice.
pub fn chars_of(s: &str) -> (v: Vec<char>)
    ensures
        v@ == s@,
{
    let mut v: Vec<char> = Vec::new();
    for c in it: s.chars()
        invariant
            it.seq() == s@,
            v@ == it.seq().take(it.index()),
    {
        v.push(c);
    }
    v
}

/// Appends one character to a string (`String::push`).
#[verifier::external_body]
pub(crate) fn push_char(s: &mut String, c: char)
    ensures
        final(s)@ == old(s)@.push(c),
{
    s.push(c);
}

/// Whether two string slices hold the same characters.
pub(crate) fn str_eq(a: &str, b: &str) -> (r: bool)
    ensures
        r == (a@ == b@),
{
    let ca = chars_of(a);
    let cb = chars_of(b);
    chars_equal(ca.as_slice(), cb.as_slice())
}

/// Whether two character sequences are equal.
pub(crate) fn chars_equal(a: &[char], b: &[char]) -> (r: bool)
    ensures
        r == (a@ == b@),
{
    if a.len() != b.len() {
        return false;
    }
    let mut i: usize = 0;
    while i < a.len()
        invariant
            a@.len() == b@.len(),
            i <= a@.len(),
            forall|j: int| 0 <= j < i ==> a@[j] == b@[j],
        decreases a@.len() - i,
    {
        if a[i] != b[i] {
            return false;
        }
        i = i + 1;
    }
    assert(a@ =~= b@);
    true
}

/// Builds a string from a sequence of characters.
pub fn string_of(v: &[char]) -> (s: String)
    ensures
        s@ == v@,
{
    let mut s = String::new();
    let mut i: usize = 0;
    while i < v.len()
        invariant
            i <= v@.len(),
            s@ == v@.take(i as int),
        decreases v@.len() - i,
    {
        push_char(&mut s, v[i]);
        i = i + 1;
        assert(s@ == v@.take(i as int));
    }
    assert(v@.take(v@.len() as int) == v@);
    s
}

/// Concatenation of character sequences into a fresh vector.
pub fn concat(a: &[char], b: &[char]) -> (v: Vec<char>)
    ensures
        v@ == a@ + b@,
{
    let mut v: Vec<char> = Vec::new();
    extend(&mut v, a);
    extend(&mut v, b);
    v
}

/// Appends all characters of `b` to `v`.
pub fn extend(v: &mut Vec<char>, b: &[char])
    ensures
        final(v)@ == old(v)@ + b@,
{
    let mut i: usize = 0;
    while i < b.len()
        invariant
            i <= b@.len(),
            v@ == old(v)@ + b@.take(i as int),
        decreases b@.len() - i,
    {
        v.push(b[i]);
        i = i + 1;
        assert(v@ == old(v)@ + b@.take(i as int));
    }
    assert(b@.take(b@.len() as int) == b@);
}

/// Whether `p` occurs in `s` at position `i`.
pub fn matches_at(s: &[char], p: &[char], i: usize) -> (b: bool)
    requires
        i <= s@.len(),
    ensures
        b == is_prefix(p@, s@.skip(i as int)),
{
    if p.len() > s.len() - i {
        return false;
    }
    let n = s.len();
    let mut j: usize = 0;
    while j < p.len()
        invariant
            n == s@.len(),
            j <= p@.len(),
            i + p@.len() <= s@.len(),
            forall|k: int| 0 <= k < j ==> s@[i + k] == p@[k],
        decreases p@.len() - j,
    {
        assert(i + j < s@.len());
        if s[i + j] != p[j] {
            assert(s@.skip(i as int).subrange(0, p@.len() as int)[j as int] != p@[j as int]);
            return false;
        }
        j = j + 1;
    }
    assert(s@.skip(i as int).subrange(0, p@.len() as int) =~= p@);
    true
}

/// Whether `s` starts with `p`.
pub fn starts_with(s: &[char], p: &[char]) -> (b: bool)
    ensures
        b == is_prefix(p@, s@),
{
    assert(s@.skip(0) =~= s@);
    matches_at(s, p, 0)
}

/// `s` without the suffix `p`, or `s` when it does not end with `p`.
pub fn strip_suffix_or_keep_exec(s: &[char], p: &[char]) -> (v: Vec<char>)
    ensures
        v@ == strip_suffix_or_keep(s@, p@),
{
    if p.len() <= s.len() {
        let start = s.len() - p.len();
        let ends = matches_at(s, p, start);
        assert(s@.skip(start as int).subrange(0, p@.len() as int) =~= s@.subrange(
            start as int,
            s@.len() as int,
        ));
        if ends {
            let mut v: Vec<char> = Vec::new();
            let mut i: usize = 0;
            while i < start
                invariant
                    i <= start,
                    start <= s@.len(),
                    v@ == s@.take(i as int),
                decreases start - i,
            {
                v.push(s[i]);
                i = i + 1;
                assert(v@ == s@.take(i as int));
            }
            assert(s@.take(start as int) =~= s@.subrange(0, start as int));
            return v;
        }
    }
    let mut v: Vec<char> = Vec::new();
    extend(&mut v, s);
    v
}

proof fn lemma_replace_all_skip(s: Seq<char>, p: Seq<char>, r: Seq<char>, i: int)
    requires
        p.len() > 0,
        0 <= i < s.len(),
        is_prefix(p, s.skip(i)),
    ensures
        replace_all(s.skip(i), p, r) == r + replace_all(s.skip(i + p.len()), p, r),
{
    assert(s.skip(i).skip(p.len() as int) =~= s.skip(i + p.len()));
}

proof fn lemma_replace_all_step(s: Seq<char>, p: Seq<char>, r: Seq<char>, i: int)
    requires
        p.len() > 0,
        0 <= i < s.len(),
        !is_prefix(p, s.skip(i)),
    ensures
        replace_all(s.skip(i), p, r) == seq![s[i]] + replace_all(s.skip(i + 1), p, r),
{
    assert(s.skip(i).skip(1) =~= s.skip(i + 1));
}

/// Replaces every non-overlapping occurrence of `p` in `s` by `r`, scanning from
/// the left.
pub fn replace_all_exec(s: &[char], p: &[char], r: &[char]) -> (v: Vec<char>)
    requires
        p@.len() > 0,
    ensures
        v@ == replace_all(s@, p@, r@),
{
    let mut out: Vec<char> = Vec::new();
    let mut i: usize = 0;
    assert(s@.skip(0) =~= s@);
    while i < s.len()
        invariant
            p@.len() > 0,
            i <= s@.len(),
            out@ + replace_all(s@.skip(i as int), p@, r@) == replace_all(s@, p@, r@),
        decreases s@.len() - i,
    {
        if matches_at(s, p, i) {
            proof {
                lemma_replace_all_skip(s@, p@, r@, i as int);
            }
            let ghost before = out@;
            extend(&mut out, r);
            assert(out@ + replace_all(s@.skip(i + p@.len()), p@, r@) =~= before + (r@
                + replace_all(s@.skip(i + p@.len()), p@, r@)));
            i = i + p.len();
        } else {
            proof {
                lemma_replace_all_step(s@, p@, r@, i as int);
            }
            let ghost before = out@;
            out.push(s[i]);
            assert(out@ + replace_all(s@.skip(i + 1), p@, r@) =~= before + (seq![s@[i as int]]
                + replace_all(s@.skip(i + 1), p@, r@)));
            i = i + 1;
        }
    }
    assert(s@.skip(i as int).len() == 0);
    assert(out@ + s@.skip(i as int) =~= out@);
    out
}

} // verus!
