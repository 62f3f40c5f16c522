//! Operations on strings seen as sequences of characters.
//!
//! Every function here takes `&str` and returns owned values; contracts are
//! stated over the views (`Seq<char>`) of the arguments.

use vstd::prelude::*;

verus! {

/// `pat` stands in `s` at position `i`.
pub open spec fn occurs_at(s: Seq<char>, pat: Seq<char>, i: int) -> bool {
    &&& 0 <= i
    &&& i + pat.len() <= s.len()
    &&& s.subrange(i, i + pat.len()) == pat
}

/// `s` begins with `prefix`.
pub open spec fn has_prefix(s: Seq<char>, prefix: Seq<char>) -> bool {
    occurs_at(s, prefix, 0)
}

/// `s` ends with `suffix`.
pub open spec fn has_suffix(s: Seq<char>, suffix: Seq<char>) -> bool {
    occurs_at(s, suffix, s.len() - suffix.len())
}

/// `s` without one trailing `suffix`; `s` itself where it does not end with it.
pub open spec fn without_suffix(s: Seq<char>, suffix: Seq<char>) -> Seq<char> {
    if has_suffix(s, suffix) {
        s.take(s.len() - suffix.len())
    } else {
        s
    }
}

/// `s` with every occurrence of `pat` replaced by `rep`, reading from the left
/// and never revisiting replaced text. An empty `pat` occurs nowhere.
pub open spec fn replaced_each(s: Seq<char>, pat: Seq<char>, rep: Seq<char>) -> Seq<char>
    decreases s.len(),
{
    if pat.len() == 0 || s.len() == 0 {
        s
    } else if has_prefix(s, pat) {
        rep + replaced_each(s.skip(pat.len() as int), pat, rep)
    } else {
        seq![s[0]] + replaced_each(s.skip(1), pat, rep)
    }
}

/// The pieces of `s` between the occurrences of the characters `a` and `b`.
/// There is always at least one piece; pieces may be empty.
pub open spec fn split_pieces(s: Seq<char>, a: char, b: char) -> Seq<Seq<char>>
    decreases s.len(),
{
    if s.len() == 0 {
        seq![Seq::<char>::empty()]
    } else {
        let before = split_pieces(s.drop_last(), a, b);
        if s.last() == a || s.last() == b {
            before.push(Seq::<char>::empty())
        } else {
            before.drop_last().push(before.last().push(s.last()))
        }
    }
}

/// `s` with every run of the character `c` shortened to a single `c`.
pub open spec fn collapsed(s: Seq<char>, c: char) -> Seq<char>
    decreases s.len(),
{
    if s.len() == 0 {
        s
    } else if s.last() == c && s.len() >= 2 && s[s.len() - 2] == c {
        collapsed(s.drop_last(), c)
    } else {
        collapsed(s.drop_last(), c).push(s.last())
    }
}

/// Every item of `items` with `prefix` put in front.
pub open spec fn prefixed(prefix: Seq<char>, items: Seq<Seq<char>>) -> Seq<Seq<char>> {
    Seq::new(items.len(), |i: int| prefix + items[i])
}

/// `String::push` appends one character.
pub assume_specification[ String::push ](s: &mut String, c: char)
    ensures
        final(s)@ == old(s)@.push(c),
;

pub proof fn lemma_split_pieces_nonempty(s: Seq<char>, a: char, b: char)
    ensures
        split_pieces(s, a, b).len() >= 1,
    decreases s.len(),
{
    if s.len() > 0 {
        lemma_split_pieces_nonempty(s.drop_last(), a, b);
    }
}

/// The characters of `s`.
pub fn to_chars(s: &str) -> (v: Vec<char>)
    ensures
        v@ == s@,
{
    let mut v: Vec<char> = Vec::new();
    for c in it: s.chars()
        invariant
            it.seq() == s@,
            v@ == it.seq().take(it.index() as int),
    {
        v.push(c);
    }
    v
}

/// The string made of the characters of `v`.
pub fn from_chars(v: &Vec<char>) -> (s: String)
    ensures
        s@ == v@,
{
    let mut s = String::new();
    let mut i: usize = 0;
    while i < v.len()
        invariant
            i <= v.len(),
            s@ == v@.take(i as int),
        decreases v.len() - i,
    {
        s.push(v[i]);
        i += 1;
        assert(v@.take(i as int) =~= v@.take(i - 1).push(v@[i - 1]));
    }
    assert(v@.take(v.len() as int) =~= v@);
    s
}

fn chars_occur_at(s: &Vec<char>, pat: &Vec<char>, i: usize) -> (b: bool)
    requires
        i <= s.len(),
    ensures
        b == occurs_at(s@, pat@, i as int),
{
    if pat.len() > s.len() - i {
        return false;
    }
    let mut k: usize = 0;
    while k < pat.len()
        invariant
            k <= pat.len(),
            i + pat.len() <= s.len(),
            forall|j: int| 0 <= j < k ==> s@[i + j] == pat@[j],
        decreases pat.len() - k,
    {
        if s[i + k] != pat[k] {
            assert(s@.subrange(i as int, i + pat.len())[k as int] == s@[i + k]);
            return false;
        }
        k += 1;
    }
    assert(s@.subrange(i as int, i + pat.len()) =~= pat@);
    true
}

/// Whether the two strings hold the same characters.
pub fn same_text(a: &str, b: &str) -> (r: bool)
    ensures
        r == (a@ == b@),
{
    let x = to_chars(a);
    let y = to_chars(b);
    if x.len() != y.len() {
        return false;
    }
    let r = chars_occur_at(&x, &y, 0);
    assert(x@.subrange(0, y@.len() as int) =~= x@);
    r
}

/// Whether `s` begins with `prefix`.
pub fn starts_with(s: &str, prefix: &str) -> (r: bool)
    ensures
        r == has_prefix(s@, prefix@),
{
    let x = to_chars(s);
    let y = to_chars(prefix);
    chars_occur_at(&x, &y, 0)
}

/// Whether `s` ends with `suffix`.
pub fn ends_with(s: &str, suffix: &str) -> (r: bool)
    ensures
        r == has_suffix(s@, suffix@),
{
    let x = to_chars(s);
    let y = to_chars(suffix);
    if y.len() > x.len() {
        return false;
    }
    chars_occur_at(&x, &y, x.len() - y.len())
}

/// `s` without one trailing `suffix`.
pub fn strip_suffix(s: &str, suffix: &str) -> (r: String)
    ensures
        r@ == without_suffix(s@, suffix@),
{
    let mut x = to_chars(s);
    let y = to_chars(suffix);
    if y.len() <= x.len() && chars_occur_at(&x, &y, x.len() - y.len()) {
        x.truncate(x.len() - y.len());
    }
    from_chars(&x)
}

/// Whether the character `c` stands anywhere in `s`.
pub fn contains_char(s: &str, c: char) -> (r: bool)
    ensures
        r == s@.contains(c),
{
    let x = to_chars(s);
    let mut i: usize = 0;
    while i < x.len()
        invariant
            i <= x.len(),
            x@ == s@,
            forall|j: int| 0 <= j < i ==> x@[j] != c,
        decreases x.len() - i,
    {
        if x[i] == c {
            assert(s@[i as int] == c);
            return true;
        }
        i += 1;
    }
    false
}

proof fn lemma_occurs_at_skip(s: Seq<char>, pat: Seq<char>, i: int)
    requires
        0 <= i <= s.len(),
    ensures
        occurs_at(s, pat, i) == has_prefix(s.skip(i), pat),
{
    if i + pat.len() <= s.len() {
        assert(s.skip(i).subrange(0, pat.len() as int) =~= s.subrange(i, i + pat.len()));
    }
}

fn chars_replace_each(s: &Vec<char>, pat: &Vec<char>, rep: &Vec<char>) -> (out: Vec<char>)
    ensures
        out@ == replaced_each(s@, pat@, rep@),
{
    let mut out: Vec<char> = Vec::new();
    if pat.len() == 0 {
        let mut k: usize = 0;
        while k < s.len()
            invariant
                k <= s.len(),
                out@ == s@.take(k as int),
            decreases s.len() - k,
        {
            out.push(s[k]);
            k += 1;
            assert(s@.take(k as int) =~= s@.take(k - 1).push(s@[k - 1]));
        }
        assert(s@.take(s.len() as int) =~= s@);
        return out;
    }
    let mut i: usize = 0;
    assert(s@.skip(0) =~= s@);
    while i < s.len()
        invariant
            i <= s.len(),
            pat.len() > 0,
            out@ + replaced_each(s@.skip(i as int), pat@, rep@) == replaced_each(s@, pat@, rep@),
        decreases s.len() - i,
    {
        proof {
            lemma_occurs_at_skip(s@, pat@, i as int);
        }
        let ghost before = out@;
        let ghost rest = s@.skip(i as int);
        if chars_occur_at(s, pat, i) {
            let mut k: usize = 0;
            while k < rep.len()
                invariant
                    k <= rep.len(),
                    out@ == before + rep@.take(k as int),
                decreases rep.len() - k,
            {
                out.push(rep[k]);
                k += 1;
                assert(rep@.take(k as int) =~= rep@.take(k - 1).push(rep@[k - 1]));
                assert(before + rep@.take(k as int) =~= (before + rep@.take(k - 1)).push(
                    rep@[k - 1],
                ));
            }
            assert(rep@.take(rep.len() as int) =~= rep@);
            i += pat.len();
            assert(rest.skip(pat.len() as int) =~= s@.skip(i as int));
            assert((before + rep@) + replaced_each(s@.skip(i as int), pat@, rep@) =~= before + (rep@
                + replaced_each(s@.skip(i as int), pat@, rep@)));
        } else {
            out.push(s[i]);
            i += 1;
            assert(rest.skip(1) =~= s@.skip(i as int));
            assert(before.push(rest[0]) + replaced_each(s@.skip(i as int), pat@, rep@) =~= before
                + (seq![rest[0]] + replaced_each(s@.skip(i as int), pat@, rep@)));
        }
    }
    assert(out@ + Seq::<char>::empty() =~= out@);
    out
}

/// `s` with every occurrence of `pat` replaced by `rep`.
pub fn replace_each(s: &str, pat: &str, rep: &str) -> (r: String)
    ensures
        r@ == replaced_each(s@, pat@, rep@),
{
    let x = to_chars(s);
    let p = to_chars(pat);
    let q = to_chars(rep);
    let out = chars_replace_each(&x, &p, &q);
    from_chars(&out)
}

/// The pieces of `s` between the occurrences of `a` and `b`.
pub fn split_at(s: &str, a: char, b: char) -> (pieces: Vec<String>)
    ensures
        pieces.deep_view() == split_pieces(s@, a, b),
{
    let x = to_chars(s);
    let mut pieces: Vec<String> = Vec::new();
    let mut piece: Vec<char> = Vec::new();
    let mut i: usize = 0;
    assert(x@.take(0) =~= Seq::<char>::empty());
    assert(pieces.deep_view().push(piece@) =~= split_pieces(x@.take(0), a, b));
    while i < x.len()
        invariant
            i <= x.len(),
            pieces.deep_view().push(piece@) == split_pieces(x@.take(i as int), a, b),
        decreases x.len() - i,
    {
        let c = x[i];
        let ghost done = pieces.deep_view();
        let ghost open = piece@;
        assert(x@.take(i + 1).drop_last() =~= x@.take(i as int));
        if c == a || c == b {
            let closed = from_chars(&piece);
            pieces.push(closed);
            piece = Vec::new();
            assert(pieces.deep_view() =~= done.push(open));
        } else {
            piece.push(c);
            assert(done.push(open).drop_last() =~= done);
        }
        i += 1;
    }
    assert(x@.take(x.len() as int) =~= x@);
    let ghost done = pieces.deep_view();
    let last = from_chars(&piece);
    pieces.push(last);
    assert(pieces.deep_view() =~= done.push(piece@));
    pieces
}

/// `s` with every run of the character `c` shortened to a single `c`.
pub fn collapse_runs(s: &str, c: char) -> (r: String)
    ensures
        r@ == collapsed(s@, c),
{
    let x = to_chars(s);
    let mut out: Vec<char> = Vec::new();
    let mut i: usize = 0;
    assert(x@.take(0) =~= Seq::<char>::empty());
    while i < x.len()
        invariant
            i <= x.len(),
            out@ == collapsed(x@.take(i as int), c),
        decreases x.len() - i,
    {
        assert(x@.take(i + 1).drop_last() =~= x@.take(i as int));
        if !(x[i] == c && i >= 1 && x[i - 1] == c) {
            out.push(x[i]);
        }
        i += 1;
    }
    assert(x@.take(x.len() as int) =~= x@);
    from_chars(&out)
}

/// `a` followed by `b`.
pub fn joined(a: &str, b: &str) -> (r: String)
    ensures
        r@ == a@ + b@,
{
    let mut x = to_chars(a);
    let y = to_chars(b);
    let mut k: usize = 0;
    while k < y.len()
        invariant
            k <= y.len(),
            x@ == a@ + y@.take(k as int),
        decreases y.len() - k,
    {
        x.push(y[k]);
        k += 1;
        assert(a@ + y@.take(k as int) =~= (a@ + y@.take(k - 1)).push(y@[k - 1]));
    }
    assert(y@.take(y.len() as int) =~= y@);
    from_chars(&x)
}

/// Every item of `items` with `prefix` put in front, in the same order.
pub fn prefix_each(prefix: &str, items: &Vec<String>) -> (out: Vec<String>)
    ensures
        out.deep_view() == prefixed(prefix@, items.deep_view()),
{
    let mut out: Vec<String> = Vec::new();
    let mut i: usize = 0;
    while i < items.len()
        invariant
            i <= items.len(),
            out.deep_view() == prefixed(prefix@, items.deep_view()).take(i as int),
        decreases items.len() - i,
    {
        let ghost before = out.deep_view();
        let item = joined(prefix, items[i].as_str());
        out.push(item);
        assert(out.deep_view() =~= before.push(prefix@ + items[i as int]@));
        assert(items.deep_view()[i as int] == items[i as int]@);
        i += 1;
        assert(prefixed(prefix@, items.deep_view()).take(i as int) =~= prefixed(
            prefix@,
            items.deep_view(),
        ).take(i - 1).push(prefix@ + items[i - 1]@));
    }
    assert(prefixed(prefix@, items.deep_view()).take(items.len() as int) =~= prefixed(
        prefix@,
        items.deep_view(),
    ));
    out
}

} // verus!
