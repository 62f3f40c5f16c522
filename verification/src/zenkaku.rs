//! Full-width decimal digits (U+FF10 to U+FF19): recognizing them, reading the
//! first number in a string, writing a number, and listing a numbered range of
//! labels.

use crate::error::NormalizeError;
use crate::text::{from_chars, to_chars};
use vstd::prelude::*;

verus! {

/// `c` is one of the ten full-width digits.
pub open spec fn is_zenkaku_digit(c: char) -> bool {
    '０' <= c && c <= '９'
}

/// The index of the first full-width digit of `s` at or after `i`, or the
/// length of `s` where there is none.
pub open spec fn digit_from(s: Seq<char>, i: int) -> int
    decreases s.len() - i,
{
    if i < 0 || i >= s.len() {
        s.len() as int
    } else if is_zenkaku_digit(s[i]) {
        i
    } else {
        digit_from(s, i + 1)
    }
}

/// The index just behind the full-width digits that stand in `s` from `i` on.
pub open spec fn digits_end(s: Seq<char>, i: int) -> int
    decreases s.len() - i,
{
    if i < 0 || i >= s.len() || !is_zenkaku_digit(s[i]) {
        i
    } else {
        digits_end(s, i + 1)
    }
}

/// Where the first run of full-width digits of `s` begins.
pub open spec fn run_start(s: Seq<char>) -> int {
    digit_from(s, 0)
}

/// Where the first run of full-width digits of `s` ends.
pub open spec fn run_end(s: Seq<char>) -> int {
    digits_end(s, run_start(s))
}

/// The first run of full-width digits of `s`, as long as it goes; empty where
/// `s` holds no such digit.
pub open spec fn leading_run(s: Seq<char>) -> Seq<char> {
    s.subrange(run_start(s), run_end(s))
}

/// The value of the full-width digit `c`.
pub open spec fn digit_value(c: char) -> nat {
    (c as int - '０' as int) as nat
}

/// The full-width digit of value `v`, for `v` below ten.
pub open spec fn zenkaku_digit(v: nat) -> char {
    ('０' as int + v) as char
}

/// The number that the digits `d` denote in base ten; zero for no digits.
pub open spec fn digits_value(d: Seq<char>) -> nat
    decreases d.len(),
{
    if d.len() == 0 {
        0
    } else {
        digits_value(d.drop_last()) * 10 + digit_value(d.last())
    }
}

/// `n` written in base ten with full-width digits, without leading zeros.
pub open spec fn zenkaku_digits(n: nat) -> Seq<char>
    decreases n,
{
    if n < 10 {
        seq![zenkaku_digit(n)]
    } else {
        zenkaku_digits(n / 10).push(zenkaku_digit(n % 10))
    }
}

/// The number that the first run of full-width digits of `s` denotes.
pub open spec fn zenkaku_number(s: Seq<char>) -> Option<nat> {
    if leading_run(s).len() == 0 {
        None
    } else {
        Some(digits_value(leading_run(s)))
    }
}

/// The number of `s` as a `usize`, where it has one that fits.
pub open spec fn zenkaku_usize(s: Seq<char>) -> Option<usize> {
    match zenkaku_number(s) {
        Some(n) => if n <= usize::MAX {
            Some(n as usize)
        } else {
            None
        },
        None => None,
    }
}

/// `label` with its first run of full-width digits replaced by `digits`;
/// `label` itself where it holds no such digit.
pub open spec fn with_run_replaced(label: Seq<char>, digits: Seq<char>) -> Seq<char> {
    if leading_run(label).len() == 0 {
        label
    } else {
        label.take(run_start(label)) + digits + label.skip(run_end(label))
    }
}

/// The labels numbered `first` to `last`, both included and in ascending
/// order, each made from `label` by replacing its first number. Empty where
/// `first` is above `last`.
pub open spec fn range_labels(label: Seq<char>, first: nat, last: nat) -> Seq<Seq<char>> {
    Seq::new(
        if first <= last {
            (last - first + 1) as nat
        } else {
            0
        },
        |k: int| with_run_replaced(label, zenkaku_digits((first + k) as nat)),
    )
}

/// What `zenkaku_range_label` returns for the labels `start` and `end`.
pub open spec fn range_label_result(start: Seq<char>, end: Seq<char>) -> Result<
    Seq<Seq<char>>,
    NormalizeError,
> {
    match (zenkaku_usize(start), zenkaku_usize(end)) {
        (Some(first), Some(last)) => Ok(range_labels(start, first as nat, last as nat)),
        _ => Err(NormalizeError::MalformedRange),
    }
}

pub proof fn lemma_digit_from(s: Seq<char>, i: int)
    requires
        0 <= i <= s.len(),
    ensures
        i <= digit_from(s, i) <= s.len(),
        forall|j: int| i <= j < digit_from(s, i) ==> !is_zenkaku_digit(#[trigger] s[j]),
        digit_from(s, i) < s.len() ==> is_zenkaku_digit(s[digit_from(s, i)]),
    decreases s.len() - i,
{
    if i < s.len() && !is_zenkaku_digit(s[i]) {
        lemma_digit_from(s, i + 1);
    }
}

pub proof fn lemma_digits_end(s: Seq<char>, i: int)
    requires
        0 <= i <= s.len(),
    ensures
        i <= digits_end(s, i) <= s.len(),
        forall|j: int| i <= j < digits_end(s, i) ==> is_zenkaku_digit(#[trigger] s[j]),
        digits_end(s, i) < s.len() ==> !is_zenkaku_digit(s[digits_end(s, i)]),
    decreases s.len() - i,
{
    if i < s.len() && is_zenkaku_digit(s[i]) {
        lemma_digits_end(s, i + 1);
    }
}

/// The first run lies inside the string.
pub proof fn lemma_run_bounds(s: Seq<char>)
    ensures
        0 <= run_start(s) <= run_end(s) <= s.len(),
        leading_run(s).len() == run_end(s) - run_start(s),
        leading_run(s).len() > 0 <==> run_start(s) < s.len(),
{
    lemma_digit_from(s, 0);
    lemma_digits_end(s, run_start(s));
}

proof fn lemma_digit_from_is(s: Seq<char>, i: int, r: int)
    requires
        0 <= i <= r <= s.len(),
        forall|j: int| i <= j < r ==> !is_zenkaku_digit(#[trigger] s[j]),
        r < s.len() ==> is_zenkaku_digit(s[r]),
    ensures
        digit_from(s, i) == r,
    decreases r - i,
{
    if i < r {
        lemma_digit_from_is(s, i + 1, r);
    }
}

proof fn lemma_digits_end_is(s: Seq<char>, i: int, r: int)
    requires
        0 <= i <= r <= s.len(),
        forall|j: int| i <= j < r ==> is_zenkaku_digit(#[trigger] s[j]),
        r < s.len() ==> !is_zenkaku_digit(s[r]),
    ensures
        digits_end(s, i) == r,
    decreases r - i,
{
    if i < r {
        lemma_digits_end_is(s, i + 1, r);
    }
}

/// A number written in full-width digits is at least one digit long, holds
/// full-width digits only, and denotes the number it was written from.
pub proof fn lemma_written_number_reads_back(n: nat)
    ensures
        zenkaku_digits(n).len() >= 1,
        forall|i: int|
            0 <= i < zenkaku_digits(n).len() ==> is_zenkaku_digit(#[trigger] zenkaku_digits(n)[i]),
        digits_value(zenkaku_digits(n)) == n,
        leading_run(zenkaku_digits(n)) == zenkaku_digits(n),
        zenkaku_number(zenkaku_digits(n)) == Some(n),
    decreases n,
{
    let d = zenkaku_digits(n);
    assert(digit_value(zenkaku_digit(n % 10)) == n % 10);
    assert(is_zenkaku_digit(zenkaku_digit(n % 10)));
    if n < 10 {
        assert(d.drop_last() =~= Seq::<char>::empty());
        assert(d.last() == zenkaku_digit(n));
        assert(digits_value(d) == digits_value(d.drop_last()) * 10 + digit_value(d.last()));
    } else {
        lemma_written_number_reads_back(n / 10);
        assert(d.drop_last() =~= zenkaku_digits(n / 10));
        assert(d.last() == zenkaku_digit(n % 10));
        assert(digits_value(d) == digits_value(d.drop_last()) * 10 + digit_value(d.last()));
    }
    lemma_digit_from_is(d, 0, 0);
    lemma_digits_end_is(d, 0, d.len() as int);
    assert(d.subrange(0, d.len() as int) =~= d);
}

/// Replacing the first number of a label by the written form of `n` gives a
/// label whose first number is `n`.
pub proof fn lemma_replaced_number_reads_back(label: Seq<char>, n: nat)
    requires
        zenkaku_number(label) is Some,
    ensures
        leading_run(with_run_replaced(label, zenkaku_digits(n))) == zenkaku_digits(n),
        zenkaku_number(with_run_replaced(label, zenkaku_digits(n))) == Some(n),
{
    let a = run_start(label);
    let b = run_end(label);
    let d = zenkaku_digits(n);
    let out = with_run_replaced(label, d);
    lemma_run_bounds(label);
    lemma_digit_from(label, 0);
    lemma_digits_end(label, a);
    lemma_written_number_reads_back(n);
    assert(out.len() == a + d.len() + (label.len() - b));
    assert forall|j: int| 0 <= j < a implies !is_zenkaku_digit(#[trigger] out[j]) by {
        assert(out[j] == label[j]);
    }
    assert(out[a] == d[0]);
    lemma_digit_from_is(out, 0, a);
    assert forall|j: int| a <= j < a + d.len() implies is_zenkaku_digit(#[trigger] out[j]) by {
        assert(out[j] == d[j - a]);
    }
    if a + d.len() < out.len() {
        assert(out[a + d.len()] == label[b]);
    }
    lemma_digits_end_is(out, a, a + d.len());
    assert(out.subrange(a, a + d.len()) =~= d);
}

/// The labels of a range are numbered without gaps: there is one label for
/// each number from the first to the last, and the label at position `k` holds
/// the first number plus `k`. So the numbers ascend strictly, from the first to
/// the last.
pub proof fn lemma_range_labels_contiguous(label: Seq<char>, first: nat, last: nat, k: int)
    requires
        zenkaku_number(label) is Some,
        first <= last,
        0 <= k <= last - first,
    ensures
        range_labels(label, first, last).len() == last - first + 1,
        zenkaku_number(range_labels(label, first, last)[k]) == Some((first + k) as nat),
        zenkaku_number(range_labels(label, first, last)[0]) == Some(first),
        zenkaku_number(range_labels(label, first, last).last()) == Some(last),
{
    lemma_replaced_number_reads_back(label, (first + k) as nat);
    lemma_replaced_number_reads_back(label, first);
    lemma_replaced_number_reads_back(label, last);
}

/// A range whose first number is above its last holds no label.
pub proof fn lemma_range_labels_reversed(label: Seq<char>, first: nat, last: nat)
    requires
        first > last,
    ensures
        range_labels(label, first, last).len() == 0,
{
}

/// Whether `c` is a full-width digit.
pub fn is_zenkaku_numeric(c: &char) -> (b: bool)
    ensures
        b == is_zenkaku_digit(*c),
{
    *c >= '０' && *c <= '９'
}

fn find_run(x: &Vec<char>) -> (r: (usize, usize))
    ensures
        r.0 == run_start(x@),
        r.1 == run_end(x@),
        r.0 <= r.1 <= x.len(),
{
    let mut i: usize = 0;
    while i < x.len() && !is_zenkaku_numeric(&x[i])
        invariant
            i <= x.len(),
            digit_from(x@, i as int) == digit_from(x@, 0),
        decreases x.len() - i,
    {
        i += 1;
    }
    let mut j: usize = i;
    while j < x.len() && is_zenkaku_numeric(&x[j])
        invariant
            i <= j <= x.len(),
            digits_end(x@, j as int) == digits_end(x@, i as int),
        decreases x.len() - j,
    {
        j += 1;
    }
    (i, j)
}

/// The first run of full-width digits of `s`: what stands before the first
/// digit is dropped, and the run ends before the first other character.
pub fn extract_zenkaku_numeric(s: &str) -> (r: String)
    ensures
        r@ == leading_run(s@),
{
    let x = to_chars(s);
    let (i, j) = find_run(&x);
    let mut out: Vec<char> = Vec::new();
    let mut k: usize = i;
    while k < j
        invariant
            i <= k <= j <= x.len(),
            out@ == x@.subrange(i as int, k as int),
        decreases j - k,
    {
        out.push(x[k]);
        k += 1;
        assert(x@.subrange(i as int, k as int) =~= x@.subrange(i as int, k - 1).push(x@[k - 1]));
    }
    from_chars(&out)
}

fn digit_of(c: char) -> (v: usize)
    requires
        is_zenkaku_digit(c),
    ensures
        v == digit_value(c),
        v < 10,
{
    match c {
        '０' => 0,
        '１' => 1,
        '２' => 2,
        '３' => 3,
        '４' => 4,
        '５' => 5,
        '６' => 6,
        '７' => 7,
        '８' => 8,
        _ => 9,
    }
}

fn digit_char(v: usize) -> (c: char)
    requires
        v < 10,
    ensures
        c == zenkaku_digit(v as nat),
        is_zenkaku_digit(c),
        digit_value(c) == v,
{
    match v {
        0 => '０',
        1 => '１',
        2 => '２',
        3 => '３',
        4 => '４',
        5 => '５',
        6 => '６',
        7 => '７',
        8 => '８',
        _ => '９',
    }
}

/// A number only grows when digits are appended.
pub proof fn lemma_digits_value_grows(d: Seq<char>, k: int)
    requires
        0 <= k <= d.len(),
    ensures
        digits_value(d.take(k)) <= digits_value(d),
    decreases d.len(),
{
    if k < d.len() {
        assert(d.drop_last().take(k) =~= d.take(k));
        lemma_digits_value_grows(d.drop_last(), k);
    } else {
        assert(d.take(k) =~= d);
    }
}

/// The number that the first run of full-width digits of `s` denotes.
/// Fails where `s` holds no full-width digit, and where the number is beyond
/// `usize::MAX`.
pub fn from_zenkaku_numeric(s: &str) -> (r: Result<usize, NormalizeError>)
    ensures
        r == match zenkaku_usize(s@) {
            Some(n) => Ok::<usize, NormalizeError>(n),
            None => Err(NormalizeError::MalformedNumber),
        },
{
    let x = to_chars(s);
    let (i, j) = find_run(&x);
    if i == j {
        return Err(NormalizeError::MalformedNumber);
    }
    proof {
        lemma_digits_end(x@, i as int);
    }
    let ghost run = x@.subrange(i as int, j as int);
    let mut n: usize = 0;
    let mut k: usize = i;
    assert(run.take(0) =~= Seq::<char>::empty());
    while k < j
        invariant
            i <= k <= j <= x.len(),
            i < j,
            x@ == s@,
            i == run_start(x@),
            j == run_end(x@),
            run == x@.subrange(i as int, j as int),
            forall|m: int| i <= m < j ==> is_zenkaku_digit(#[trigger] x@[m]),
            n == digits_value(run.take(k - i)),
        decreases j - k,
    {
        let d = digit_of(x[k]);
        proof {
            assert(run.take(k - i + 1).drop_last() =~= run.take(k - i));
            assert(run.take(k - i + 1).last() == x@[k as int]);
            lemma_digits_value_grows(run, k - i + 1);
        }
        let tens = match n.checked_mul(10) {
            Some(t) => t,
            None => {
                return Err(NormalizeError::MalformedNumber);
            },
        };
        n = match tens.checked_add(d) {
            Some(t) => t,
            None => {
                return Err(NormalizeError::MalformedNumber);
            },
        };
        k += 1;
    }
    assert(run.take(j - i) =~= run);
    Ok(n)
}

fn push_digits(n: usize, out: &mut Vec<char>)
    ensures
        final(out)@ == old(out)@ + zenkaku_digits(n as nat),
    decreases n,
{
    if n >= 10 {
        push_digits(n / 10, out);
    }
    let ghost before = out@;
    out.push(digit_char(n % 10));
    proof {
        if n >= 10 {
            assert(out@ =~= old(out)@ + zenkaku_digits((n / 10) as nat).push(
                zenkaku_digit((n % 10) as nat),
            ));
        } else {
            assert(out@ =~= old(out)@ + seq![zenkaku_digit(n as nat)]);
        }
    }
}

/// `n` written in base ten with full-width digits.
pub fn to_zenkaku_numeric(n: usize) -> (r: String)
    ensures
        r@ == zenkaku_digits(n as nat),
{
    let mut out: Vec<char> = Vec::new();
    push_digits(n, &mut out);
    assert(Seq::<char>::empty() + zenkaku_digits(n as nat) =~= zenkaku_digits(n as nat));
    from_chars(&out)
}

fn replace_run(x: &Vec<char>, i: usize, j: usize, n: usize) -> (r: String)
    requires
        i == run_start(x@),
        j == run_end(x@),
        i < j <= x.len(),
    ensures
        r@ == with_run_replaced(x@, zenkaku_digits(n as nat)),
{
    let mut out: Vec<char> = Vec::new();
    let mut k: usize = 0;
    while k < i
        invariant
            k <= i <= x.len(),
            out@ == x@.take(k as int),
        decreases i - k,
    {
        out.push(x[k]);
        k += 1;
        assert(x@.take(k as int) =~= x@.take(k - 1).push(x@[k - 1]));
    }
    push_digits(n, &mut out);
    let ghost head = out@;
    let mut m: usize = j;
    assert(x@.subrange(j as int, j as int) =~= Seq::<char>::empty());
    assert(head + Seq::<char>::empty() =~= head);
    while m < x.len()
        invariant
            j <= m <= x.len(),
            out@ == head + x@.subrange(j as int, m as int),
        decreases x.len() - m,
    {
        out.push(x[m]);
        m += 1;
        assert(x@.subrange(j as int, m as int) =~= x@.subrange(j as int, m - 1).push(x@[m - 1]));
        assert(head + x@.subrange(j as int, m as int) =~= (head + x@.subrange(j as int, m - 1)).push(
            x@[m - 1],
        ));
    }
    assert(x@.subrange(j as int, x.len() as int) =~= x@.skip(j as int));
    from_chars(&out)
}

/// The labels from `start` to `end`: the numbers of both are read, and for each
/// number from the first to the second, in ascending order, the first number of
/// `start` is replaced by it. No label comes out where the first number is
/// above the second. Fails where either label holds no number that can be read.
pub fn zenkaku_range_label(start: &str, end: &str) -> (r: Result<Vec<String>, NormalizeError>)
    ensures
        match r {
            Ok(labels) => range_label_result(start@, end@) == Ok::<
                Seq<Seq<char>>,
                NormalizeError,
            >(labels.deep_view()),
            Err(e) => range_label_result(start@, end@) == Err::<Seq<Seq<char>>, NormalizeError>(e),
        },
{
    let first = match from_zenkaku_numeric(start) {
        Ok(n) => n,
        Err(_) => {
            return Err(NormalizeError::MalformedRange);
        },
    };
    let last = match from_zenkaku_numeric(end) {
        Ok(n) => n,
        Err(_) => {
            return Err(NormalizeError::MalformedRange);
        },
    };
    let x = to_chars(start);
    let (i, j) = find_run(&x);
    proof {
        lemma_run_bounds(x@);
    }
    let mut labels: Vec<String> = Vec::new();
    if first > last {
        assert(labels.deep_view() =~= range_labels(start@, first as nat, last as nat));
        return Ok(labels);
    }
    let mut k: usize = first;
    loop
        invariant_except_break
            first <= k <= last,
            labels.deep_view() == range_labels(start@, first as nat, last as nat).take(k - first),
        invariant
            x@ == start@,
            i == run_start(x@),
            j == run_end(x@),
            i < j <= x.len(),
        ensures
            labels.deep_view() == range_labels(start@, first as nat, last as nat),
        decreases last - k,
    {
        let ghost before = labels.deep_view();
        let label = replace_run(&x, i, j, k);
        labels.push(label);
        assert(labels.deep_view() =~= before.push(
            with_run_replaced(start@, zenkaku_digits(k as nat)),
        ));
        assert(labels.deep_view() =~= range_labels(start@, first as nat, last as nat).take(
            k - first + 1,
        ));
        if k == last {
            assert(range_labels(start@, first as nat, last as nat).take(last - first + 1)
                =~= range_labels(start@, first as nat, last as nat));
            break;
        }
        k += 1;
    }
    Ok(labels)
}

} // verus!
