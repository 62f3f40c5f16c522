//! Numbers written in base ten with ASCII digits, as page tokens carry them.

use crate::text::{from_chars, to_chars};
use vstd::prelude::*;

verus! {

/// `c` is one of the ASCII digits.
pub open spec fn is_ascii_digit(c: char) -> bool {
    '0' <= c && c <= '9'
}

/// The number that the ASCII digits `d` denote in base ten; zero for no digits.
pub open spec fn decimal_value(d: Seq<char>) -> nat
    decreases d.len(),
{
    if d.len() == 0 {
        0
    } else {
        decimal_value(d.drop_last()) * 10 + (d.last() as int - '0' as int) as nat
    }
}

/// `n` written in base ten with ASCII digits, without leading zeros.
pub open spec fn decimal_digits(n: nat) -> Seq<char>
    decreases n,
{
    if n < 10 {
        seq![('0' as int + n) as char]
    } else {
        decimal_digits(n / 10).push(('0' as int + n % 10) as char)
    }
}

/// The digits of a written number: `s` itself, or `s` without a leading plus
/// sign.
pub open spec fn unsigned_part(s: Seq<char>) -> Seq<char> {
    if s.len() > 0 && s[0] == '+' {
        s.skip(1)
    } else {
        s
    }
}

/// The number that `s` denotes: `s` is an optional plus sign and then one or
/// more ASCII digits, and the number is at most `usize::MAX`. `None` for any
/// other string.
pub open spec fn parsed_usize(s: Seq<char>) -> Option<usize> {
    let d = unsigned_part(s);
    if d.len() > 0 && (forall|i: int| 0 <= i < d.len() ==> is_ascii_digit(#[trigger] d[i]))
        && decimal_value(d) <= usize::MAX {
        Some(decimal_value(d) as usize)
    } else {
        None
    }
}

/// A written number holds ASCII digits only and denotes the number it was
/// written from.
pub proof fn lemma_decimal_reads_back(n: nat)
    ensures
        decimal_digits(n).len() >= 1,
        forall|i: int|
            0 <= i < decimal_digits(n).len() ==> is_ascii_digit(#[trigger] decimal_digits(n)[i]),
        decimal_value(decimal_digits(n)) == n,
        n <= usize::MAX ==> parsed_usize(decimal_digits(n)) == Some(n as usize),
    decreases n,
{
    let d = decimal_digits(n);
    if n < 10 {
        assert(d.drop_last() =~= Seq::<char>::empty());
        assert(d.last() == ('0' as int + n) as char);
        assert(decimal_value(d) == decimal_value(d.drop_last()) * 10 + (d.last() as int
            - '0' as int) as nat);
    } else {
        lemma_decimal_reads_back(n / 10);
        assert(d.drop_last() =~= decimal_digits(n / 10));
        assert(d.last() == ('0' as int + n % 10) as char);
        assert(decimal_value(d) == decimal_value(d.drop_last()) * 10 + (d.last() as int
            - '0' as int) as nat);
    }
    assert(d[0] != '+');
}

fn ascii_digit_of(c: char) -> (v: usize)
    requires
        is_ascii_digit(c),
    ensures
        v == c as int - '0' as int,
        v < 10,
{
    match c {
        '0' => 0,
        '1' => 1,
        '2' => 2,
        '3' => 3,
        '4' => 4,
        '5' => 5,
        '6' => 6,
        '7' => 7,
        '8' => 8,
        _ => 9,
    }
}

fn ascii_digit(v: usize) -> (c: char)
    requires
        v < 10,
    ensures
        c == ('0' as int + v) as char,
{
    match v {
        0 => '0',
        1 => '1',
        2 => '2',
        3 => '3',
        4 => '4',
        5 => '5',
        6 => '6',
        7 => '7',
        8 => '8',
        _ => '9',
    }
}

/// The number that `s` denotes, where `s` is an optional plus sign followed by
/// ASCII digits and the number fits.
pub fn parse_usize(s: &str) -> (r: Option<usize>)
    ensures
        r == parsed_usize(s@),
{
    let x = to_chars(s);
    let start: usize = if x.len() > 0 && x[0] == '+' {
        1
    } else {
        0
    };
    let ghost d = unsigned_part(x@);
    assert(d =~= x@.skip(start as int));
    if start == x.len() {
        return None;
    }
    let mut n: usize = 0;
    let mut k: usize = start;
    let mut fits: bool = true;
    assert(d.take(0) =~= Seq::<char>::empty());
    while k < x.len()
        invariant
            start <= k <= x.len(),
            start < x.len(),
            x@ == s@,
            d == unsigned_part(s@),
            d == x@.skip(start as int),
            forall|i: int| 0 <= i < k - start ==> is_ascii_digit(#[trigger] d[i]),
            fits ==> n == decimal_value(d.take(k - start)),
            !fits ==> decimal_value(d.take(k - start)) > usize::MAX,
        decreases x.len() - k,
    {
        let c = x[k];
        if !(c >= '0' && c <= '9') {
            assert(!is_ascii_digit(d[k - start]));
            return None;
        }
        let v = ascii_digit_of(c);
        proof {
            assert(d.take(k - start + 1).drop_last() =~= d.take(k - start));
            assert(d.take(k - start + 1).last() == c);
        }
        if fits {
            match n.checked_mul(10) {
                Some(tens) => match tens.checked_add(v) {
                    Some(sum) => {
                        n = sum;
                    },
                    None => {
                        fits = false;
                    },
                },
                None => {
                    fits = false;
                },
            }
        }
        k += 1;
    }
    assert(d.take(d.len() as int) =~= d);
    if fits {
        Some(n)
    } else {
        None
    }
}

fn push_decimal(n: usize, out: &mut Vec<char>)
    ensures
        final(out)@ == old(out)@ + decimal_digits(n as nat),
    decreases n,
{
    if n >= 10 {
        push_decimal(n / 10, out);
    }
    out.push(ascii_digit(n % 10));
    proof {
        if n >= 10 {
            assert(out@ =~= old(out)@ + decimal_digits((n / 10) as nat).push(
                ('0' as int + (n % 10) as nat) as char,
            ));
        } else {
            assert(out@ =~= old(out)@ + seq![('0' as int + n as nat) as char]);
        }
    }
}

/// `n` written in base ten with ASCII digits.
pub fn write_usize(n: usize) -> (r: String)
    ensures
        r@ == decimal_digits(n as nat),
{
    let mut out: Vec<char> = Vec::new();
    push_decimal(n, &mut out);
    assert(Seq::<char>::empty() + decimal_digits(n as nat) =~= decimal_digits(n as nat));
    from_chars(&out)
}

} // verus!
