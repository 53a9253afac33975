//! Text building blocks: appending characters and writing integers in decimal.

use vstd::prelude::*;

verus! {

/// `String::push` of the standard library: the character is appended at the
/// end and nothing else changes.
pub assume_specification[ String::push ](s: &mut String, c: char)
    ensures
        final(s)@ == old(s)@.push(c),
;

/// The character that writes the digit `d`.
pub open spec fn digit_char(d: int) -> char
    recommends
        0 <= d < 10,
{
    (('0' as int) + d) as char
}

/// The decimal digits of `n`, most significant first, without leading zeros.
pub open spec fn decimal_digits(n: nat) -> Seq<char>
    decreases n,
{
    if n < 10 {
        seq![digit_char(n as int)]
    } else {
        decimal_digits(n / 10).push(digit_char((n % 10) as int))
    }
}

/// The decimal text of `n`: a minus sign for negative numbers, then the digits.
pub open spec fn decimal_text(n: int) -> Seq<char> {
    if n < 0 {
        seq!['-'] + decimal_digits((-n) as nat)
    } else {
        decimal_digits(n as nat)
    }
}

fn digit_of(d: u128) -> (c: char)
    requires
        d < 10,
    ensures
        c == digit_char(d as int),
{
    ((d as u8) + 48) as char
}

/// Appends the decimal digits of `n` to `out`.
pub fn push_unsigned(out: &mut String, n: u128)
    ensures
        final(out)@ == old(out)@ + decimal_digits(n as nat),
{
    let mut reversed: Vec<char> = Vec::new();
    let mut rest: u128 = n / 10;
    reversed.push(digit_of(n % 10));
    while rest > 0
        invariant
            reversed@.len() >= 1,
            decimal_digits(n as nat) == (if rest > 0 {
                decimal_digits(rest as nat)
            } else {
                Seq::<char>::empty()
            }) + reversed@.reverse(),
        decreases rest,
    {
        let ghost before = reversed@;
        let ghost prev = rest;
        reversed.push(digit_of(rest % 10));
        rest = rest / 10;
        proof {
            let d = digit_char((prev % 10) as int);
            assert(reversed@.reverse() =~= seq![d] + before.reverse());
            if prev < 10 {
                assert(decimal_digits(prev as nat) =~= seq![d]);
            } else {
                assert(decimal_digits(prev as nat) =~= decimal_digits(rest as nat) + seq![d]);
            }
        }
    }
    let ghost start = out@;
    let mut k: usize = reversed.len();
    while k > 0
        invariant
            k <= reversed@.len(),
            out@ == start + reversed@.reverse().subrange(0, reversed@.len() - k),
        decreases k,
    {
        k = k - 1;
        let ghost so_far = out@;
        out.push(reversed[k]);
        proof {
            let r = reversed@.reverse();
            let j = reversed@.len() - k - 1;
            assert(r[j] == reversed@[k as int]);
            assert(r.subrange(0, j + 1) =~= r.subrange(0, j).push(r[j]));
        }
    }
    proof {
        let r = reversed@.reverse();
        assert(r.subrange(0, r.len() as int) =~= r);
    }
}

/// Appends the decimal text of `n` to `out`.
pub fn push_decimal(out: &mut String, n: i64)
    ensures
        final(out)@ == old(out)@ + decimal_text(n as int),
{
    if n < 0 {
        let magnitude: u128 = (-(n as i128)) as u128;
        let ghost start = out@;
        out.push('-');
        push_unsigned(out, magnitude);
        assert(out@ =~= start + (seq!['-'] + decimal_digits(magnitude as nat)));
    } else {
        push_unsigned(out, n as u128);
    }
}

/// The decimal text of `n` as a string of its own.
pub fn decimal_string(n: i64) -> (s: String)
    ensures
        s@ == decimal_text(n as int),
{
    let mut s = String::new();
    push_decimal(&mut s, n);
    assert(s@ =~= decimal_text(n as int));
    s
}

} // verus!
