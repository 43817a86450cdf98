//! Decimal rendering and small string-building helpers shared by the wire
//! encoder and by error-message construction.

use vstd::prelude::*;

verus! {

use vstd::std_specs::iter::IteratorSpec;

/// Relies on std's `String::push`: appends the given character to the string.
pub assume_specification[ String::push ](s: &mut String, ch: char)
    ensures
        final(s)@ == old(s)@.push(ch),
;

/// The decimal digit character for a value in 0..=9.
pub open spec fn digit_char(d: int) -> char {
    if d == 0 {
        '0'
    } else if d == 1 {
        '1'
    } else if d == 2 {
        '2'
    } else if d == 3 {
        '3'
    } else if d == 4 {
        '4'
    } else if d == 5 {
        '5'
    } else if d == 6 {
        '6'
    } else if d == 7 {
        '7'
    } else if d == 8 {
        '8'
    } else {
        '9'
    }
}

/// Decimal digits of a non-negative value, with no digits at all for zero.
pub open spec fn dec_chars0(n: int) -> Seq<char>
    decreases n,
{
    if n <= 0 {
        Seq::empty()
    } else {
        dec_chars0(n / 10).push(digit_char(n % 10))
    }
}

/// Decimal rendering of a non-negative value, `"0"` for zero.
pub open spec fn dec_chars(n: int) -> Seq<char> {
    if n == 0 {
        seq!['0']
    } else {
        dec_chars0(n)
    }
}

fn digit_char_exec(d: u64) -> (c: char)
    requires
        d < 10,
    ensures
        c == digit_char(d as int),
{
    if d == 0 {
        '0'
    } else if d == 1 {
        '1'
    } else if d == 2 {
        '2'
    } else if d == 3 {
        '3'
    } else if d == 4 {
        '4'
    } else if d == 5 {
        '5'
    } else if d == 6 {
        '6'
    } else if d == 7 {
        '7'
    } else if d == 8 {
        '8'
    } else {
        '9'
    }
}

/// Appends the decimal rendering of `n` to `out`.
pub fn push_dec_u64(out: &mut String, n: u64)
    ensures
        final(out)@ == old(out)@ + dec_chars(n as int),
{
    if n == 0 {
        out.push('0');
        assert(old(out)@.push('0') =~= old(out)@ + dec_chars(0));
        return ;
    }
    let mut digits: Vec<char> = Vec::new();
    let mut m: u64 = n;
    while m > 0
        invariant
            dec_chars0(n as int) =~= dec_chars0(m as int) + digits@.reverse(),
        decreases m,
    {
        let d: u64 = m % 10;
        digits.push(digit_char_exec(d));
        proof {
            assert(dec_chars0(m as int) == dec_chars0(m as int / 10).push(digit_char(
                m as int % 10,
            )));
            broadcast use vstd::seq_lib::group_seq_properties;

            assert(digits@.reverse() =~= seq![digit_char(m as int % 10)]
                + digits@.drop_last().reverse());
        }
        m = m / 10;
    }
    assert(dec_chars0(n as int) =~= digits@.reverse());
    let ghost pre = out@;
    let mut i: usize = digits.len();
    while i > 0
        invariant
            i <= digits@.len(),
            out@ =~= pre + digits@.subrange(i as int, digits@.len() as int).reverse(),
        decreases i,
    {
        i = i - 1;
        out.push(digits[i]);
        proof {
            let s = digits@.subrange(i as int, digits@.len() as int);
            assert(s.drop_first() =~= digits@.subrange(i as int + 1, digits@.len() as int));
            assert(s.reverse() =~= s.drop_first().reverse().push(s[0]));
        }
    }
    assert(digits@.subrange(0, digits@.len() as int) =~= digits@);
    assert(dec_chars(n as int) == dec_chars0(n as int));
}

/// Fixed-point rendering of a value counted in thousandths: `1500` becomes
/// `"1.5"`, `3000` becomes `"3"`, `-25` becomes `"-0.025"`.
pub open spec fn milli_chars(v: int) -> Seq<char> {
    if v < 0 {
        seq!['-'] + milli_chars_nonneg(-v)
    } else {
        milli_chars_nonneg(v)
    }
}

/// Fixed-point rendering of a non-negative value counted in thousandths,
/// with trailing fraction zeros trimmed and no fraction point when whole.
pub open spec fn milli_chars_nonneg(v: int) -> Seq<char> {
    let whole = v / 1000;
    let frac = v % 1000;
    if frac == 0 {
        dec_chars(whole)
    } else if frac % 100 == 0 {
        dec_chars(whole) + seq!['.', digit_char(frac / 100)]
    } else if frac % 10 == 0 {
        dec_chars(whole) + seq!['.', digit_char(frac / 100), digit_char((frac / 10) % 10)]
    } else {
        dec_chars(whole) + seq![
            '.',
            digit_char(frac / 100),
            digit_char((frac / 10) % 10),
            digit_char(frac % 10),
        ]
    }
}

/// Appends the fixed-point rendering of `v` thousandths to `out`.
pub fn push_milli(out: &mut String, v: i64)
    ensures
        final(out)@ == old(out)@ + milli_chars(v as int),
{
    let abs: u64 = if v >= 0 {
        v as u64
    } else {
        out.push('-');
        ((-(v + 1)) as u64) + 1
    };
    assert(abs as int == if v >= 0 { v as int } else { -(v as int) });
    let whole: u64 = abs / 1000;
    let frac: u64 = abs % 1000;
    push_dec_u64(out, whole);
    if frac != 0 {
        out.push('.');
        out.push(digit_char_exec(frac / 100));
        if frac % 100 != 0 {
            out.push(digit_char_exec((frac / 10) % 10));
            if frac % 10 != 0 {
                out.push(digit_char_exec(frac % 10));
            }
        }
    }
    assert(final(out)@ =~= old(out)@ + milli_chars(v as int));
}

/// Collects the characters of a string slice into a vector.
pub fn str_to_chars(s: &str) -> (r: Vec<char>)
    ensures
        r@ == s@,
{
    broadcast use vstd::string::axiom_spec_iter, vstd::string::next_postcondition;

    let mut it = s.chars();
    let mut r: Vec<char> = Vec::new();
    loop
        invariant_except_break
            it.obeys_prophetic_iter_laws(),
            IteratorSpec::decrease(&it) is Some,
            r@ + IteratorSpec::remaining(&it) == s@,
        ensures
            r@ == s@,
        decreases IteratorSpec::decrease(&it)->0,
    {
        match it.next() {
            Some(c) => {
                r.push(c);
            },
            None => {
                assert(r@ =~= s@);
                break ;
            },
        }
    }
    r
}

} // verus!
