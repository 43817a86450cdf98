//! A JSON text parser for the wire protocol.
//!
//! The grammar is stated by the `sp_` spec functions over character
//! sequences; each executable function returns exactly what its spec
//! function says. Numbers are read into thousandths of a unit, with at most
//! three fraction digits and at most sixteen integer digits; escapes beyond
//! the Basic Latin range (`Ā` and above) are not accepted.

use vstd::prelude::*;

use crate::json::{Json, JsonV, view_arr, view_obj, lemma_view_arr, lemma_view_obj};

verus! {

use vstd::string::StringExecFns;

/// JSON whitespace.
pub open spec fn is_ws(c: char) -> bool {
    c == ' ' || c == '\t' || c == '\n' || c == '\r'
}

/// A decimal digit.
pub open spec fn is_digit(c: char) -> bool {
    48 <= c as u32 <= 57
}

/// The value of a decimal digit.
pub open spec fn digit_val(c: char) -> int {
    c as u32 - 48
}

/// A hexadecimal digit.
pub open spec fn is_hex(c: char) -> bool {
    ||| 48 <= c as u32 <= 57
    ||| 97 <= c as u32 <= 102
    ||| 65 <= c as u32 <= 70
}

/// The value of a hexadecimal digit.
pub open spec fn hex_val(c: char) -> int {
    if 48 <= c as u32 <= 57 {
        c as u32 - 48
    } else if 97 <= c as u32 <= 102 {
        c as u32 - 87
    } else {
        c as u32 - 55
    }
}

/// The first position at or after `pos` that does not hold whitespace.
pub open spec fn sp_skip_ws(s: Seq<char>, pos: int) -> int
    decreases s.len() - pos,
{
    if 0 <= pos < s.len() && is_ws(s[pos]) {
        sp_skip_ws(s, pos + 1)
    } else {
        pos
    }
}

/// The first position at or after `pos` that does not hold a decimal digit.
pub open spec fn sp_digits_end(s: Seq<char>, pos: int) -> int
    decreases s.len() - pos,
{
    if 0 <= pos < s.len() && is_digit(s[pos]) {
        sp_digits_end(s, pos + 1)
    } else {
        pos
    }
}

/// The value of the digit run `s[pos..end]`.
pub open spec fn digits_value(s: Seq<char>, pos: int, end: int) -> int
    decreases end - pos,
{
    if pos >= end {
        0
    } else {
        digits_value(s, pos, end - 1) * 10 + digit_val(s[end - 1])
    }
}

/// Ten to the `k`.
pub open spec fn pow10(k: int) -> int
    decreases k,
{
    if k <= 0 {
        1
    } else {
        10 * pow10(k - 1)
    }
}

/// A number starting at `pos`: optional minus sign, at most sixteen integer
/// digits, and an optional fraction of one to three digits. The result is
/// the value in thousandths and the position after the number; numbers whose
/// magnitude in thousandths exceeds the machine range are refused.
pub open spec fn sp_number(s: Seq<char>, pos: int) -> Option<(int, int)> {
    let neg = 0 <= pos < s.len() && s[pos] == '-';
    let p1 = if neg {
        pos + 1
    } else {
        pos
    };
    let e1 = sp_digits_end(s, p1);
    if e1 == p1 || e1 - p1 > 16 {
        None
    } else {
        let whole = digits_value(s, p1, e1);
        if e1 < s.len() && s[e1] == '.' {
            let e2 = sp_digits_end(s, e1 + 1);
            let k = e2 - (e1 + 1);
            if k < 1 || k > 3 {
                None
            } else {
                let abs = whole * 1000 + digits_value(s, e1 + 1, e2) * pow10(3 - k);
                if abs > i64::MAX {
                    None
                } else {
                    Some((if neg { -abs } else { abs }, e2))
                }
            }
        } else {
            let abs = whole * 1000;
            if abs > i64::MAX {
                None
            } else {
                Some((if neg { -abs } else { abs }, e1))
            }
        }
    }
}

/// The body of a string literal starting just after the opening quote:
/// the decoded characters and the position after the closing quote.
/// Accepted escapes are the two-character ones and `\u00..`; unescaped
/// control characters and escapes above the Basic Latin range are refused.
pub open spec fn sp_string_body(s: Seq<char>, pos: int) -> Option<(Seq<char>, int)>
    decreases s.len() - pos,
{
    if pos < 0 || pos >= s.len() {
        None
    } else if s[pos] == '"' {
        Some((Seq::empty(), pos + 1))
    } else if s[pos] == '\\' {
        if pos + 1 >= s.len() {
            None
        } else {
            let e = s[pos + 1];
            if e == '"' || e == '\\' || e == '/' || e == 'n' || e == 'r' || e == 't' || e == 'b'
                || e == 'f' {
                let c = unescaped_char(e);
                match sp_string_body(s, pos + 2) {
                    None => None,
                    Some((t, end)) => Some((seq![c] + t, end)),
                }
            } else if e == 'u' {
                if pos + 6 > s.len() {
                    None
                } else if s[pos + 2] == '0' && s[pos + 3] == '0' && is_hex(s[pos + 4]) && is_hex(
                    s[pos + 5],
                ) {
                    let v = hex_val(s[pos + 4]) * 16 + hex_val(s[pos + 5]);
                    let c = ((v as u8) as char);
                    match sp_string_body(s, pos + 6) {
                        None => None,
                        Some((t, end)) => Some((seq![c] + t, end)),
                    }
                } else {
                    None
                }
            } else {
                None
            }
        }
    } else if (s[pos] as u32) < 32 {
        None
    } else {
        match sp_string_body(s, pos + 1) {
            None => None,
            Some((t, end)) => Some((seq![s[pos]] + t, end)),
        }
    }
}

/// The character denoted by a two-character escape.
pub open spec fn unescaped_char(e: char) -> char {
    if e == 'n' {
        '\n'
    } else if e == 'r' {
        '\r'
    } else if e == 't' {
        '\t'
    } else if e == 'b' {
        (8u8 as char)
    } else if e == 'f' {
        (12u8 as char)
    } else {
        e
    }
}

/// A JSON value starting at `pos`, whitespace allowed before it: the value
/// and the position just after it.
pub open spec fn sp_value(s: Seq<char>, pos: int) -> Option<(JsonV, int)>
    decreases s.len() - pos, 0int,
{
    let p = sp_skip_ws(s, pos);
    if p < pos || p >= s.len() {
        None
    } else if s[p] == 'n' {
        if p + 4 <= s.len() && s[p + 1] == 'u' && s[p + 2] == 'l' && s[p + 3] == 'l' {
            Some((JsonV::Null, p + 4))
        } else {
            None
        }
    } else if s[p] == 't' {
        if p + 4 <= s.len() && s[p + 1] == 'r' && s[p + 2] == 'u' && s[p + 3] == 'e' {
            Some((JsonV::Bool(true), p + 4))
        } else {
            None
        }
    } else if s[p] == 'f' {
        if p + 5 <= s.len() && s[p + 1] == 'a' && s[p + 2] == 'l' && s[p + 3] == 's' && s[p + 4]
            == 'e' {
            Some((JsonV::Bool(false), p + 5))
        } else {
            None
        }
    } else if s[p] == '"' {
        match sp_string_body(s, p + 1) {
            None => None,
            Some((t, end)) => Some((JsonV::Str(t), end)),
        }
    } else if s[p] == '[' {
        let q = sp_skip_ws(s, p + 1);
        if q >= p + 1 && q < s.len() && s[q] == ']' {
            Some((JsonV::Arr(Seq::empty()), q + 1))
        } else {
            match sp_elements(s, p + 1) {
                None => None,
                Some((items, end)) => Some((JsonV::Arr(items), end)),
            }
        }
    } else if s[p] == '{' {
        let q = sp_skip_ws(s, p + 1);
        if q >= p + 1 && q < s.len() && s[q] == '}' {
            Some((JsonV::Obj(Seq::empty()), q + 1))
        } else {
            match sp_members(s, p + 1) {
                None => None,
                Some((fields, end)) => Some((JsonV::Obj(fields), end)),
            }
        }
    } else if s[p] == '-' || is_digit(s[p]) {
        match sp_number(s, p) {
            None => None,
            Some((m, end)) => Some((JsonV::Num(m), end)),
        }
    } else {
        None
    }
}

/// One or more comma-separated array elements starting at `pos`, up to and
/// including the closing bracket.
pub open spec fn sp_elements(s: Seq<char>, pos: int) -> Option<(Seq<JsonV>, int)>
    decreases s.len() - pos, 1int,
{
    match sp_value(s, pos) {
        None => None,
        Some((v, e)) => {
            if e <= pos || e > s.len() {
                None
            } else {
                let q = sp_skip_ws(s, e);
                if q < e || q >= s.len() {
                    None
                } else if s[q] == ',' {
                    match sp_elements(s, q + 1) {
                        None => None,
                        Some((rest, end)) => Some((seq![v] + rest, end)),
                    }
                } else if s[q] == ']' {
                    Some((seq![v], q + 1))
                } else {
                    None
                }
            }
        },
    }
}

/// One or more comma-separated object members starting at `pos`, up to and
/// including the closing brace.
pub open spec fn sp_members(s: Seq<char>, pos: int) -> Option<(Seq<(Seq<char>, JsonV)>, int)>
    decreases s.len() - pos, 1int,
{
    let p = sp_skip_ws(s, pos);
    if p < pos || p >= s.len() || s[p] != '"' {
        None
    } else {
        match sp_string_body(s, p + 1) {
            None => None,
            Some((name, e1)) => {
                if e1 <= p + 1 || e1 > s.len() {
                    None
                } else {
                    let q = sp_skip_ws(s, e1);
                    if q < e1 || q >= s.len() || s[q] != ':' {
                        None
                    } else {
                        match sp_value(s, q + 1) {
                            None => None,
                            Some((v, e2)) => {
                                if e2 <= q + 1 || e2 > s.len() {
                                    None
                                } else {
                                    let r = sp_skip_ws(s, e2);
                                    if r < e2 || r >= s.len() {
                                        None
                                    } else if s[r] == ',' {
                                        match sp_members(s, r + 1) {
                                            None => None,
                                            Some((rest, end)) => Some(
                                                (seq![(name, v)] + rest, end),
                                            ),
                                        }
                                    } else if s[r] == '}' {
                                        Some((seq![(name, v)], r + 1))
                                    } else {
                                        None
                                    }
                                }
                            },
                        }
                    }
                }
            },
        }
    }
}

/// A whole JSON text: one value with nothing but whitespace after it.
pub open spec fn sp_parse_json(s: Seq<char>) -> Option<JsonV> {
    match sp_value(s, 0) {
        None => None,
        Some((j, e)) => {
            if 0 <= e <= s.len() && sp_skip_ws(s, e) == s.len() {
                Some(j)
            } else {
                None
            }
        },
    }
}

proof fn lemma_pow10_pos(k: int)
    ensures
        pow10(k) >= 1,
    decreases k,
{
    if k > 0 {
        lemma_pow10_pos(k - 1);
    }
}

proof fn lemma_pow10_mono(a: int, b: int)
    requires
        a <= b,
    ensures
        pow10(a) <= pow10(b),
    decreases b - a,
{
    if a < b {
        lemma_pow10_mono(a, b - 1);
        lemma_pow10_pos(b - 1);
    }
}

proof fn lemma_digits_end(s: Seq<char>, pos: int)
    requires
        0 <= pos <= s.len(),
    ensures
        pos <= sp_digits_end(s, pos) <= s.len(),
        forall|j: int| pos <= j < sp_digits_end(s, pos) ==> is_digit(#[trigger] s[j]),
    decreases s.len() - pos,
{
    if pos < s.len() && is_digit(s[pos]) {
        lemma_digits_end(s, pos + 1);
    }
}

fn is_ws_exec(c: char) -> (r: bool)
    ensures
        r == is_ws(c),
{
    c == ' ' || c == '\t' || c == '\n' || c == '\r'
}

fn is_digit_exec(c: char) -> (r: bool)
    ensures
        r == is_digit(c),
{
    (c as u32) >= 48 && (c as u32) <= 57
}

fn is_hex_exec(c: char) -> (r: bool)
    ensures
        r == is_hex(c),
{
    ((c as u32) >= 48 && (c as u32) <= 57) || ((c as u32) >= 97 && (c as u32) <= 102) || ((
    c as u32) >= 65 && (c as u32) <= 70)
}

fn hex_val_exec(c: char) -> (r: u32)
    requires
        is_hex(c),
    ensures
        r as int == hex_val(c),
        r <= 15,
{
    if (c as u32) >= 48 && (c as u32) <= 57 {
        (c as u32) - 48
    } else if (c as u32) >= 97 && (c as u32) <= 102 {
        (c as u32) - 87
    } else {
        (c as u32) - 55
    }
}

fn unescape_exec(e: char) -> (c: char)
    ensures
        c == unescaped_char(e),
{
    if e == 'n' {
        '\n'
    } else if e == 'r' {
        '\r'
    } else if e == 't' {
        '\t'
    } else if e == 'b' {
        (8u8 as char)
    } else if e == 'f' {
        (12u8 as char)
    } else {
        e
    }
}

fn skip_ws(s: &Vec<char>, pos: usize) -> (r: usize)
    requires
        pos <= s@.len(),
    ensures
        r as int == sp_skip_ws(s@, pos as int),
        pos <= r <= s@.len(),
{
    let mut i: usize = pos;
    while i < s.len() && is_ws_exec(s[i])
        invariant
            pos <= i <= s@.len(),
            sp_skip_ws(s@, pos as int) == sp_skip_ws(s@, i as int),
        decreases s@.len() - i,
    {
        i = i + 1;
    }
    i
}

fn digits_end(s: &Vec<char>, pos: usize) -> (r: usize)
    requires
        pos <= s@.len(),
    ensures
        r as int == sp_digits_end(s@, pos as int),
        pos <= r <= s@.len(),
{
    let mut i: usize = pos;
    while i < s.len() && is_digit_exec(s[i])
        invariant
            pos <= i <= s@.len(),
            sp_digits_end(s@, pos as int) == sp_digits_end(s@, i as int),
        decreases s@.len() - i,
    {
        i = i + 1;
    }
    i
}

fn parse_number(s: &Vec<char>, pos: usize) -> (r: Option<(i64, usize)>)
    requires
        pos <= s@.len(),
    ensures
        r is Some <==> sp_number(s@, pos as int) is Some,
        r matches Some((m, e)) ==> sp_number(s@, pos as int) == Some((m as int, e as int)) && e
            <= s@.len(),
{
    let neg = pos < s.len() && s[pos] == '-';
    let p1: usize = if neg {
        pos + 1
    } else {
        pos
    };
    let e1 = digits_end(s, p1);
    if e1 == p1 || e1 - p1 > 16 {
        return None;
    }
    proof {
        lemma_digits_end(s@, p1 as int);
        reveal_with_fuel(pow10, 18);
    }
    let mut whole: u64 = 0;
    let mut i: usize = p1;
    while i < e1
        invariant
            p1 <= i <= e1 <= s@.len(),
            e1 - p1 <= 16,
            whole as int == digits_value(s@, p1 as int, i as int),
            (whole as int) < pow10(i as int - p1 as int),
            forall|j: int| p1 <= j < e1 ==> is_digit(#[trigger] s@[j]),
            pow10(16) == 10000000000000000,
        decreases e1 - i,
    {
        proof {
            lemma_pow10_mono(i as int - p1 as int, 15);
            reveal_with_fuel(pow10, 18);
        }
        let d: u32 = (s[i] as u32) - 48;
        whole = whole * 10 + (d as u64);
        i = i + 1;
    }
    proof {
        lemma_pow10_mono(e1 as int - p1 as int, 16);
    }
    if e1 < s.len() && s[e1] == '.' {
        let f1: usize = e1 + 1;
        let e2 = digits_end(s, f1);
        let k = e2 - f1;
        if k < 1 || k > 3 {
            return None;
        }
        proof {
            lemma_digits_end(s@, f1 as int);
            reveal_with_fuel(pow10, 18);
        }
        let mut frac: u64 = 0;
        let mut j: usize = f1;
        while j < e2
            invariant
                f1 <= j <= e2 <= s@.len(),
                e2 - f1 <= 3,
                frac as int == digits_value(s@, f1 as int, j as int),
                (frac as int) < pow10(j as int - f1 as int),
                forall|t: int| f1 <= t < e2 ==> is_digit(#[trigger] s@[t]),
                pow10(3) == 1000,
            decreases e2 - j,
        {
            proof {
                lemma_pow10_mono(j as int - f1 as int, 2);
                reveal_with_fuel(pow10, 18);
            }
            let d: u32 = (s[j] as u32) - 48;
            frac = frac * 10 + (d as u64);
            j = j + 1;
        }
        let scale: u64 = if k == 1 {
            100
        } else if k == 2 {
            10
        } else {
            1
        };
        proof {
            reveal_with_fuel(pow10, 18);
            assert(scale as int == pow10(3 - k as int));
            lemma_pow10_mono(e2 as int - f1 as int, 3);
        }
        let abs: u64 = whole * 1000 + frac * scale;
        if abs > (i64::MAX as u64) {
            return None;
        }
        let m: i64 = abs as i64;
        let m: i64 = if neg {
            -m
        } else {
            m
        };
        Some((m, e2))
    } else {
        let abs: u64 = whole * 1000;
        if abs > (i64::MAX as u64) {
            return None;
        }
        let m: i64 = abs as i64;
        let m: i64 = if neg {
            -m
        } else {
            m
        };
        Some((m, e1))
    }
}

fn parse_string_body(s: &Vec<char>, pos: usize) -> (r: Option<(String, usize)>)
    requires
        pos <= s@.len(),
    ensures
        r is Some <==> sp_string_body(s@, pos as int) is Some,
        r matches Some((t, e)) ==> sp_string_body(s@, pos as int) == Some((t@, e as int)) && e
            <= s@.len(),
    decreases s@.len() - pos,
{
    if pos >= s.len() {
        return None;
    }
    let c = s[pos];
    if c == '"' {
        let out = String::new();
        proof {
            assert(out@ =~= Seq::<char>::empty());
        }
        return Some((out, pos + 1));
    }
    if c == '\\' {
        if pos + 1 >= s.len() {
            return None;
        }
        let e = s[pos + 1];
        if e == '"' || e == '\\' || e == '/' || e == 'n' || e == 'r' || e == 't' || e == 'b' || e
            == 'f' {
            let c2 = unescape_exec(e);
            match parse_string_body(s, pos + 2) {
                None => None,
                Some((t, end)) => {
                    let mut out = String::new();
                    out.push(c2);
                    out.append(t.as_str());
                    proof {
                        assert(out@ =~= seq![c2] + t@);
                    }
                    Some((out, end))
                },
            }
        } else if e == 'u' {
            if s.len() - pos < 6 {
                return None;
            }
            if s[pos + 2] == '0' && s[pos + 3] == '0' && is_hex_exec(s[pos + 4]) && is_hex_exec(
                s[pos + 5],
            ) {
                let v: u32 = hex_val_exec(s[pos + 4]) * 16 + hex_val_exec(s[pos + 5]);
                let c2: char = ((v as u8) as char);
                match parse_string_body(s, pos + 6) {
                    None => None,
                    Some((t, end)) => {
                        let mut out = String::new();
                        out.push(c2);
                        out.append(t.as_str());
                        proof {
                            assert(out@ =~= seq![c2] + t@);
                        }
                        Some((out, end))
                    },
                }
            } else {
                None
            }
        } else {
            None
        }
    } else if (c as u32) < 32 {
        None
    } else {
        match parse_string_body(s, pos + 1) {
            None => None,
            Some((t, end)) => {
                let mut out = String::new();
                out.push(c);
                out.append(t.as_str());
                proof {
                    assert(out@ =~= seq![c] + t@);
                }
                Some((out, end))
            },
        }
    }
}

fn parse_value(s: &Vec<char>, pos: usize) -> (r: Option<(Json, usize)>)
    requires
        pos <= s@.len(),
    ensures
        r is Some <==> sp_value(s@, pos as int) is Some,
        r matches Some((j, e)) ==> sp_value(s@, pos as int) == Some((j@, e as int)) && e
            <= s@.len(),
    decreases s@.len() - pos, 0int,
{
    let p = skip_ws(s, pos);
    if p >= s.len() {
        return None;
    }
    let c = s[p];
    if c == 'n' {
        if s.len() - p >= 4 && s[p + 1] == 'u' && s[p + 2] == 'l' && s[p + 3] == 'l' {
            Some((Json::Null, p + 4))
        } else {
            None
        }
    } else if c == 't' {
        if s.len() - p >= 4 && s[p + 1] == 'r' && s[p + 2] == 'u' && s[p + 3] == 'e' {
            Some((Json::Bool(true), p + 4))
        } else {
            None
        }
    } else if c == 'f' {
        if s.len() - p >= 5 && s[p + 1] == 'a' && s[p + 2] == 'l' && s[p + 3] == 's' && s[p + 4]
            == 'e' {
            Some((Json::Bool(false), p + 5))
        } else {
            None
        }
    } else if c == '"' {
        match parse_string_body(s, p + 1) {
            None => None,
            Some((t, end)) => Some((Json::Str(t), end)),
        }
    } else if c == '[' {
        let q = skip_ws(s, p + 1);
        if q < s.len() && s[q] == ']' {
            let items: Vec<Json> = Vec::new();
            proof {
                assert(view_arr(items@) =~= Seq::<JsonV>::empty());
            }
            Some((Json::Arr(items), q + 1))
        } else {
            match parse_elements(s, p + 1) {
                None => None,
                Some((items, end)) => Some((Json::Arr(items), end)),
            }
        }
    } else if c == '{' {
        let q = skip_ws(s, p + 1);
        if q < s.len() && s[q] == '}' {
            let fields: Vec<(String, Json)> = Vec::new();
            proof {
                assert(view_obj(fields@) =~= Seq::<(Seq<char>, JsonV)>::empty());
            }
            Some((Json::Obj(fields), q + 1))
        } else {
            match parse_members(s, p + 1) {
                None => None,
                Some((fields, end)) => Some((Json::Obj(fields), end)),
            }
        }
    } else if c == '-' || is_digit_exec(c) {
        match parse_number(s, p) {
            None => None,
            Some((m, end)) => Some((Json::Num(m), end)),
        }
    } else {
        None
    }
}

fn parse_elements(s: &Vec<char>, pos: usize) -> (r: Option<(Vec<Json>, usize)>)
    requires
        pos <= s@.len(),
    ensures
        r is Some <==> sp_elements(s@, pos as int) is Some,
        r matches Some((items, e)) ==> sp_elements(s@, pos as int) == Some(
            (view_arr(items@), e as int),
        ) && e <= s@.len(),
    decreases s@.len() - pos, 1int,
{
    match parse_value(s, pos) {
        None => None,
        Some((v, e)) => {
            if e <= pos {
                return None;
            }
            let q = skip_ws(s, e);
            if q >= s.len() {
                return None;
            }
            let c = s[q];
            if c == ',' {
                match parse_elements(s, q + 1) {
                    None => None,
                    Some((rest, end)) => {
                        let ghost grest = rest@;
                        let mut items = rest;
                        items.insert(0, v);
                        proof {
                            assert(items@.drop_first() =~= grest);
                            assert(view_arr(items@) =~= seq![v@] + view_arr(grest));
                        }
                        Some((items, end))
                    },
                }
            } else if c == ']' {
                let mut items: Vec<Json> = Vec::new();
                items.push(v);
                proof {
                    assert(items@ =~= seq![v]);
                    assert(items@.drop_first() =~= Seq::<Json>::empty());
                    assert(view_arr(Seq::<Json>::empty()) =~= Seq::<JsonV>::empty());
                    assert(view_arr(items@) =~= seq![items@[0]@] + view_arr(items@.drop_first()));
                    assert(view_arr(items@) =~= seq![v@]);
                }
                Some((items, q + 1))
            } else {
                None
            }
        },
    }
}

fn parse_members(s: &Vec<char>, pos: usize) -> (r: Option<(Vec<(String, Json)>, usize)>)
    requires
        pos <= s@.len(),
    ensures
        r is Some <==> sp_members(s@, pos as int) is Some,
        r matches Some((fields, e)) ==> sp_members(s@, pos as int) == Some(
            (view_obj(fields@), e as int),
        ) && e <= s@.len(),
    decreases s@.len() - pos, 1int,
{
    let p = skip_ws(s, pos);
    if p >= s.len() {
        return None;
    }
    if s[p] != '"' {
        return None;
    }
    match parse_string_body(s, p + 1) {
        None => None,
        Some((name, e1)) => {
            if e1 <= p + 1 {
                return None;
            }
            let q = skip_ws(s, e1);
            if q >= s.len() {
                return None;
            }
            if s[q] != ':' {
                return None;
            }
            match parse_value(s, q + 1) {
                None => None,
                Some((v, e2)) => {
                    if e2 <= q + 1 {
                        return None;
                    }
                    let r2 = skip_ws(s, e2);
                    if r2 >= s.len() {
                        return None;
                    }
                    let c = s[r2];
                    if c == ',' {
                        match parse_members(s, r2 + 1) {
                            None => None,
                            Some((rest, end)) => {
                                let ghost grest = rest@;
                                let mut fields = rest;
                                fields.insert(0, (name, v));
                                proof {
                                    assert(fields@.drop_first() =~= grest);
                                    assert(view_obj(fields@) =~= seq![(name@, v@)] + view_obj(
                                        grest,
                                    ));
                                }
                                Some((fields, end))
                            },
                        }
                    } else if c == '}' {
                        let mut fields: Vec<(String, Json)> = Vec::new();
                        fields.push((name, v));
                        proof {
                            assert(fields@ =~= seq![(name, v)]);
                            assert(fields@.drop_first() =~= Seq::<(String, Json)>::empty());
                            assert(view_obj(Seq::<(String, Json)>::empty()) =~= Seq::<
                                (Seq<char>, JsonV),
                            >::empty());
                            assert(view_obj(fields@) =~= seq![(fields@[0].0@, fields@[0].1@)]
                                + view_obj(fields@.drop_first()));
                            assert(view_obj(fields@) =~= seq![(name@, v@)]);
                        }
                        Some((fields, r2 + 1))
                    } else {
                        None
                    }
                },
            }
        },
    }
}

/// Parses a whole JSON text into a document; fails exactly when the text is
/// not one JSON value of this grammar followed only by whitespace.
pub fn parse_json(s: &str) -> (r: Option<Json>)
    ensures
        r is Some <==> sp_parse_json(s@) is Some,
        r matches Some(j) ==> sp_parse_json(s@) == Some(j@),
{
    let cs = crate::text::str_to_chars(s);
    match parse_value(&cs, 0) {
        None => None,
        Some((j, e)) => {
            let q = skip_ws(&cs, e);
            if q == cs.len() {
                Some(j)
            } else {
                None
            }
        },
    }
}

} // verus!
