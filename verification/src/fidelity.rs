//! Round-trip fidelity of the wire text: parsing the canonical text of a
//! well-formed document yields exactly that document.

use vstd::prelude::*;

use crate::json::{JsonV, json_chars, arr_chars, obj_chars, member_chars, string_chars,
    escape_chars, escape_char, hex_digit_char};
use crate::parse::{sp_parse_json, sp_value, sp_elements, sp_members, sp_string_body, sp_number,
    sp_skip_ws, sp_digits_end, digits_value, pow10, is_ws, is_digit, digit_val, is_hex, hex_val,
    unescaped_char};
use crate::models::request::{ChatCompletionRequest, temperature_in_range};
use crate::text::{dec_chars, dec_chars0, digit_char, milli_chars, milli_chars_nonneg};
use crate::wire::{
    ChatCompletionRequestV, MessageV, lemma_request_json_round_trip, spec_message_json,
    spec_request_fields, spec_request_from_json, spec_request_json, with_member,
};
use crate::models::request::{spec_model_name, spec_role_name};

verus! {

/// Whether every character of a run is a decimal digit.
spec fn all_digits(d: Seq<char>) -> bool {
    forall|i: int| 0 <= i < d.len() ==> is_digit(#[trigger] d[i])
}

/// The value of a digit run read left to right.
spec fn seq_digits_val(d: Seq<char>) -> int
    decreases d.len(),
{
    if d.len() == 0 {
        0
    } else {
        seq_digits_val(d.drop_last()) * 10 + digit_val(d.last())
    }
}

proof fn lemma_digit_char_val(k: int)
    requires
        0 <= k < 10,
    ensures
        is_digit(digit_char(k)),
        digit_val(digit_char(k)) == k,
        digit_char(k) != '-',
        digit_char(k) != '.',
        !is_ws(digit_char(k)),
{
}

proof fn lemma_dec_chars0_props(n: int)
    requires
        n >= 1,
    ensures
        dec_chars0(n).len() >= 1,
        all_digits(dec_chars0(n)),
        seq_digits_val(dec_chars0(n)) == n,
    decreases n,
{
    if n < 10 {
        assert(dec_chars0(n / 10) =~= Seq::<char>::empty());
        assert(dec_chars0(n) =~= seq![digit_char(n)]);
        lemma_digit_char_val(n);
        assert(seq![digit_char(n)].drop_last() =~= Seq::<char>::empty());
        assert(seq_digits_val(Seq::<char>::empty()) == 0);
    } else {
        lemma_dec_chars0_props(n / 10);
        lemma_digit_char_val(n % 10);
        let d = dec_chars0(n / 10).push(digit_char(n % 10));
        assert(d.drop_last() =~= dec_chars0(n / 10));
        assert(d.last() == digit_char(n % 10));
        assert forall|i: int| 0 <= i < d.len() implies is_digit(#[trigger] d[i]) by {
            if i < d.len() - 1 {
                assert(d[i] == dec_chars0(n / 10)[i]);
            }
        }
    }
}

/// The decimal rendering of a non-negative value is a non-empty digit run
/// that reads back to the value.
proof fn lemma_dec_chars_props(n: int)
    requires
        n >= 0,
    ensures
        dec_chars(n).len() >= 1,
        all_digits(dec_chars(n)),
        seq_digits_val(dec_chars(n)) == n,
    decreases n,
{
    if n == 0 {
        lemma_digit_char_val(0);
        assert(seq!['0'].drop_last() =~= Seq::<char>::empty());
        assert(seq_digits_val(Seq::<char>::empty()) == 0);
    } else {
        lemma_dec_chars0_props(n);
    }
}

proof fn lemma_dec_chars0_len(n: int, k: int)
    requires
        0 <= n,
        0 <= k,
        n < pow10(k),
    ensures
        dec_chars0(n).len() <= k,
    decreases n,
{
    if n >= 1 {
        assert(pow10(k) == 10 * pow10(k - 1));
        assert(n / 10 < pow10(k - 1)) by (nonlinear_arith)
            requires
                n < 10 * pow10(k - 1),
                n >= 1,
        ;
        lemma_dec_chars0_len(n / 10, k - 1);
    }
}

proof fn lemma_digits_end_run(s: Seq<char>, pos: int, end: int)
    requires
        0 <= pos <= end <= s.len(),
        forall|j: int| pos <= j < end ==> is_digit(#[trigger] s[j]),
        end == s.len() || !is_digit(s[end]),
    ensures
        sp_digits_end(s, pos) == end,
    decreases end - pos,
{
    if pos < end {
        lemma_digits_end_run(s, pos + 1, end);
    }
}

proof fn lemma_digits_value_run(s: Seq<char>, pos: int, end: int)
    requires
        0 <= pos <= end <= s.len(),
    ensures
        digits_value(s, pos, end) == seq_digits_val(s.subrange(pos, end)),
    decreases end - pos,
{
    if pos < end {
        lemma_digits_value_run(s, pos, end - 1);
        assert(s.subrange(pos, end).drop_last() =~= s.subrange(pos, end - 1));
        assert(s.subrange(pos, end).last() == s[end - 1]);
    } else {
        assert(s.subrange(pos, end) =~= Seq::<char>::empty());
    }
}


/// The canonical rendering of a bounded number parses back to the number,
/// whenever the character after it neither extends the digit run nor opens a
/// fraction.
#[verifier::rlimit(50)]
proof fn lemma_number_print(s: Seq<char>, pos: int, m: int)
    requires
        -(i64::MAX as int) <= m <= i64::MAX as int,
        0 <= pos,
        pos + milli_chars(m).len() <= s.len(),
        s.subrange(pos, pos + milli_chars(m).len()) == milli_chars(m),
        pos + milli_chars(m).len() == s.len() || (!is_digit(s[pos + milli_chars(m).len()])
            && s[pos + milli_chars(m).len()] != '.'),
    ensures
        sp_number(s, pos) == Some((m, pos + milli_chars(m).len())),
{
    let text = milli_chars(m);
    let l = text.len();
    let abs = if m < 0 { -m } else { m };
    let whole = abs / 1000;
    let frac = abs % 1000;
    vstd::arithmetic::div_mod::lemma_fundamental_div_mod(abs, 1000);
    let dc = dec_chars(whole);
    lemma_dec_chars_props(whole);
    reveal_with_fuel(pow10, 18);
    if whole >= 1 {
        lemma_dec_chars0_len(whole, 16);
    }
    assert(dc.len() <= 16);
    assert forall|t: int| 0 <= t < l implies s[pos + t] == text[t] by {
        assert(s.subrange(pos, pos + l)[t] == s[pos + t]);
    }
    let sign: Seq<char> = if m < 0 { seq!['-'] } else { Seq::empty() };
    let ft: Seq<char> = if frac == 0 {
        Seq::empty()
    } else if frac % 100 == 0 {
        seq!['.', digit_char(frac / 100)]
    } else if frac % 10 == 0 {
        seq!['.', digit_char(frac / 100), digit_char((frac / 10) % 10)]
    } else {
        seq!['.', digit_char(frac / 100), digit_char((frac / 10) % 10), digit_char(frac % 10)]
    };
    assert(milli_chars_nonneg(abs) =~= dc + ft);
    assert(text =~= sign + dc + ft);
    let p1 = pos + sign.len();
    let e1 = p1 + dc.len();
    // The run of integer digits.
    assert forall|j: int| p1 <= j < e1 implies is_digit(#[trigger] s[j]) by {
        assert(s[j] == text[j - pos]);
        assert(text[j - pos] == dc[j - p1]);
    }
    lemma_digit_char_val(frac / 100);
    lemma_digit_char_val((frac / 10) % 10);
    lemma_digit_char_val(frac % 10);
    if frac != 0 {
        assert(s[e1] == text[e1 - pos]);
        assert(text[e1 - pos] == ft[0]);
        assert(ft[0] == '.');
        assert(!is_digit('.'));
    }
    assert(e1 == s.len() || !is_digit(s[e1]));
    lemma_digits_end_run(s, p1, e1);
    assert forall|j: int| 0 <= j < dc.len() implies s.subrange(p1, e1)[j] == dc[j] by {
        assert(s.subrange(p1, e1)[j] == s[p1 + j]);
        assert(s[pos + (p1 - pos + j)] == text[p1 - pos + j]);
        assert(text[p1 - pos + j] == dc[j]);
    }
    assert(s.subrange(p1, e1) =~= dc);
    lemma_digits_value_run(s, p1, e1);
    assert(digits_value(s, p1, e1) == whole);
    // Sign detection.
    if m < 0 {
        assert(s[pos] == text[0]);
        assert(s[pos] == '-');
    } else {
        assert(s[pos] == text[0]);
        assert(text[0] == dc[0]);
        assert(is_digit(s[pos]));
        assert(s[pos] != '-');
    }
    if frac == 0 {
        assert(e1 == pos + l);
        assert(!(e1 < s.len() && s[e1] == '.'));
        assert(whole * 1000 == abs);
        assert(sp_number(s, pos) == Some((m, pos + l)));
    } else {
        let f1 = e1 + 1;
        let e2 = pos + l;
        let k = e2 - f1;
        assert(1 <= k <= 3);
        // The fraction digits.
        assert forall|j: int| f1 <= j < e2 implies is_digit(#[trigger] s[j]) by {
            assert(s[j] == text[j - pos]);
            assert(text[j - pos] == ft[j - e1]);
        }
        lemma_digits_end_run(s, f1, e2);
        lemma_digits_value_run(s, f1, e2);
        let fd = s.subrange(f1, e2);
        assert forall|j: int| 0 <= j < k implies fd[j] == ft[j + 1] by {
            assert(fd[j] == s[f1 + j]);
            assert(s[f1 + j] == text[f1 + j - pos]);
        }
        reveal_with_fuel(seq_digits_val, 5);
        assert(seq_digits_val(Seq::<char>::empty()) == 0);
        assert(frac == (frac / 100) * 100 + ((frac / 10) % 10) * 10 + frac % 10) by (nonlinear_arith)
            requires
                0 <= frac < 1000,
        ;
        if frac % 100 == 0 {
            assert(fd =~= seq![digit_char(frac / 100)]);
            assert(seq![digit_char(frac / 100)].drop_last() =~= Seq::<char>::empty());
            assert(seq_digits_val(fd) == frac / 100);
            assert((frac / 100) * 100 == frac) by (nonlinear_arith)
                requires
                    0 <= frac < 1000,
                    frac % 100 == 0,
            ;
            assert(digits_value(s, f1, e2) * pow10(3 - k) == frac);
        } else if frac % 10 == 0 {
            assert(fd =~= seq![digit_char(frac / 100), digit_char((frac / 10) % 10)]);
            assert(seq![digit_char(frac / 100), digit_char((frac / 10) % 10)].drop_last()
                =~= seq![digit_char(frac / 100)]);
            assert(seq![digit_char(frac / 100)].drop_last() =~= Seq::<char>::empty());
            assert(seq_digits_val(fd) == (frac / 100) * 10 + (frac / 10) % 10);
            assert(((frac / 100) * 10 + (frac / 10) % 10) * 10 == frac) by (nonlinear_arith)
                requires
                    0 <= frac < 1000,
                    frac % 10 == 0,
            ;
            assert(digits_value(s, f1, e2) * pow10(3 - k) == frac);
        } else {
            assert(fd =~= seq![
                digit_char(frac / 100),
                digit_char((frac / 10) % 10),
                digit_char(frac % 10),
            ]);
            assert(seq![
                digit_char(frac / 100),
                digit_char((frac / 10) % 10),
                digit_char(frac % 10),
            ].drop_last() =~= seq![digit_char(frac / 100), digit_char((frac / 10) % 10)]);
            assert(seq![digit_char(frac / 100), digit_char((frac / 10) % 10)].drop_last()
                =~= seq![digit_char(frac / 100)]);
            assert(seq![digit_char(frac / 100)].drop_last() =~= Seq::<char>::empty());
            assert(seq_digits_val(fd) == ((frac / 100) * 10 + (frac / 10) % 10) * 10 + frac % 10);
            assert(digits_value(s, f1, e2) * pow10(3 - k) == frac);
        }
        assert(whole * 1000 + digits_value(s, f1, e2) * pow10(3 - k) == abs);
        assert(e1 < s.len() && s[e1] == '.');
        assert(sp_number(s, pos) == Some((m, pos + l)));
    }
}


proof fn lemma_hex_char_val(k: int)
    requires
        0 <= k < 16,
    ensures
        is_hex(hex_digit_char(k)),
        hex_val(hex_digit_char(k)) == k,
{
}

/// The escaped body of a string followed by a closing quote parses back to
/// the string.
proof fn lemma_string_body_print(s: Seq<char>, pos: int, t: Seq<char>)
    requires
        0 <= pos,
        pos + escape_chars(t).len() + 1 <= s.len(),
        s.subrange(pos, pos + escape_chars(t).len() + 1) == escape_chars(t) + seq!['"'],
    ensures
        sp_string_body(s, pos) == Some((t, pos + escape_chars(t).len() + 1)),
    decreases t.len(),
{
    let esc = escape_chars(t);
    let full = esc + seq!['"'];
    assert forall|i: int| 0 <= i < full.len() implies s[pos + i] == full[i] by {
        assert(s.subrange(pos, pos + esc.len() + 1)[i] == s[pos + i]);
    }
    if t.len() == 0 {
        assert(esc =~= Seq::<char>::empty());
        assert(s[pos + 0] == full[0]);
        assert(s[pos] == '"');
        assert(t =~= Seq::<char>::empty());
    } else {
        let c = t[0];
        let e0 = escape_char(c);
        let rest = t.drop_first();
        assert(esc =~= e0 + escape_chars(rest));
        let pos2 = pos + e0.len();
        // The remainder of the text is the escaped rest plus the quote.
        assert forall|i: int| 0 <= i < escape_chars(rest).len() + 1 implies s.subrange(
            pos2,
            pos2 + escape_chars(rest).len() + 1,
        )[i] == (escape_chars(rest) + seq!['"'])[i] by {
            assert(s.subrange(pos2, pos2 + escape_chars(rest).len() + 1)[i] == s[pos2 + i]);
            assert(s[pos + (e0.len() + i)] == full[e0.len() + i]);
        }
        assert(s.subrange(pos2, pos2 + escape_chars(rest).len() + 1) =~= escape_chars(rest)
            + seq!['"']);
        lemma_string_body_print(s, pos2, rest);
        assert(seq![c] + rest =~= t);
        if c == '"' || c == '\\' || c == '\n' || c == '\r' || c == '\t' {
            assert(s[pos + 0] == full[0] && full[0] == e0[0]);
            assert(s[pos + 1] == full[1] && full[1] == e0[1]);
            assert(s[pos] == e0[0]);
            assert(sp_string_body(s, pos) == Some((t, pos + esc.len() + 1)));
        } else if (c as u32) < 32 {
            let c32 = c as u32;
            assert(s[pos + 0] == full[0] && full[0] == e0[0]);
            assert(s[pos + 1] == full[1] && full[1] == e0[1]);
            assert(s[pos + 2] == full[2] && full[2] == e0[2]);
            assert(s[pos + 3] == full[3] && full[3] == e0[3]);
            assert(s[pos + 4] == full[4] && full[4] == e0[4]);
            assert(s[pos + 5] == full[5] && full[5] == e0[5]);
            assert(s[pos] == '\\');
            assert(s[pos + 1] == 'u');
            assert(s[pos + 2] == '0');
            assert(s[pos + 3] == '0');
            assert(s[pos + 4] == hex_digit_char(c32 as int / 16));
            assert(s[pos + 5] == hex_digit_char(c32 as int % 16));
            lemma_hex_char_val(c32 as int / 16);
            lemma_hex_char_val(c32 as int % 16);
            vstd::arithmetic::div_mod::lemma_fundamental_div_mod(c32 as int, 16);
            let v = hex_val(s[pos + 4]) * 16 + hex_val(s[pos + 5]);
            assert(v == c32 as int);
            let c2 = ((v as u8) as char);
            assert(c2 as u32 == v);
            vstd::utf8::char_u32_cast(c, c32);
            vstd::utf8::char_u32_cast(c2, c2 as u32);
            assert(((v as u8) as char) == c);
            assert(sp_string_body(s, pos) == Some((t, pos + esc.len() + 1)));
        } else {
            assert(e0 =~= seq![c]);
            assert(s[pos + 0] == full[0] && full[0] == e0[0]);
            assert(s[pos] == c);
            assert(sp_string_body(s, pos) == Some((t, pos + esc.len() + 1)));
        }
    }
}

/// Whether a document's numbers all lie within the machine range the parser
/// accepts.
pub open spec fn wf_json(j: JsonV) -> bool
    decreases j,
{
    match j {
        JsonV::Num(m) => -(i64::MAX as int) <= m <= i64::MAX as int,
        JsonV::Arr(items) => wf_arr(items),
        JsonV::Obj(fields) => wf_obj(fields),
        _ => true,
    }
}

/// Well-formedness of every element of an array.
pub open spec fn wf_arr(items: Seq<JsonV>) -> bool
    decreases items,
{
    items.len() == 0 || (wf_json(items[0]) && wf_arr(items.drop_first()))
}

/// Well-formedness of every member value of an object.
pub open spec fn wf_obj(fields: Seq<(Seq<char>, JsonV)>) -> bool
    decreases fields,
{
    fields.len() == 0 || (wf_json(fields[0].1) && wf_obj(fields.drop_first()))
}

proof fn lemma_json_chars_head(j: JsonV)
    ensures
        json_chars(j).len() >= 1,
        !is_ws(json_chars(j)[0]),
        json_chars(j)[0] != ']',
        json_chars(j)[0] != '}',
        json_chars(j)[0] != ',',
        json_chars(j)[0] != ':',
        j is Null ==> json_chars(j)[0] == 'n',
        j matches JsonV::Bool(b) ==> json_chars(j)[0] == (if b { 't' } else { 'f' }),
        j matches JsonV::Num(m) ==> (json_chars(j)[0] == '-' || is_digit(json_chars(j)[0]))
            && json_chars(j)[0] != 'n' && json_chars(j)[0] != 't' && json_chars(j)[0] != 'f'
            && json_chars(j)[0] != '"' && json_chars(j)[0] != '[' && json_chars(j)[0] != '{',
        j is Str ==> json_chars(j)[0] == '"',
        j is Arr ==> json_chars(j)[0] == '[',
        j is Obj ==> json_chars(j)[0] == '{',
{
    reveal_strlit("null");
    reveal_strlit("true");
    reveal_strlit("false");
    match j {
        JsonV::Num(m) => {
            let abs = if m < 0 { -m } else { m };
            lemma_dec_chars_props(abs / 1000);
            if m >= 0 {
                assert(json_chars(j)[0] == dec_chars(abs / 1000)[0]);
                assert(is_digit(dec_chars(abs / 1000)[0]));
            }
        },
        JsonV::Str(t) => {
            assert(json_chars(j)[0] == (seq!['"'] + escape_chars(t) + seq!['"'])[0]);
        },
        _ => {},
    }
}

/// The canonical text of a well-formed value parses back to the value,
/// whenever the character after it neither extends a digit run nor opens a
/// fraction.
proof fn lemma_value_print(s: Seq<char>, pos: int, j: JsonV)
    requires
        wf_json(j),
        0 <= pos,
        pos + json_chars(j).len() <= s.len(),
        s.subrange(pos, pos + json_chars(j).len()) == json_chars(j),
        pos + json_chars(j).len() == s.len() || (!is_digit(s[pos + json_chars(j).len()])
            && s[pos + json_chars(j).len()] != '.'),
    ensures
        sp_value(s, pos) == Some((j, pos + json_chars(j).len())),
    decreases j,
{
    let text = json_chars(j);
    let l = text.len();
    lemma_json_chars_head(j);
    assert forall|t: int| #![trigger s[pos + t]] 0 <= t < l implies s[pos + t] == text[t] by {
        assert(s.subrange(pos, pos + l)[t] == s[pos + t]);
    }
    assert(s[pos + 0] == text[0]);
    assert(sp_skip_ws(s, pos) == pos);
    reveal_strlit("null");
    reveal_strlit("true");
    reveal_strlit("false");
    match j {
        JsonV::Null => {
            assert(s[pos + 1] == text[1] && s[pos + 2] == text[2] && s[pos + 3] == text[3]);
            assert(l == 4);
        },
        JsonV::Bool(b) => {
            if b {
                assert(s[pos + 1] == text[1] && s[pos + 2] == text[2] && s[pos + 3] == text[3]);
                assert(l == 4);
            } else {
                assert(s[pos + 1] == text[1] && s[pos + 2] == text[2] && s[pos + 3] == text[3]
                    && s[pos + 4] == text[4]);
                assert(l == 5);
            }
        },
        JsonV::Num(m) => {
            lemma_number_print(s, pos, m);
        },
        JsonV::Str(t) => {
            assert(text =~= seq!['"'] + escape_chars(t) + seq!['"']);
            assert forall|i: int| 0 <= i < escape_chars(t).len() + 1 implies s.subrange(
                pos + 1,
                pos + 1 + escape_chars(t).len() + 1,
            )[i] == (escape_chars(t) + seq!['"'])[i] by {
                assert(s.subrange(pos + 1, pos + 1 + escape_chars(t).len() + 1)[i] == s[pos + 1
                    + i]);
                assert(s[pos + (1 + i)] == text[1 + i]);
            }
            assert(s.subrange(pos + 1, pos + 1 + escape_chars(t).len() + 1) =~= escape_chars(t)
                + seq!['"']);
            lemma_string_body_print(s, pos + 1, t);
        },
        JsonV::Arr(items) => {
            assert(text =~= seq!['['] + arr_chars(items) + seq![']']);
            if items.len() == 0 {
                assert(arr_chars(items) =~= Seq::<char>::empty());
                assert(l == 2);
                assert(text =~= seq!['[', ']']);
                assert(s[pos + 1] == text[1]);
                assert(s[pos + 1] == ']');
                assert(sp_skip_ws(s, pos + 1) == pos + 1);
                assert(Seq::<JsonV>::empty() =~= items);
            } else {
                lemma_json_chars_head(items[0]);
                assert(s[pos + 1] == text[1]);
                assert(text[1] == arr_chars(items)[0]);
                assert(arr_chars(items)[0] == json_chars(items[0])[0]);
                assert(sp_skip_ws(s, pos + 1) == pos + 1);
                assert(s[pos + 1] != ']');
                assert forall|i: int| 0 <= i < arr_chars(items).len() + 1 implies s.subrange(
                    pos + 1,
                    pos + 1 + arr_chars(items).len() + 1,
                )[i] == (arr_chars(items) + seq![']'])[i] by {
                    assert(s.subrange(pos + 1, pos + 1 + arr_chars(items).len() + 1)[i] == s[pos
                        + 1 + i]);
                    assert(s[pos + (1 + i)] == text[1 + i]);
                }
                assert(s.subrange(pos + 1, pos + 1 + arr_chars(items).len() + 1) =~= arr_chars(
                    items,
                ) + seq![']']);
                lemma_elements_print(s, pos + 1, items);
            }
        },
        JsonV::Obj(fields) => {
            assert(text =~= seq!['{'] + obj_chars(fields) + seq!['}']);
            if fields.len() == 0 {
                assert(obj_chars(fields) =~= Seq::<char>::empty());
                assert(l == 2);
                assert(text =~= seq!['{', '}']);
                assert(s[pos + 1] == text[1]);
                assert(s[pos + 1] == '}');
                assert(sp_skip_ws(s, pos + 1) == pos + 1);
                assert(Seq::<(Seq<char>, JsonV)>::empty() =~= fields);
            } else {
                assert(member_chars(fields[0]) =~= string_chars(fields[0].0) + seq![':']
                    + json_chars(fields[0].1));
                assert(member_chars(fields[0]).len() >= 1);
                if fields.len() == 1 {
                    assert(obj_chars(fields) =~= member_chars(fields[0]));
                } else {
                    assert(obj_chars(fields) =~= member_chars(fields[0]) + seq![','] + obj_chars(
                        fields.drop_first(),
                    ));
                }
                assert(obj_chars(fields).len() >= 1);
                assert(s[pos + 1] == text[1]);
                assert(text[1] == obj_chars(fields)[0]);
                assert(obj_chars(fields)[0] == member_chars(fields[0])[0]);
                assert(member_chars(fields[0])[0] == '"');
                assert(sp_skip_ws(s, pos + 1) == pos + 1);
                assert(s[pos + 1] != '}');
                assert forall|i: int| 0 <= i < obj_chars(fields).len() + 1 implies s.subrange(
                    pos + 1,
                    pos + 1 + obj_chars(fields).len() + 1,
                )[i] == (obj_chars(fields) + seq!['}'])[i] by {
                    assert(s.subrange(pos + 1, pos + 1 + obj_chars(fields).len() + 1)[i] == s[pos
                        + 1 + i]);
                    assert(s[pos + (1 + i)] == text[1 + i]);
                }
                assert(s.subrange(pos + 1, pos + 1 + obj_chars(fields).len() + 1) =~= obj_chars(
                    fields,
                ) + seq!['}']);
                lemma_members_print(s, pos + 1, fields);
            }
        },
    }
}

/// The comma-separated element texts followed by the closing bracket parse
/// back to the elements.
proof fn lemma_elements_print(s: Seq<char>, pos: int, items: Seq<JsonV>)
    requires
        items.len() >= 1,
        wf_arr(items),
        0 <= pos,
        pos + arr_chars(items).len() + 1 <= s.len(),
        s.subrange(pos, pos + arr_chars(items).len() + 1) == arr_chars(items) + seq![']'],
    ensures
        sp_elements(s, pos) == Some((items, pos + arr_chars(items).len() + 1)),
    decreases items,
{
    let text = arr_chars(items) + seq![']'];
    let l = text.len();
    assert forall|t: int| #![trigger s[pos + t]] 0 <= t < l implies s[pos + t] == text[t] by {
        assert(s.subrange(pos, pos + l)[t] == s[pos + t]);
    }
    let j0 = items[0];
    let l0 = json_chars(j0).len();
    lemma_json_chars_head(j0);
    if items.len() == 1 {
        assert(arr_chars(items) =~= json_chars(j0));
        assert forall|i: int| 0 <= i < l0 implies s.subrange(pos, pos + l0)[i] == json_chars(
            j0,
        )[i] by {
            assert(s.subrange(pos, pos + l0)[i] == s[pos + i]);
        }
        assert(s.subrange(pos, pos + l0) =~= json_chars(j0));
        assert(s[pos + l0] == text[l0 as int]);
        assert(text[l0 as int] == ']');
        assert(s[pos + l0] == ']');
        lemma_value_print(s, pos, j0);
        assert(sp_skip_ws(s, pos + l0) == pos + l0);
        assert(seq![j0] =~= items);
    } else {
        let rest = items.drop_first();
        assert(arr_chars(items) =~= json_chars(j0) + seq![','] + arr_chars(rest));
        assert forall|i: int| 0 <= i < l0 implies s.subrange(pos, pos + l0)[i] == json_chars(
            j0,
        )[i] by {
            assert(s.subrange(pos, pos + l0)[i] == s[pos + i]);
        }
        assert(s.subrange(pos, pos + l0) =~= json_chars(j0));
        assert(s[pos + l0] == text[l0 as int]);
        assert(text[l0 as int] == ',');
        assert(s[pos + l0] == ',');
        lemma_value_print(s, pos, j0);
        assert(sp_skip_ws(s, pos + l0) == pos + l0);
        let pos2 = pos + l0 + 1;
        assert forall|i: int| 0 <= i < arr_chars(rest).len() + 1 implies s.subrange(
            pos2,
            pos2 + arr_chars(rest).len() + 1,
        )[i] == (arr_chars(rest) + seq![']'])[i] by {
            assert(s.subrange(pos2, pos2 + arr_chars(rest).len() + 1)[i] == s[pos2 + i]);
            assert(s[pos + (l0 + 1 + i)] == text[l0 + 1 + i]);
        }
        assert(s.subrange(pos2, pos2 + arr_chars(rest).len() + 1) =~= arr_chars(rest)
            + seq![']']);
        lemma_elements_print(s, pos2, rest);
        assert(seq![j0] + rest =~= items);
    }
}

/// The comma-separated member texts followed by the closing brace parse back
/// to the members.
proof fn lemma_members_print(s: Seq<char>, pos: int, fields: Seq<(Seq<char>, JsonV)>)
    requires
        fields.len() >= 1,
        wf_obj(fields),
        0 <= pos,
        pos + obj_chars(fields).len() + 1 <= s.len(),
        s.subrange(pos, pos + obj_chars(fields).len() + 1) == obj_chars(fields) + seq!['}'],
    ensures
        sp_members(s, pos) == Some((fields, pos + obj_chars(fields).len() + 1)),
    decreases fields,
{
    let text = obj_chars(fields) + seq!['}'];
    let l = text.len();
    assert forall|t: int| #![trigger s[pos + t]] 0 <= t < l implies s[pos + t] == text[t] by {
        assert(s.subrange(pos, pos + l)[t] == s[pos + t]);
    }
    let name = fields[0].0;
    let v0 = fields[0].1;
    let m0 = member_chars(fields[0]);
    let lname = escape_chars(name).len() + 2;
    let lv = json_chars(v0).len();
    assert(m0 =~= seq!['"'] + escape_chars(name) + seq!['"'] + seq![':'] + json_chars(v0));
    lemma_json_chars_head(v0);
    let tail: Seq<char> = if fields.len() == 1 {
        Seq::empty()
    } else {
        seq![','] + obj_chars(fields.drop_first())
    };
    assert(obj_chars(fields) =~= m0 + tail);
    assert(s[pos + 0] == text[0]);
    assert(text[0] == m0[0]);
    assert(m0[0] == '"');
    assert(s[pos + 0] == '"');
    assert(sp_skip_ws(s, pos) == pos);
    // The member name.
    assert forall|i: int| 0 <= i < escape_chars(name).len() + 1 implies s.subrange(
        pos + 1,
        pos + 1 + escape_chars(name).len() + 1,
    )[i] == (escape_chars(name) + seq!['"'])[i] by {
        assert(s.subrange(pos + 1, pos + 1 + escape_chars(name).len() + 1)[i] == s[pos + 1 + i]);
        assert(s[pos + (1 + i)] == text[1 + i]);
        assert(text[1 + i] == m0[1 + i]);
    }
    assert(s.subrange(pos + 1, pos + 1 + escape_chars(name).len() + 1) =~= escape_chars(name)
        + seq!['"']);
    lemma_string_body_print(s, pos + 1, name);
    let e1 = pos + lname;
    assert(s[pos + lname] == text[lname as int]);
    assert(text[lname as int] == m0[lname as int]);
    assert(m0[lname as int] == ':');
    assert(s[pos + lname] == ':');
    assert(sp_skip_ws(s, e1) == e1);
    // The member value.
    let pv = e1 + 1;
    assert forall|i: int| 0 <= i < lv implies s.subrange(pv, pv + lv)[i] == json_chars(v0)[i] by {
        assert(s.subrange(pv, pv + lv)[i] == s[pv + i]);
        assert(s[pos + (lname + 1 + i)] == text[lname + 1 + i]);
        assert(text[lname + 1 + i] == m0[lname + 1 + i]);
    }
    assert(s.subrange(pv, pv + lv) =~= json_chars(v0));
    let e2 = pv + lv;
    if fields.len() == 1 {
        assert(s[pos + (m0.len() as int)] == text[m0.len() as int]);
        assert(text[m0.len() as int] == '}');
        assert(s[pos + (m0.len() as int)] == '}');
        lemma_value_print(s, pv, v0);
        assert(sp_skip_ws(s, e2) == e2);
        assert(seq![(name, v0)] =~= fields);
        assert(sp_members(s, pos) == Some((fields, pos + obj_chars(fields).len() + 1)));
    } else {
        let rest = fields.drop_first();
        assert(s[pos + (m0.len() as int)] == text[m0.len() as int]);
        assert(text[m0.len() as int] == ',');
        assert(s[pos + (m0.len() as int)] == ',');
        lemma_value_print(s, pv, v0);
        assert(sp_skip_ws(s, e2) == e2);
        let pos2 = e2 + 1;
        assert forall|i: int| 0 <= i < obj_chars(rest).len() + 1 implies s.subrange(
            pos2,
            pos2 + obj_chars(rest).len() + 1,
        )[i] == (obj_chars(rest) + seq!['}'])[i] by {
            assert(s.subrange(pos2, pos2 + obj_chars(rest).len() + 1)[i] == s[pos2 + i]);
            assert(s[pos + (m0.len() + 1 + i)] == text[m0.len() + 1 + i]);
        }
        assert(s.subrange(pos2, pos2 + obj_chars(rest).len() + 1) =~= obj_chars(rest)
            + seq!['}']);
        lemma_members_print(s, pos2, rest);
        assert(seq![(name, v0)] + rest =~= fields);
        assert(sp_members(s, pos) == Some((fields, pos + obj_chars(fields).len() + 1)));
    }
}

/// Round trip of the text layer: the canonical text of a well-formed
/// document parses back to exactly that document.
pub proof fn lemma_text_round_trip(j: JsonV)
    requires
        wf_json(j),
    ensures
        sp_parse_json(json_chars(j)) == Some(j),
{
    let s = json_chars(j);
    assert(s.subrange(0, s.len() as int) =~= s);
    lemma_value_print(s, 0, j);
    assert(sp_skip_ws(s, s.len() as int) == s.len());
}

proof fn lemma_wf_obj_push(fields: Seq<(Seq<char>, JsonV)>, x: (Seq<char>, JsonV))
    requires
        wf_obj(fields),
        wf_json(x.1),
    ensures
        wf_obj(fields.push(x)),
    decreases fields.len(),
{
    if fields.len() == 0 {
        assert(fields.push(x) =~= seq![x]);
        assert(seq![x].drop_first() =~= Seq::<(Seq<char>, JsonV)>::empty());
        assert(wf_obj(Seq::<(Seq<char>, JsonV)>::empty()));
        assert(seq![x][0] == x);
        assert(wf_obj(seq![x]));
    } else {
        lemma_wf_obj_push(fields.drop_first(), x);
        assert(fields.push(x).drop_first() =~= fields.drop_first().push(x));
        assert(fields.push(x)[0] == fields[0]);
        assert(wf_json(fields.push(x)[0].1));
    }
}

proof fn lemma_wf_member(fields: Seq<(Seq<char>, JsonV)>, m: Option<(Seq<char>, JsonV)>)
    requires
        wf_obj(fields),
        m matches Some(x) ==> wf_json(x.1),
    ensures
        wf_obj(with_member(fields, m)),
{
    match m {
        Some(x) => lemma_wf_obj_push(fields, x),
        None => {},
    }
}

proof fn lemma_wf_message_docs(ms: Seq<MessageV>)
    ensures
        wf_arr(ms.map_values(|m: MessageV| spec_message_json(m))),
    decreases ms.len(),
{
    let mapped = ms.map_values(|m: MessageV| spec_message_json(m));
    if ms.len() == 0 {
        assert(mapped =~= Seq::<JsonV>::empty());
        assert(wf_arr(Seq::<JsonV>::empty()));
    } else {
        lemma_wf_message_docs(ms.drop_first());
        assert(mapped.drop_first() =~= ms.drop_first().map_values(
            |m: MessageV| spec_message_json(m),
        ));
        assert(mapped[0] == spec_message_json(ms[0]));
        let f = seq![
            ("role"@, JsonV::Str(spec_role_name(ms[0].role))),
            ("content"@, JsonV::Str(ms[0].content)),
        ];
        assert(f.drop_first() =~= seq![("content"@, JsonV::Str(ms[0].content))]);
        assert(f.drop_first().drop_first() =~= Seq::<(Seq<char>, JsonV)>::empty());
        assert(wf_obj(Seq::<(Seq<char>, JsonV)>::empty()));
        assert(wf_json(JsonV::Str(ms[0].content)));
        assert(wf_obj(f.drop_first()));
        assert(wf_json(JsonV::Str(spec_role_name(ms[0].role))));
        assert(wf_obj(f));
        assert(wf_json(mapped[0]));
        assert(wf_arr(mapped));
    }
}

proof fn lemma_wf_stop_docs(ss: Seq<Seq<char>>)
    ensures
        wf_arr(ss.map_values(|s2: Seq<char>| JsonV::Str(s2))),
    decreases ss.len(),
{
    let mapped = ss.map_values(|s2: Seq<char>| JsonV::Str(s2));
    if ss.len() == 0 {
        assert(mapped =~= Seq::<JsonV>::empty());
        assert(wf_arr(Seq::<JsonV>::empty()));
    } else {
        lemma_wf_stop_docs(ss.drop_first());
        assert(mapped.drop_first() =~= ss.drop_first().map_values(
            |s2: Seq<char>| JsonV::Str(s2),
        ));
        assert(mapped[0] == JsonV::Str(ss[0]));
        assert(wf_json(mapped[0]));
        assert(wf_arr(mapped));
    }
}

/// A request's wire document is well formed: every number it carries fits
/// the machine range, given the temperature type's own validity.
proof fn lemma_request_json_wf(r: ChatCompletionRequestV)
    requires
        r.temperature matches Some(t) ==> temperature_in_range(t),
        r.top_p matches Some(p) ==> -(i64::MAX as int) <= p <= i64::MAX as int,
        r.frequency_penalty matches Some(p) ==> -(i64::MAX as int) <= p <= i64::MAX as int,
        r.presence_penalty matches Some(p) ==> -(i64::MAX as int) <= p <= i64::MAX as int,
    ensures
        wf_json(spec_request_json(r)),
{
    let f0: Seq<(Seq<char>, JsonV)> = seq![
        ("model"@, JsonV::Str(spec_model_name(r.model))),
        ("messages"@, JsonV::Arr(r.messages.map_values(|m: MessageV| spec_message_json(m)))),
    ];
    lemma_wf_message_docs(r.messages);
    assert(f0.drop_first() =~= seq![
        ("messages"@, JsonV::Arr(r.messages.map_values(|m: MessageV| spec_message_json(m)))),
    ]);
    assert(f0.drop_first().drop_first() =~= Seq::<(Seq<char>, JsonV)>::empty());
    assert(wf_obj(Seq::<(Seq<char>, JsonV)>::empty()));
    assert(wf_json(f0.drop_first()[0].1));
    assert(wf_obj(f0.drop_first()));
    assert(wf_json(f0[0].1));
    assert(wf_obj(f0));
    let f1 = with_member(
        f0,
        match r.temperature {
            Some(t) => Some(("temperature"@, JsonV::Num(t))),
            None => None,
        },
    );
    lemma_wf_member(
        f0,
        match r.temperature {
            Some(t) => Some(("temperature"@, JsonV::Num(t))),
            None => None,
        },
    );
    let f2 = with_member(
        f1,
        match r.max_tokens {
            Some(v) => Some(("max_tokens"@, JsonV::Num(v as int * 1000))),
            None => None,
        },
    );
    lemma_wf_member(
        f1,
        match r.max_tokens {
            Some(v) => Some(("max_tokens"@, JsonV::Num(v as int * 1000))),
            None => None,
        },
    );
    let f3 = with_member(
        f2,
        match r.top_p {
            Some(p) => Some(("top_p"@, JsonV::Num(p))),
            None => None,
        },
    );
    lemma_wf_member(
        f2,
        match r.top_p {
            Some(p) => Some(("top_p"@, JsonV::Num(p))),
            None => None,
        },
    );
    let f4 = with_member(
        f3,
        match r.frequency_penalty {
            Some(p) => Some(("frequency_penalty"@, JsonV::Num(p))),
            None => None,
        },
    );
    lemma_wf_member(
        f3,
        match r.frequency_penalty {
            Some(p) => Some(("frequency_penalty"@, JsonV::Num(p))),
            None => None,
        },
    );
    let f5 = with_member(
        f4,
        match r.presence_penalty {
            Some(p) => Some(("presence_penalty"@, JsonV::Num(p))),
            None => None,
        },
    );
    lemma_wf_member(
        f4,
        match r.presence_penalty {
            Some(p) => Some(("presence_penalty"@, JsonV::Num(p))),
            None => None,
        },
    );
    let f6 = with_member(
        f5,
        match r.stop {
            Some(ss) => Some(
                ("stop"@, JsonV::Arr(ss.map_values(|s2: Seq<char>| JsonV::Str(s2)))),
            ),
            None => None,
        },
    );
    if r.stop is Some {
        lemma_wf_stop_docs(r.stop->0);
    }
    lemma_wf_member(
        f5,
        match r.stop {
            Some(ss) => Some(
                ("stop"@, JsonV::Arr(ss.map_values(|s2: Seq<char>| JsonV::Str(s2)))),
            ),
            None => None,
        },
    );
    let f7 = with_member(
        f6,
        match r.stream {
            Some(b) => Some(("stream"@, JsonV::Bool(b))),
            None => None,
        },
    );
    lemma_wf_member(
        f6,
        match r.stream {
            Some(b) => Some(("stream"@, JsonV::Bool(b))),
            None => None,
        },
    );
    let f8 = with_member(
        f7,
        match r.n {
            Some(v) => Some(("n"@, JsonV::Num(v as int * 1000))),
            None => None,
        },
    );
    lemma_wf_member(
        f7,
        match r.n {
            Some(v) => Some(("n"@, JsonV::Num(v as int * 1000))),
            None => None,
        },
    );
    let f9 = with_member(
        f8,
        match r.user {
            Some(u) => Some(("user"@, JsonV::Str(u))),
            None => None,
        },
    );
    lemma_wf_member(
        f8,
        match r.user {
            Some(u) => Some(("user"@, JsonV::Str(u))),
            None => None,
        },
    );
    assert(f9 == spec_request_fields(r));
}

/// Round trip through the wire text: a request's document renders to text
/// that parses back to the same document, and the document decodes back to
/// the request, field for field, message order preserved. The one premise is
/// the temperature type's own validity.
pub proof fn lemma_request_text_round_trip(r: ChatCompletionRequest)
    requires
        r.temperature matches Some(t) ==> temperature_in_range(t.spec_value()),
    ensures
        sp_parse_json(json_chars(spec_request_json(r@))) == Some(spec_request_json(r@)),
        spec_request_from_json(spec_request_json(r@)) == Some(r@),
{
    lemma_request_json_wf(r@);
    lemma_text_round_trip(spec_request_json(r@));
    lemma_request_json_round_trip(r);
}

} // verus!
