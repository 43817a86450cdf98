//! The JSON document model for the wire protocol: a document type, its
//! mathematical mirror, a text encoder and a text parser.
//!
//! Numbers are carried in thousandths of a unit (fixed-point with at most
//! three fractional digits), which covers every numeric field of this
//! protocol: counters, timestamps, and the sampling scalars.

use vstd::prelude::*;

use crate::text::{digit_char, milli_chars, push_milli, str_to_chars};

verus! {

broadcast use vstd::std_specs::vec::group_vec_axioms, vstd::seq::group_seq_axioms;

/// A JSON document. Numbers are values in thousandths of a unit.
#[derive(Debug, PartialEq)]
pub enum Json {
    /// The null literal.
    Null,
    /// A boolean literal.
    Bool(bool),
    /// A number, counted in thousandths of a unit.
    Num(i64),
    /// A string.
    Str(String),
    /// An array of documents, in order.
    Arr(Vec<Json>),
    /// An object: named members in order of appearance.
    Obj(Vec<(String, Json)>),
}

/// The mathematical value of a JSON document.
pub enum JsonV {
    /// The null literal.
    Null,
    /// A boolean literal.
    Bool(bool),
    /// A number, counted in thousandths of a unit.
    Num(int),
    /// A string.
    Str(Seq<char>),
    /// An array of documents, in order.
    Arr(Seq<JsonV>),
    /// An object: named members in order of appearance.
    Obj(Seq<(Seq<char>, JsonV)>),
}

impl View for Json {
    type V = JsonV;

    open spec fn view(&self) -> JsonV
        decreases self,
    {
        match self {
            Json::Null => JsonV::Null,
            Json::Bool(b) => JsonV::Bool(*b),
            Json::Num(m) => JsonV::Num(*m as int),
            Json::Str(s) => JsonV::Str(s@),
            Json::Arr(items) => JsonV::Arr(view_arr(items@)),
            Json::Obj(fields) => JsonV::Obj(view_obj(fields@)),
        }
    }
}

/// The mathematical values of a sequence of documents, in order.
pub open spec fn view_arr(items: Seq<Json>) -> Seq<JsonV>
    decreases items,
{
    if items.len() == 0 {
        Seq::empty()
    } else {
        seq![items[0]@] + view_arr(items.drop_first())
    }
}

/// The mathematical values of a sequence of object members, in order.
pub open spec fn view_obj(fields: Seq<(String, Json)>) -> Seq<(Seq<char>, JsonV)>
    decreases fields,
{
    if fields.len() == 0 {
        Seq::empty()
    } else {
        seq![(fields[0].0@, fields[0].1@)] + view_obj(fields.drop_first())
    }
}

/// `view_arr` is the pointwise view of its argument.
pub proof fn lemma_view_arr(items: Seq<Json>)
    ensures
        view_arr(items).len() == items.len(),
        forall|i: int| 0 <= i < items.len() ==> #[trigger] view_arr(items)[i] == items[i]@,
    decreases items.len(),
{
    if items.len() > 0 {
        lemma_view_arr(items.drop_first());
        assert(view_arr(items) =~= seq![items[0]@] + view_arr(items.drop_first()));
        assert forall|i: int| 0 <= i < items.len() implies #[trigger] view_arr(items)[i] == items[i]@ by {
            if i > 0 {
                assert(view_arr(items)[i] == view_arr(items.drop_first())[i - 1]);
                assert(items.drop_first()[i - 1] == items[i]);
            }
        }
    }
}

/// `view_obj` is the pointwise view of its argument.
pub proof fn lemma_view_obj(fields: Seq<(String, Json)>)
    ensures
        view_obj(fields).len() == fields.len(),
        forall|i: int| 0 <= i < fields.len() ==> #[trigger] view_obj(fields)[i] == (
        fields[i].0@,
        fields[i].1@,
        ),
    decreases fields.len(),
{
    if fields.len() > 0 {
        lemma_view_obj(fields.drop_first());
        assert(view_obj(fields) =~= seq![(fields[0].0@, fields[0].1@)] + view_obj(
            fields.drop_first(),
        ));
        assert forall|i: int| 0 <= i < fields.len() implies #[trigger] view_obj(fields)[i] == (
        fields[i].0@,
        fields[i].1@,
        ) by {
            if i > 0 {
                assert(view_obj(fields)[i] == view_obj(fields.drop_first())[i - 1]);
                assert(fields.drop_first()[i - 1] == fields[i]);
            }
        }
    }
}

impl Clone for Json {
    /// Cloning a document preserves its mathematical value.
    #[verifier::loop_isolation(false)]
    fn clone(&self) -> (res: Self)
        ensures
            res@ == self@,
        decreases self,
    {
        match self {
            Json::Null => Json::Null,
            Json::Bool(b) => Json::Bool(*b),
            Json::Num(m) => Json::Num(*m),
            Json::Str(s) => Json::Str(s.clone()),
            Json::Arr(items) => {
                let mut v: Vec<Json> = Vec::new();
                let mut i: usize = 0;
                while i < items.len()
                    invariant
                        i <= items@.len(),
                        v@.len() == i,
                        forall|j: int| 0 <= j < i ==> #[trigger] v@[j]@ == items@[j]@,
                    decreases items@.len() - i,
                {
                    proof {
                        assert(*self == Json::Arr(*items));
                        assert(decreases_to!(*self => self->Arr_0));
                        assert(decreases_to!(items@ => items@[i as int]));
                        assert(decreases_to!(*self => items@[i as int]));
                    }
                    v.push(items[i].clone());
                    i = i + 1;
                }
                proof {
                    lemma_view_arr(v@);
                    lemma_view_arr(items@);
                    assert forall|k: int| 0 <= k < v@.len() implies view_arr(v@)[k] == view_arr(
                        items@,
                    )[k] by {
                        assert(v@[k]@ == items@[k]@);
                    }
                    assert(view_arr(v@) =~= view_arr(items@));
                }
                Json::Arr(v)
            },
            Json::Obj(fields) => {
                let mut v: Vec<(String, Json)> = Vec::new();
                let mut i: usize = 0;
                while i < fields.len()
                    invariant
                        i <= fields@.len(),
                        v@.len() == i,
                        forall|j: int| 0 <= j < i ==> #[trigger] v@[j].0@ == fields@[j].0@,
                        forall|j: int| 0 <= j < i ==> #[trigger] v@[j].1@ == fields@[j].1@,
                    decreases fields@.len() - i,
                {
                    proof {
                        assert(*self == Json::Obj(*fields));
                        assert(decreases_to!(*self => self->Obj_0));
                        assert(decreases_to!(fields@ => fields@[i as int]));
                        assert(decreases_to!(fields@[i as int] => fields@[i as int].1));
                        assert(decreases_to!(*self => fields@[i as int].1));
                    }
                    let name = fields[i].0.clone();
                    let value = fields[i].1.clone();
                    v.push((name, value));
                    i = i + 1;
                }
                proof {
                    lemma_view_obj(v@);
                    lemma_view_obj(fields@);
                    assert forall|k: int| 0 <= k < v@.len() implies view_obj(v@)[k] == view_obj(
                        fields@,
                    )[k] by {
                        assert(v@[k].0@ == fields@[k].0@);
                        assert(v@[k].1@ == fields@[k].1@);
                    }
                    assert(view_obj(v@) =~= view_obj(fields@));
                }
                Json::Obj(v)
            },
        }
    }
}

/// The lowercase hexadecimal digit character for a value in 0..=15.
pub open spec fn hex_digit_char(d: int) -> char {
    if d < 10 {
        digit_char(d)
    } else if d == 10 {
        'a'
    } else if d == 11 {
        'b'
    } else if d == 12 {
        'c'
    } else if d == 13 {
        'd'
    } else if d == 14 {
        'e'
    } else {
        'f'
    }
}

/// The escaped form of one character inside a JSON string literal: quote,
/// backslash and the common control characters take two-character escapes,
/// any other control character takes a `\u00..` escape, and everything else
/// stands for itself.
pub open spec fn escape_char(c: char) -> Seq<char> {
    if c == '"' {
        seq!['\\', '"']
    } else if c == '\\' {
        seq!['\\', '\\']
    } else if c == '\n' {
        seq!['\\', 'n']
    } else if c == '\r' {
        seq!['\\', 'r']
    } else if c == '\t' {
        seq!['\\', 't']
    } else if (c as u32) < 32 {
        seq!['\\', 'u', '0', '0', hex_digit_char((c as u32 / 16) as int), hex_digit_char((c as u32 % 16) as int)]
    } else {
        seq![c]
    }
}

/// The escaped form of a whole string body.
pub open spec fn escape_chars(s: Seq<char>) -> Seq<char>
    decreases s.len(),
{
    if s.len() == 0 {
        Seq::empty()
    } else {
        escape_char(s[0]) + escape_chars(s.drop_first())
    }
}

/// A quoted, escaped JSON string literal.
pub open spec fn string_chars(s: Seq<char>) -> Seq<char> {
    seq!['"'] + escape_chars(s) + seq!['"']
}

/// The canonical JSON text of a document: no whitespace, numbers in
/// fixed-point decimal with trailing fraction zeros trimmed.
pub open spec fn json_chars(j: JsonV) -> Seq<char>
    decreases j,
{
    match j {
        JsonV::Null => "null"@,
        JsonV::Bool(b) => if b {
            "true"@
        } else {
            "false"@
        },
        JsonV::Num(m) => milli_chars(m),
        JsonV::Str(s) => string_chars(s),
        JsonV::Arr(items) => seq!['['] + arr_chars(items) + seq![']'],
        JsonV::Obj(fields) => seq!['{'] + obj_chars(fields) + seq!['}'],
    }
}

/// Comma-separated element texts of an array body.
pub open spec fn arr_chars(items: Seq<JsonV>) -> Seq<char>
    decreases items,
{
    if items.len() == 0 {
        Seq::empty()
    } else if items.len() == 1 {
        json_chars(items[0])
    } else {
        json_chars(items[0]) + seq![','] + arr_chars(items.drop_first())
    }
}

/// One object member: quoted name, colon, value text.
pub open spec fn member_chars(f: (Seq<char>, JsonV)) -> Seq<char>
    decreases f,
{
    string_chars(f.0) + seq![':'] + json_chars(f.1)
}

/// Comma-separated member texts of an object body.
pub open spec fn obj_chars(fields: Seq<(Seq<char>, JsonV)>) -> Seq<char>
    decreases fields,
{
    if fields.len() == 0 {
        Seq::empty()
    } else if fields.len() == 1 {
        member_chars(fields[0])
    } else {
        member_chars(fields[0]) + seq![','] + obj_chars(fields.drop_first())
    }
}

/// Appending one element to an array body appends a separator (except for
/// the first element) and the element's text.
proof fn lemma_arr_chars_push(s: Seq<JsonV>, x: JsonV)
    ensures
        arr_chars(s.push(x)) == if s.len() == 0 {
            json_chars(x)
        } else {
            arr_chars(s) + seq![','] + json_chars(x)
        },
    decreases s.len(),
{
    if s.len() == 0 {
        assert(s.push(x) =~= seq![x]);
        assert(arr_chars(seq![x]) == json_chars(seq![x][0]));
    } else {
        lemma_arr_chars_push(s.drop_first(), x);
        assert(s.push(x).drop_first() =~= s.drop_first().push(x));
        assert(s.push(x)[0] == s[0]);
        if s.len() == 1 {
            assert(arr_chars(s.push(x)) =~= arr_chars(s) + seq![','] + json_chars(x));
        } else {
            assert(arr_chars(s.push(x)) =~= arr_chars(s) + seq![','] + json_chars(x));
        }
    }
}

/// Appending one member to an object body appends a separator (except for
/// the first member) and the member's text.
proof fn lemma_obj_chars_push(s: Seq<(Seq<char>, JsonV)>, x: (Seq<char>, JsonV))
    ensures
        obj_chars(s.push(x)) == if s.len() == 0 {
            member_chars(x)
        } else {
            obj_chars(s) + seq![','] + member_chars(x)
        },
    decreases s.len(),
{
    if s.len() == 0 {
        assert(s.push(x) =~= seq![x]);
        assert(obj_chars(seq![x]) == member_chars(seq![x][0]));
    } else {
        lemma_obj_chars_push(s.drop_first(), x);
        assert(s.push(x).drop_first() =~= s.drop_first().push(x));
        assert(s.push(x)[0] == s[0]);
        assert(obj_chars(s.push(x)) =~= obj_chars(s) + seq![','] + member_chars(x));
    }
}

/// Appending one character to a string body appends its escaped form.
proof fn lemma_escape_chars_push(s: Seq<char>, x: char)
    ensures
        escape_chars(s.push(x)) == escape_chars(s) + escape_char(x),
    decreases s.len(),
{
    if s.len() == 0 {
        assert(s.push(x) =~= seq![x]);
        assert(seq![x].drop_first() =~= Seq::<char>::empty());
        assert(escape_chars(Seq::<char>::empty()) =~= Seq::<char>::empty());
        assert(escape_chars(seq![x]) =~= escape_char(x));
        assert(escape_chars(s.push(x)) =~= escape_chars(s) + escape_char(x));
    } else {
        lemma_escape_chars_push(s.drop_first(), x);
        assert(s.push(x).drop_first() =~= s.drop_first().push(x));
        assert(s.push(x)[0] == s[0]);
        assert(escape_chars(s.push(x)) =~= escape_chars(s) + escape_char(x));
    }
}

fn hex_digit_char_exec(d: u32) -> (c: char)
    requires
        d < 16,
    ensures
        c == hex_digit_char(d as int),
{
    if d == 0 {
        '0'
    } else if d == 1 {
        '1'
    } else if d == 2 {
        '2'
    } else if d == 3 {
        '3'
    } else if d == 4 {
        '4'
    } else if d == 5 {
        '5'
    } else if d == 6 {
        '6'
    } else if d == 7 {
        '7'
    } else if d == 8 {
        '8'
    } else if d == 9 {
        '9'
    } else if d == 10 {
        'a'
    } else if d == 11 {
        'b'
    } else if d == 12 {
        'c'
    } else if d == 13 {
        'd'
    } else if d == 14 {
        'e'
    } else {
        'f'
    }
}

/// Appends a quoted, escaped JSON string literal for `s` to `out`.
#[verifier::loop_isolation(false)]
pub fn write_json_string(s: &str, out: &mut String)
    ensures
        final(out)@ == old(out)@ + string_chars(s@),
{
    out.push('"');
    let cs = str_to_chars(s);
    let ghost base = out@;
    let mut i: usize = 0;
    while i < cs.len()
        invariant
            i <= cs@.len(),
            out@ == base + escape_chars(cs@.take(i as int)),
        decreases cs@.len() - i,
    {
        proof {
            lemma_escape_chars_push(cs@.take(i as int), cs@[i as int]);
            assert(cs@.take(i as int + 1) =~= cs@.take(i as int).push(cs@[i as int]));
        }
        let c = cs[i];
        let ghost pre = out@;
        if c == '"' {
            out.push('\\');
            out.push('"');
        } else if c == '\\' {
            out.push('\\');
            out.push('\\');
        } else if c == '\n' {
            out.push('\\');
            out.push('n');
        } else if c == '\r' {
            out.push('\\');
            out.push('r');
        } else if c == '\t' {
            out.push('\\');
            out.push('t');
        } else if (c as u32) < 32 {
            out.push('\\');
            out.push('u');
            out.push('0');
            out.push('0');
            out.push(hex_digit_char_exec((c as u32) / 16));
            out.push(hex_digit_char_exec((c as u32) % 16));
        } else {
            out.push(c);
        }
        proof {
            assert(out@ =~= pre + escape_char(c));
            assert(out@ =~= base + escape_chars(cs@.take(i as int + 1)));
        }
        i = i + 1;
    }
    out.push('"');
    proof {
        assert(cs@.take(cs@.len() as int) =~= cs@);
        assert(out@ =~= old(out)@ + string_chars(s@));
    }
}

impl Json {
    /// Appends the document's canonical JSON text to `out`.
    #[verifier::loop_isolation(false)]
    pub fn write(&self, out: &mut String)
        ensures
            final(out)@ == old(out)@ + json_chars(self@),
        decreases self,
    {
        match self {
            Json::Null => {
                out.append("null");
            },
            Json::Bool(b) => {
                if *b {
                    out.append("true");
                } else {
                    out.append("false");
                }
            },
            Json::Num(m) => {
                push_milli(out, *m);
            },
            Json::Str(s) => {
                write_json_string(s.as_str(), out);
            },
            Json::Arr(items) => {
                out.push('[');
                let ghost base = out@;
                let ghost vitems = view_arr(items@);
                proof {
                    lemma_view_arr(items@);
                }
                let mut i: usize = 0;
                while i < items.len()
                    invariant
                        i <= items@.len(),
                        out@ == base + arr_chars(vitems.take(i as int)),
                    decreases items@.len() - i,
                {
                    proof {
                        assert(decreases_to!(items@ => items@[i as int]));
                    }
                    if i > 0 {
                        out.push(',');
                    }
                    items[i].write(out);
                    proof {
                        lemma_arr_chars_push(vitems.take(i as int), vitems[i as int]);
                        assert(vitems.take(i as int + 1) =~= vitems.take(i as int).push(
                            vitems[i as int],
                        ));
                        assert(out@ =~= base + arr_chars(vitems.take(i as int + 1)));
                    }
                    i = i + 1;
                }
                out.push(']');
                proof {
                    assert(vitems.take(vitems.len() as int) =~= vitems);
                    assert(out@ =~= old(out)@ + json_chars(self@));
                }
            },
            Json::Obj(fields) => {
                out.push('{');
                let ghost base = out@;
                let ghost vfields = view_obj(fields@);
                proof {
                    lemma_view_obj(fields@);
                }
                let mut i: usize = 0;
                while i < fields.len()
                    invariant
                        i <= fields@.len(),
                        out@ == base + obj_chars(vfields.take(i as int)),
                    decreases fields@.len() - i,
                {
                    proof {
                        assert(decreases_to!(fields@ => fields@[i as int]));
                        assert(decreases_to!(fields@[i as int] => fields@[i as int].1));
                    }
                    if i > 0 {
                        out.push(',');
                    }
                    write_json_string(fields[i].0.as_str(), out);
                    out.push(':');
                    fields[i].1.write(out);
                    proof {
                        lemma_obj_chars_push(vfields.take(i as int), vfields[i as int]);
                        assert(vfields.take(i as int + 1) =~= vfields.take(i as int).push(
                            vfields[i as int],
                        ));
                        assert(out@ =~= base + obj_chars(vfields.take(i as int + 1)));
                    }
                    i = i + 1;
                }
                out.push('}');
                proof {
                    assert(vfields.take(vfields.len() as int) =~= vfields);
                    assert(out@ =~= old(out)@ + json_chars(self@));
                }
            },
        }
    }

    /// The document's canonical JSON text.
    pub fn to_text(&self) -> (r: String)
        ensures
            r@ == json_chars(self@),
    {
        let mut out = String::new();
        self.write(&mut out);
        proof {
            assert(out@ =~= json_chars(self@));
        }
        out
    }
}

} // verus!
