//! Rendering a `Json` value as protocol text: one compact JSON document,
//! with a full specification of every character emitted.
use vstd::prelude::*;
use crate::json::{Json, JsonV, arr_view, fields_view};
use crate::text::{spec_dec_digits, push_dec};

verus! {

/// The character for one hexadecimal digit, lower case.
pub open spec fn spec_hex_char(d: nat) -> char {
    if d == 0 {
        '0'
    } else if d == 1 {
        '1'
    } else if d == 2 {
        '2'
    } else if d == 3 {
        '3'
    } else if d == 4 {
        '4'
    } else if d == 5 {
        '5'
    } else if d == 6 {
        '6'
    } else if d == 7 {
        '7'
    } else if d == 8 {
        '8'
    } else if d == 9 {
        '9'
    } else if d == 10 {
        'a'
    } else if d == 11 {
        'b'
    } else if d == 12 {
        'c'
    } else if d == 13 {
        'd'
    } else if d == 14 {
        'e'
    } else {
        'f'
    }
}

/// How one character appears inside a JSON string literal: quote and
/// backslash escaped, the common control characters in their short
/// forms, any other control character as a `\u00XX` escape.
pub open spec fn spec_escape_char(c: char) -> Seq<char> {
    if c == '"' {
        seq!['\\', '"']
    } else if c == '\\' {
        seq!['\\', '\\']
    } else if c == '\n' {
        seq!['\\', 'n']
    } else if c == '\r' {
        seq!['\\', 'r']
    } else if c == '\t' {
        seq!['\\', 't']
    } else if (c as u32) < 32 {
        seq!['\\', 'u', '0', '0', spec_hex_char((c as u32 / 16) as nat), spec_hex_char(
            (c as u32 % 16) as nat,
        )]
    } else {
        seq![c]
    }
}

/// A whole string's characters, each escaped as JSON requires.
pub open spec fn spec_escape(s: Seq<char>) -> Seq<char>
    decreases s.len(),
{
    if s.len() == 0 {
        Seq::empty()
    } else {
        spec_escape(s.drop_last()) + spec_escape_char(s.last())
    }
}

/// A string literal: the escaped characters between double quotes.
pub open spec fn spec_str_lit(s: Seq<char>) -> Seq<char> {
    seq!['"'] + spec_escape(s) + seq!['"']
}

/// The text of one JSON value, in the compact form the protocol emits:
/// no spaces, object fields in their stored order.
pub open spec fn spec_ser(v: JsonV) -> Seq<char>
    decreases v,
{
    match v {
        JsonV::Null => seq!['n', 'u', 'l', 'l'],
        JsonV::Bool(b) => if b {
            seq!['t', 'r', 'u', 'e']
        } else {
            seq!['f', 'a', 'l', 's', 'e']
        },
        JsonV::Num(n) => spec_dec_digits(n as nat),
        JsonV::Str(s) => spec_str_lit(s),
        JsonV::Arr(a) => seq!['['] + spec_ser_items(a) + seq![']'],
        JsonV::Obj(m) => seq!['{'] + spec_ser_fields(m) + seq!['}'],
    }
}

/// Array elements joined by commas.
pub open spec fn spec_ser_items(a: Seq<JsonV>) -> Seq<char>
    decreases a,
{
    if a.len() == 0 {
        Seq::empty()
    } else if a.len() == 1 {
        spec_ser(a.last())
    } else {
        spec_ser_items(a.drop_last()) + seq![','] + spec_ser(a.last())
    }
}

/// Object fields, each `"key":value`, joined by commas.
pub open spec fn spec_ser_fields(m: Seq<(Seq<char>, JsonV)>) -> Seq<char>
    decreases m,
{
    if m.len() == 0 {
        Seq::empty()
    } else if m.len() == 1 {
        spec_ser_field(m.last())
    } else {
        spec_ser_fields(m.drop_last()) + seq![','] + spec_ser_field(m.last())
    }
}

/// One object field: the quoted key, a colon, the value.
pub open spec fn spec_ser_field(f: (Seq<char>, JsonV)) -> Seq<char>
    decreases f,
{
    spec_str_lit(f.0) + seq![':'] + spec_ser(f.1)
}

fn hex_char(d: u32) -> (c: char)
    requires
        d < 16,
    ensures
        c == spec_hex_char(d as nat),
{
    if d == 0 {
        '0'
    } else if d == 1 {
        '1'
    } else if d == 2 {
        '2'
    } else if d == 3 {
        '3'
    } else if d == 4 {
        '4'
    } else if d == 5 {
        '5'
    } else if d == 6 {
        '6'
    } else if d == 7 {
        '7'
    } else if d == 8 {
        '8'
    } else if d == 9 {
        '9'
    } else if d == 10 {
        'a'
    } else if d == 11 {
        'b'
    } else if d == 12 {
        'c'
    } else if d == 13 {
        'd'
    } else if d == 14 {
        'e'
    } else {
        'f'
    }
}

fn push_escaped_char(c: char, out: &mut Vec<char>)
    ensures
        final(out)@ == old(out)@ + spec_escape_char(c),
{
    if c == '"' {
        out.push('\\');
        out.push('"');
    } else if c == '\\' {
        out.push('\\');
        out.push('\\');
    } else if c == '\n' {
        out.push('\\');
        out.push('n');
    } else if c == '\r' {
        out.push('\\');
        out.push('r');
    } else if c == '\t' {
        out.push('\\');
        out.push('t');
    } else if (c as u32) < 32 {
        out.push('\\');
        out.push('u');
        out.push('0');
        out.push('0');
        out.push(hex_char(c as u32 / 16));
        out.push(hex_char(c as u32 % 16));
    } else {
        out.push(c);
    }
    proof {
        assert(final(out)@ =~= old(out)@ + spec_escape_char(c));
    }
}

/// Appends the escaped body of a string literal.
fn push_escaped(s: &str, out: &mut Vec<char>)
    ensures
        final(out)@ == old(out)@ + spec_escape(s@),
{
    let len = s.unicode_len();
    let mut i: usize = 0;
    while i < len
        invariant
            i <= len,
            len == s@.len(),
            out@ == old(out)@ + spec_escape(s@.take(i as int)),
        decreases len - i,
    {
        let c = s.get_char(i);
        proof {
            assert(s@.take(i + 1).drop_last() =~= s@.take(i as int));
            assert(s@.take(i + 1).last() == s@[i as int]);
        }
        push_escaped_char(c, out);
        proof {
            assert(out@ =~= old(out)@ + spec_escape(s@.take(i + 1)));
        }
        i = i + 1;
    }
    proof {
        assert(s@.take(len as int) =~= s@);
    }
}

/// Appends a quoted, escaped string literal.
fn push_str_lit(s: &str, out: &mut Vec<char>)
    ensures
        final(out)@ == old(out)@ + spec_str_lit(s@),
{
    out.push('"');
    push_escaped(s, out);
    out.push('"');
    proof {
        assert(final(out)@ =~= old(out)@ + spec_str_lit(s@));
    }
}

/// Appends the compact JSON text of `v`.
pub fn push_json(v: &Json, out: &mut Vec<char>)
    ensures
        final(out)@ == old(out)@ + spec_ser(v@),
    decreases v,
{
    match v {
        Json::Null => {
            out.push('n');
            out.push('u');
            out.push('l');
            out.push('l');
            proof {
                assert(final(out)@ =~= old(out)@ + spec_ser(v@));
            }
        },
        Json::Bool(b) => {
            if *b {
                out.push('t');
                out.push('r');
                out.push('u');
                out.push('e');
            } else {
                out.push('f');
                out.push('a');
                out.push('l');
                out.push('s');
                out.push('e');
            }
            proof {
                assert(final(out)@ =~= old(out)@ + spec_ser(v@));
            }
        },
        Json::Num(n) => {
            push_dec(*n, out);
        },
        Json::Str(s) => {
            push_str_lit(s.as_str(), out);
        },
        Json::Arr(a) => {
            let ghost av = arr_view(a@);
            out.push('[');
            let mut i: usize = 0;
            while i < a.len()
                invariant
                    i <= a.len(),
                    *v == Json::Arr(*a),
                    av == arr_view(a@),
                    av.len() == a.len(),
                    forall|j: int| 0 <= j < a.len() ==> #[trigger] av[j] == a[j]@,
                    out@ == old(out)@ + seq!['['] + spec_ser_items(av.take(i as int)),
                decreases a.len() - i,
            {
                if i > 0 {
                    out.push(',');
                }
                proof {
                    assert(*v == Json::Arr(*a));
                    assert(decreases_to!(*v => v->Arr_0));
                    assert(decreases_to!(*a => a@[i as int]));
                }
                push_json(&a[i], out);
                proof {
                    assert(av.take(i + 1).drop_last() =~= av.take(i as int));
                    assert(av.take(i + 1).last() == av[i as int]);
                    assert(out@ =~= old(out)@ + seq!['['] + spec_ser_items(av.take(i + 1)));
                }
                i = i + 1;
            }
            out.push(']');
            proof {
                assert(av.take(a.len() as int) =~= av);
                assert(final(out)@ =~= old(out)@ + spec_ser(v@));
            }
        },
        Json::Obj(m) => {
            let ghost mv = fields_view(m@);
            out.push('{');
            let mut i: usize = 0;
            while i < m.len()
                invariant
                    i <= m.len(),
                    *v == Json::Obj(*m),
                    mv == fields_view(m@),
                    mv.len() == m.len(),
                    forall|j: int|
                        0 <= j < m.len() ==> #[trigger] mv[j] == (m[j].0@, m[j].1@),
                    out@ == old(out)@ + seq!['{'] + spec_ser_fields(mv.take(i as int)),
                decreases m.len() - i,
            {
                if i > 0 {
                    out.push(',');
                }
                push_str_lit(m[i].0.as_str(), out);
                out.push(':');
                proof {
                    assert(*v == Json::Obj(*m));
                    assert(decreases_to!(*v => v->Obj_0));
                    assert(decreases_to!(*m => m@[i as int]));
                    assert(decreases_to!(m@[i as int] => m@[i as int].1));
                }
                push_json(&m[i].1, out);
                proof {
                    assert(mv.take(i + 1).drop_last() =~= mv.take(i as int));
                    assert(mv.take(i + 1).last() == mv[i as int]);
                    assert(spec_ser_field(mv[i as int]) =~= spec_str_lit(m@[i as int].0@)
                        + seq![':'] + spec_ser(m@[i as int].1@));
                    assert(out@ =~= old(out)@ + seq!['{'] + spec_ser_fields(mv.take(i + 1)));
                }
                i = i + 1;
            }
            out.push('}');
            proof {
                assert(mv.take(m.len() as int) =~= mv);
                assert(final(out)@ =~= old(out)@ + spec_ser(v@));
            }
        },
    }
}

/// The compact JSON text of `v` as characters.
pub fn render_json(v: &Json) -> (r: Vec<char>)
    ensures
        r@ == spec_ser(v@),
{
    let mut out: Vec<char> = Vec::new();
    push_json(v, &mut out);
    proof {
        assert(out@ =~= spec_ser(v@));
    }
    out
}

} // verus!
