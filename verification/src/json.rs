//! The wire-contract JSON emitter: serializes the `{name, expression,
//! dialogue, endMessage}` reply shape exactly as the model is expected to keep
//! producing it, so that the model is shown its own prior replies in that
//! shape. Keys are emitted in sorted order; string escaping covers the quote,
//! the backslash and the control characters below `0x20`.

use vstd::prelude::*;
use crate::strutil::push_char;

verus! {

/// A present-or-null string field, by view.
pub open spec fn opt_view(v: Option<String>) -> Option<Seq<char>> {
    match v {
        Option::None => Option::None,
        Option::Some(s) => Option::Some(s@),
    }
}

/// The lowercase hex digit for a value below 16.
pub open spec fn spec_hex_digit(d: int) -> char {
    if d == 0 { '0' } else if d == 1 { '1' } else if d == 2 { '2' } else if d == 3 { '3' }
    else if d == 4 { '4' } else if d == 5 { '5' } else if d == 6 { '6' } else if d == 7 { '7' }
    else if d == 8 { '8' } else if d == 9 { '9' } else if d == 10 { 'a' } else if d == 11 { 'b' }
    else if d == 12 { 'c' } else if d == 13 { 'd' } else if d == 14 { 'e' } else { 'f' }
}

/// What one character of a JSON string becomes in its serialized form:
/// `"` and `\` take a backslash, the named control characters take their
/// short escapes, the remaining control characters take `\u00` and two hex
/// digits, and every other character stands for itself.
pub open spec fn escape_char(c: char) -> Seq<char> {
    if c == '"' { seq!['\\', '"'] }
    else if c == '\\' { seq!['\\', '\\'] }
    else if c == '\u{8}' { seq!['\\', 'b'] }
    else if c == '\t' { seq!['\\', 't'] }
    else if c == '\n' { seq!['\\', 'n'] }
    else if c == '\u{c}' { seq!['\\', 'f'] }
    else if c == '\r' { seq!['\\', 'r'] }
    else if (c as u32) < 0x20 {
        seq!['\\', 'u', '0', '0', spec_hex_digit(c as u32 as int / 16), spec_hex_digit(
            c as u32 as int % 16,
        )]
    } else { seq![c] }
}

/// The serialized body of a JSON string: each character escaped in order.
pub open spec fn json_escape(s: Seq<char>) -> Seq<char>
    decreases s.len(),
{
    if s.len() == 0 {
        Seq::empty()
    } else {
        escape_char(s[0]) + json_escape(s.skip(1))
    }
}

/// A JSON string literal: the escaped body between double quotes.
pub open spec fn json_string(s: Seq<char>) -> Seq<char> {
    seq!['"'] + json_escape(s) + seq!['"']
}

/// An optional string field's value: a JSON string when present, else `null`.
pub open spec fn json_opt(v: Option<Seq<char>>) -> Seq<char> {
    match v {
        Option::None => "null"@,
        Option::Some(s) => json_string(s),
    }
}

/// The serialized reply object, keys in sorted order, every key present,
/// absent fields as `null`.
pub open spec fn reply_json(
    name: Option<Seq<char>>,
    dialogue: Option<Seq<char>>,
    expression: Option<Seq<char>>,
    end_message: Option<Seq<char>>,
) -> Seq<char> {
    "{\"dialogue\":"@ + json_opt(dialogue) + ",\"endMessage\":"@ + json_opt(end_message)
        + ",\"expression\":"@ + json_opt(expression) + ",\"name\":"@ + json_opt(name) + "}"@
}

/// Escaping a concatenation escapes the parts in order.
proof fn lemma_json_escape_concat(a: Seq<char>, b: Seq<char>)
    ensures
        json_escape(a + b) == json_escape(a) + json_escape(b),
    decreases a.len(),
{
    if a.len() == 0 {
        assert(a + b =~= b);
        assert(json_escape(a) + json_escape(b) =~= json_escape(b));
    } else {
        lemma_json_escape_concat(a.skip(1), b);
        assert((a + b).skip(1) =~= a.skip(1) + b);
        assert((a + b)[0] == a[0]);
        assert(json_escape(a + b) == escape_char(a[0]) + (json_escape(a.skip(1)) + json_escape(b)));
        assert(escape_char(a[0]) + (json_escape(a.skip(1)) + json_escape(b)) =~= (escape_char(a[0])
            + json_escape(a.skip(1))) + json_escape(b));
    }
}

/// The lowercase hex digit for a value below 16.
fn hex_digit(d: u32) -> (r: char)
    requires
        d < 16,
    ensures
        r == spec_hex_digit(d as int),
{
    match d {
        0 => '0',
        1 => '1',
        2 => '2',
        3 => '3',
        4 => '4',
        5 => '5',
        6 => '6',
        7 => '7',
        8 => '8',
        9 => '9',
        10 => 'a',
        11 => 'b',
        12 => 'c',
        13 => 'd',
        14 => 'e',
        _ => 'f',
    }
}

/// Append one character's escaped form to `out`.
fn append_escaped_char(out: &mut String, c: char)
    ensures
        final(out)@ == old(out)@ + escape_char(c),
{
    let ghost start = out@;
    if c == '"' {
        push_char(out, '\\');
        push_char(out, '"');
    } else if c == '\\' {
        push_char(out, '\\');
        push_char(out, '\\');
    } else if c == '\u{8}' {
        push_char(out, '\\');
        push_char(out, 'b');
    } else if c == '\t' {
        push_char(out, '\\');
        push_char(out, 't');
    } else if c == '\n' {
        push_char(out, '\\');
        push_char(out, 'n');
    } else if c == '\u{c}' {
        push_char(out, '\\');
        push_char(out, 'f');
    } else if c == '\r' {
        push_char(out, '\\');
        push_char(out, 'r');
    } else if (c as u32) < 0x20 {
        let code = c as u32;
        push_char(out, '\\');
        push_char(out, 'u');
        push_char(out, '0');
        push_char(out, '0');
        push_char(out, hex_digit(code / 16));
        push_char(out, hex_digit(code % 16));
    } else {
        push_char(out, c);
    }
    proof {
        assert(out@ =~= start + escape_char(c));
    }
}

/// Append the serialized body of a JSON string to `out`.
fn append_escaped(out: &mut String, s: &Vec<char>)
    ensures
        final(out)@ == old(out)@ + json_escape(s@),
{
    let ghost start = out@;
    let mut i: usize = 0;
    proof {
        assert(s@.take(0) =~= Seq::<char>::empty());
        assert(start + json_escape(s@.take(0)) =~= start);
    }
    while i < s.len()
        invariant
            i <= s@.len(),
            out@ == start + json_escape(s@.take(i as int)),
        decreases s@.len() - i,
    {
        append_escaped_char(out, s[i]);
        i = i + 1;
        proof {
            let prefix = s@.take(i - 1);
            let one = seq![s@[i - 1]];
            lemma_json_escape_concat(prefix, one);
            assert(s@.take(i as int) =~= prefix + one);
            assert(one.skip(1) =~= Seq::<char>::empty());
            assert(json_escape(one.skip(1)) == Seq::<char>::empty());
            assert(one[0] == s@[i - 1]);
            assert(escape_char(one[0]) + Seq::<char>::empty() =~= escape_char(one[0]));
            assert(json_escape(one) =~= escape_char(s@[i - 1]));
            assert(start + (json_escape(prefix) + json_escape(one)) =~= (start + json_escape(
                prefix,
            )) + escape_char(s@[i - 1]));
        }
    }
    proof {
        assert(s@.take(s@.len() as int) =~= s@);
    }
}

/// Append a JSON string literal (or `null` when absent) to `out`.
fn append_json_opt(out: &mut String, v: &Option<String>)
    ensures
        final(out)@ == old(out)@ + json_opt(opt_view(*v)),
{
    match v {
        Option::None => {
            out.append("null");
        },
        Option::Some(s) => {
            let ghost start = out@;
            let chars = crate::strutil::chars_of(s.as_str());
            push_char(out, '"');
            append_escaped(out, &chars);
            push_char(out, '"');
            proof {
                assert(out@ =~= start + json_string(s@));
            }
        },
    }
}

/// Serialize the reply shape `{name, expression, dialogue, endMessage}` with
/// its keys in sorted order, exactly as [`reply_json`] states.
pub fn reply_json_string(
    name: &Option<String>,
    dialogue: &Option<String>,
    expression: &Option<String>,
    end_message: &Option<String>,
) -> (r: String)
    ensures
        r@ == reply_json(opt_view(*name), opt_view(*dialogue), opt_view(*expression), opt_view(
            *end_message,
        )),
{
    let mut out = String::new();
    out.append("{\"dialogue\":");
    append_json_opt(&mut out, dialogue);
    out.append(",\"endMessage\":");
    append_json_opt(&mut out, end_message);
    out.append(",\"expression\":");
    append_json_opt(&mut out, expression);
    out.append(",\"name\":");
    append_json_opt(&mut out, name);
    out.append("}");
    proof {
        assert(out@ =~= reply_json(opt_view(*name), opt_view(*dialogue), opt_view(*expression),
            opt_view(*end_message)));
    }
    out
}

} // verus!
