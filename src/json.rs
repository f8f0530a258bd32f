use vstd::prelude::*;
use vstd::string::StrSliceExecFns;

use crate::text::{decimal_digits, push_char, push_decimal, push_str};

verus! {

broadcast use vstd::std_specs::vec::group_vec_axioms, vstd::seq::group_seq_axioms;

/// A JSON request body. Object entries keep the order they are given in.
#[derive(Debug)]
pub enum JsonBody {
    Null,
    Bool(bool),
    UInt(u64),
    Str(String),
    Array(Vec<JsonBody>),
    Object(Vec<(String, JsonBody)>),
}

/// An object entry whose value is a string.
pub open spec fn is_str_entry(e: (String, JsonBody), key: Seq<char>, value: Seq<char>) -> bool {
    e.0@ == key && (e.1 matches JsonBody::Str(s) && s@ == value)
}

/// An object entry whose value is an unsigned number.
pub open spec fn is_uint_entry(e: (String, JsonBody), key: Seq<char>, value: nat) -> bool {
    e.0@ == key && (e.1 matches JsonBody::UInt(n) && n == value)
}

/// An object entry `key: value` with a string value.
pub fn str_entry(key: &str, value: &String) -> (r: (String, JsonBody))
    ensures
        is_str_entry(r, key@, value@),
{
    (key.to_owned(), JsonBody::Str(value.clone()))
}

/// An object entry `key: value` with a numeric value.
pub fn uint_entry(key: &str, value: u64) -> (r: (String, JsonBody))
    ensures
        is_uint_entry(r, key@, value as nat),
{
    (key.to_owned(), JsonBody::UInt(value))
}

/// The lowercase hexadecimal digit for `d < 16`.
pub open spec fn hex_digit(d: nat) -> char {
    if d < 10 {
        (('0' as u8) + d) as char
    } else {
        (('a' as u8) + (d - 10)) as char
    }
}

/// One character inside a JSON string: quote, backslash and control
/// characters escaped, everything else as it is.
pub open spec fn escape_char(c: char) -> Seq<char> {
    if c == '"' {
        "\\\""@
    } else if c == '\\' {
        "\\\\"@
    } else if c == '\n' {
        "\\n"@
    } else if c == '\r' {
        "\\r"@
    } else if c == '\t' {
        "\\t"@
    } else if c == '\u{8}' {
        "\\b"@
    } else if c == '\u{c}' {
        "\\f"@
    } else if (c as u32) < 0x20 {
        "\\u00"@ + seq![hex_digit((c as u32 / 16) as nat), hex_digit((c as u32 % 16) as nat)]
    } else {
        seq![c]
    }
}

/// The characters of a JSON string literal, without the quotes.
pub open spec fn escape(s: Seq<char>) -> Seq<char>
    decreases s.len(),
{
    if s.len() == 0 {
        seq![]
    } else {
        escape(s.drop_last()) + escape_char(s.last())
    }
}

/// A JSON string literal.
pub open spec fn quoted(s: Seq<char>) -> Seq<char> {
    seq!['"'] + escape(s) + seq!['"']
}

/// The canonical text of a body: no whitespace but for `", "` between
/// entries and `": "` between a key and its value.
pub open spec fn canonical(v: JsonBody) -> Seq<char>
    decreases v,
{
    match v {
        JsonBody::Null => "null"@,
        JsonBody::Bool(b) => if b {
            "true"@
        } else {
            "false"@
        },
        JsonBody::UInt(n) => decimal_digits(n as nat),
        JsonBody::Str(s) => quoted(s@),
        JsonBody::Array(items) => seq!['['] + canonical_items(items@) + seq![']'],
        JsonBody::Object(entries) => seq!['{'] + canonical_entries(entries@) + seq!['}'],
    }
}

/// Array elements separated by `", "`.
pub open spec fn canonical_items(items: Seq<JsonBody>) -> Seq<char>
    decreases items,
{
    if items.len() == 0 {
        seq![]
    } else if items.len() == 1 {
        canonical(items[0])
    } else {
        canonical_items(items.drop_last()) + ", "@ + canonical(items.last())
    }
}

/// Object entries `"key": value` separated by `", "`.
pub open spec fn canonical_entries(entries: Seq<(String, JsonBody)>) -> Seq<char>
    decreases entries,
{
    if entries.len() == 0 {
        seq![]
    } else if entries.len() == 1 {
        quoted(entries[0].0@) + ": "@ + canonical(entries[0].1)
    } else {
        canonical_entries(entries.drop_last()) + ", "@ + quoted(entries.last().0@) + ": "@
            + canonical(entries.last().1)
    }
}

fn hex(d: u32) -> (c: char)
    requires
        d < 16,
    ensures
        c == hex_digit(d as nat),
{
    if d < 10 {
        (('0' as u8) + d as u8) as char
    } else {
        (('a' as u8) + (d - 10) as u8) as char
    }
}

fn push_escaped_char(out: &mut String, c: char)
    ensures
        final(out)@ == old(out)@ + escape_char(c),
{
    if c == '"' {
        push_str(out, "\\\"");
    } else if c == '\\' {
        push_str(out, "\\\\");
    } else if c == '\n' {
        push_str(out, "\\n");
    } else if c == '\r' {
        push_str(out, "\\r");
    } else if c == '\t' {
        push_str(out, "\\t");
    } else if c == '\u{8}' {
        push_str(out, "\\b");
    } else if c == '\u{c}' {
        push_str(out, "\\f");
    } else if (c as u32) < 0x20 {
        let ghost start = out@;
        push_str(out, "\\u00");
        push_char(out, hex(c as u32 / 16));
        push_char(out, hex(c as u32 % 16));
        proof {
            assert(out@ =~= start + escape_char(c));
        }
    } else {
        let ghost start = out@;
        push_char(out, c);
        proof {
            assert(out@ =~= start + escape_char(c));
        }
    }
}

/// Appends `s` as a JSON string literal, quotes included.
pub fn push_quoted(out: &mut String, s: &str)
    ensures
        final(out)@ == old(out)@ + quoted(s@),
{
    let ghost start = out@;
    push_char(out, '"');
    let n = s.unicode_len();
    let mut i: usize = 0;
    while i < n
        invariant
            n == s@.len(),
            i <= n,
            out@ == start + seq!['"'] + escape(s@.subrange(0, i as int)),
        decreases n - i,
    {
        let c = s.get_char(i);
        push_escaped_char(out, c);
        proof {
            let sub = s@.subrange(0, i + 1);
            assert(sub.drop_last() =~= s@.subrange(0, i as int));
            assert(sub.last() == c);
        }
        i = i + 1;
    }
    push_char(out, '"');
    proof {
        assert(s@.subrange(0, n as int) =~= s@);
        assert(out@ =~= start + quoted(s@));
    }
}

/// Appends the canonical text of `v`.
pub fn write_canonical(v: &JsonBody, out: &mut String)
    ensures
        final(out)@ == old(out)@ + canonical(*v),
    decreases v,
{
    let ghost start = out@;
    match v {
        JsonBody::Null => push_str(out, "null"),
        JsonBody::Bool(b) => {
            if *b {
                push_str(out, "true");
            } else {
                push_str(out, "false");
            }
        },
        JsonBody::UInt(n) => push_decimal(out, *n),
        JsonBody::Str(s) => push_quoted(out, s.as_str()),
        JsonBody::Array(items) => {
            push_char(out, '[');
            let mut i: usize = 0;
            while i < items.len()
                invariant
                    i <= items.len(),
                    *v == JsonBody::Array(*items),
                    out@ == start + seq!['['] + canonical_items(items@.subrange(0, i as int)),
                decreases items.len() - i,
            {
                if i > 0 {
                    push_str(out, ", ");
                }
                proof {
                    let ghost w = *v;
                    assert(decreases_to!(w => w->Array_0));
                    assert(decreases_to!(*items => items@));
                    assert(decreases_to!(items@ => items@[i as int]));
                    assert(decreases_to!(w => items@[i as int]));
                }
                write_canonical(&items[i], out);
                proof {
                    let sub = items@.subrange(0, i + 1);
                    assert(sub.drop_last() =~= items@.subrange(0, i as int));
                    assert(sub.last() == items@[i as int]);
                    if i == 0 {
                        assert(sub[0] == items@[0]);
                        assert(canonical_items(items@.subrange(0, 0)) =~= seq![]);
                    }
                    assert(out@ =~= start + seq!['['] + canonical_items(sub));
                }
                i = i + 1;
            }
            push_char(out, ']');
            proof {
                assert(items@.subrange(0, items@.len() as int) =~= items@);
                assert(out@ =~= start + canonical(*v));
            }
        },
        JsonBody::Object(entries) => {
            push_char(out, '{');
            let mut i: usize = 0;
            while i < entries.len()
                invariant
                    i <= entries.len(),
                    *v == JsonBody::Object(*entries),
                    out@ == start + seq!['{'] + canonical_entries(entries@.subrange(0, i as int)),
                decreases entries.len() - i,
            {
                if i > 0 {
                    push_str(out, ", ");
                }
                push_quoted(out, entries[i].0.as_str());
                push_str(out, ": ");
                proof {
                    let ghost w = *v;
                    assert(decreases_to!(w => w->Object_0));
                    assert(decreases_to!(*entries => entries@));
                    assert(decreases_to!(entries@ => entries@[i as int]));
                    assert(decreases_to!(entries@[i as int] => entries@[i as int].1));
                    assert(decreases_to!(w => entries@[i as int].1));
                }
                write_canonical(&entries[i].1, out);
                proof {
                    let sub = entries@.subrange(0, i + 1);
                    assert(sub.drop_last() =~= entries@.subrange(0, i as int));
                    assert(sub.last() == entries@[i as int]);
                    if i == 0 {
                        assert(sub[0] == entries@[0]);
                        assert(canonical_entries(entries@.subrange(0, 0)) =~= seq![]);
                    }
                    assert(out@ =~= start + seq!['{'] + canonical_entries(sub));
                }
                i = i + 1;
            }
            push_char(out, '}');
            proof {
                assert(entries@.subrange(0, entries@.len() as int) =~= entries@);
                assert(out@ =~= start + canonical(*v));
            }
        },
    }
}

/// The canonical text of a request body: the exact string that is signed
/// and sent.
pub fn format_hmac_body(body: &JsonBody) -> (r: String)
    ensures
        r@ == canonical(*body),
{
    let mut out = String::new();
    write_canonical(body, &mut out);
    proof {
        assert(out@ =~= canonical(*body));
    }
    out
}

} // verus!
