//! A JSON value model and a verified writer for it. The gateway streams
//! each response event as one JSON text, so the exact character sequence
//! produced here is part of the wire contract.

use vstd::prelude::*;

verus! {

/// A JSON value as the gateway's response payloads carry it.
pub enum JsonValue {
    Null,
    Bool(bool),
    Int(i64),
    Str(String),
    Array(Vec<JsonValue>),
    Object(Vec<(String, JsonValue)>),
}

/// The lower-case hexadecimal digit for d (d < 16).
pub open spec fn hex_char(d: nat) -> char {
    if d == 0 {
        '0'
    } else if d == 1 {
        '1'
    } else if d == 2 {
        '2'
    } else if d == 3 {
        '3'
    } else if d == 4 {
        '4'
    } else if d == 5 {
        '5'
    } else if d == 6 {
        '6'
    } else if d == 7 {
        '7'
    } else if d == 8 {
        '8'
    } else if d == 9 {
        '9'
    } else if d == 10 {
        'a'
    } else if d == 11 {
        'b'
    } else if d == 12 {
        'c'
    } else if d == 13 {
        'd'
    } else if d == 14 {
        'e'
    } else {
        'f'
    }
}

/// The decimal rendering of n, most significant digit first, no sign and
/// no leading zero (except for n == 0 itself).
pub open spec fn dec_digits(n: nat) -> Seq<char>
    decreases n,
{
    if n < 10 {
        seq![hex_char(n)]
    } else {
        dec_digits(n / 10) + seq![hex_char(n % 10)]
    }
}

/// The decimal rendering of i, with a leading minus sign when negative.
pub open spec fn int_text(i: int) -> Seq<char> {
    if i < 0 {
        seq!['-'] + dec_digits((-i) as nat)
    } else {
        dec_digits(i as nat)
    }
}

/// How one character appears inside a JSON string literal: quote and
/// backslash are escaped, the common control characters get their short
/// escapes, any other control character a \u00XX escape, and everything
/// else stands for itself.
pub open spec fn escape_char(c: char) -> Seq<char> {
    if c == '"' {
        "\\\""@
    } else if c == '\\' {
        "\\\\"@
    } else if c == '\n' {
        "\\n"@
    } else if c == '\r' {
        "\\r"@
    } else if c == '\t' {
        "\\t"@
    } else if (c as u32) < 32 {
        "\\u00"@ + seq![hex_char(((c as u32) / 16) as nat), hex_char(((c as u32) % 16) as nat)]
    } else {
        seq![c]
    }
}

/// A whole character sequence escaped for use inside a string literal.
pub open spec fn escaped(s: Seq<char>) -> Seq<char>
    decreases s.len(),
{
    if s.len() == 0 {
        Seq::<char>::empty()
    } else {
        escaped(s.drop_last()) + escape_char(s.last())
    }
}

/// A JSON string literal: the escaped text between double quotes.
pub open spec fn quoted(s: Seq<char>) -> Seq<char> {
    "\""@ + escaped(s) + "\""@
}

/// The serialized form of a value. Object members keep the order in
/// which the value holds them.
pub open spec fn json_text(v: JsonValue) -> Seq<char>
    decreases v,
{
    match v {
        JsonValue::Null => "null"@,
        JsonValue::Bool(b) => if b {
            "true"@
        } else {
            "false"@
        },
        JsonValue::Int(i) => int_text(i as int),
        JsonValue::Str(s) => quoted(s@),
        JsonValue::Array(elems) => "["@ + array_text(elems@) + "]"@,
        JsonValue::Object(fields) => "{"@ + object_text(fields@) + "}"@,
    }
}

/// The comma-separated serialized elements of an array.
pub open spec fn array_text(elems: Seq<JsonValue>) -> Seq<char>
    decreases elems,
{
    if elems.len() == 0 {
        Seq::<char>::empty()
    } else if elems.len() == 1 {
        json_text(elems[0])
    } else {
        array_text(elems.drop_last()) + ","@ + json_text(elems.last())
    }
}

/// One object member: quoted name, colon, serialized value.
pub open spec fn field_text(f: (String, JsonValue)) -> Seq<char>
    decreases f,
{
    quoted(f.0@) + ":"@ + json_text(f.1)
}

/// The comma-separated serialized members of an object.
pub open spec fn object_text(fields: Seq<(String, JsonValue)>) -> Seq<char>
    decreases fields,
{
    if fields.len() == 0 {
        Seq::<char>::empty()
    } else if fields.len() == 1 {
        field_text(fields[0])
    } else {
        object_text(fields.drop_last()) + ","@ + field_text(fields.last())
    }
}

/// The lower-case hexadecimal digit for d as a one-character slice.
fn hex_str(d: u8) -> (r: &'static str)
    requires
        d < 16,
    ensures
        r@ == seq![hex_char(d as nat)],
{
    proof {
        reveal_strlit("0");
        reveal_strlit("1");
        reveal_strlit("2");
        reveal_strlit("3");
        reveal_strlit("4");
        reveal_strlit("5");
        reveal_strlit("6");
        reveal_strlit("7");
        reveal_strlit("8");
        reveal_strlit("9");
        reveal_strlit("a");
        reveal_strlit("b");
        reveal_strlit("c");
        reveal_strlit("d");
        reveal_strlit("e");
        reveal_strlit("f");
    }
    match d {
        0 => "0",
        1 => "1",
        2 => "2",
        3 => "3",
        4 => "4",
        5 => "5",
        6 => "6",
        7 => "7",
        8 => "8",
        9 => "9",
        10 => "a",
        11 => "b",
        12 => "c",
        13 => "d",
        14 => "e",
        _ => "f",
    }
}

/// Writes the decimal rendering of n.
fn write_u64(n: u64, out: &mut String)
    ensures
        final(out)@ == old(out)@ + dec_digits(n as nat),
    decreases n,
{
    if n >= 10 {
        write_u64(n / 10, out);
    }
    out.append(hex_str((n % 10) as u8));
    proof {
        assert(final(out)@ =~= old(out)@ + dec_digits(n as nat));
    }
}

/// Writes the decimal rendering of i, minus sign included.
fn write_i64(i: i64, out: &mut String)
    ensures
        final(out)@ == old(out)@ + int_text(i as int),
{
    if i < 0 {
        proof {
            reveal_strlit("-");
        }
        out.append("-");
        let m: u64 = (-(i as i128)) as u64;
        assert(m as nat == (-(i as int)) as nat);
        write_u64(m, out);
        proof {
            assert("-"@ =~= seq!['-']);
            assert(final(out)@ =~= old(out)@ + int_text(i as int));
        }
    } else {
        write_u64(i as u64, out);
    }
}

/// One escaped-step fact the writer loop needs.
proof fn lemma_escaped_step(s: Seq<char>, i: int)
    requires
        0 <= i < s.len(),
    ensures
        escaped(s.take(i + 1)) == escaped(s.take(i)) + escape_char(s[i]),
{
    assert(s.take(i + 1).drop_last() =~= s.take(i));
    assert(s.take(i + 1).last() == s[i]);
}

/// Writes s with every character escaped as `escape_char` says.
fn write_escaped(s: &String, out: &mut String)
    ensures
        final(out)@ == old(out)@ + escaped(s@),
{
    let n = s.as_str().unicode_len();
    let ghost base: Seq<char> = out@;
    let mut i: usize = 0;
    while i < n
        invariant
            n == s@.len(),
            0 <= i <= n,
            out@ == base + escaped(s@.take(i as int)),
        decreases n - i,
    {
        let c = s.as_str().get_char(i);
        proof {
            lemma_escaped_step(s@, i as int);
        }
        if c == '"' {
            proof {
                reveal_strlit("\\\"");
            }
            out.append("\\\"");
        } else if c == '\\' {
            proof {
                reveal_strlit("\\\\");
            }
            out.append("\\\\");
        } else if c == '\n' {
            proof {
                reveal_strlit("\\n");
            }
            out.append("\\n");
        } else if c == '\r' {
            proof {
                reveal_strlit("\\r");
            }
            out.append("\\r");
        } else if c == '\t' {
            proof {
                reveal_strlit("\\t");
            }
            out.append("\\t");
        } else {
            let code = c as u32;
            if code < 32 {
                out.append("\\u00");
                out.append(hex_str((code / 16) as u8));
                out.append(hex_str((code % 16) as u8));
                proof {
                    assert(seq![hex_char(((c as u32) / 16) as nat)] + seq![
                        hex_char(((c as u32) % 16) as nat),
                    ] =~= seq![
                        hex_char(((c as u32) / 16) as nat),
                        hex_char(((c as u32) % 16) as nat),
                    ]);
                    assert(out@ =~= base + escaped(s@.take(i as int)) + escape_char(c));
                }
            } else {
                let piece = s.as_str().substring_char(i, i + 1);
                proof {
                    assert(piece@ =~= seq![c]);
                }
                out.append(piece);
            }
        }
        proof {
            assert(out@ =~= base + escaped(s@.take(i as int + 1)));
        }
        i = i + 1;
    }
    proof {
        assert(s@.take(n as int) =~= s@);
    }
}

/// Writes s as a JSON string literal.
pub(crate) fn write_quoted(s: &String, out: &mut String)
    ensures
        final(out)@ == old(out)@ + quoted(s@),
{
    out.append("\"");
    write_escaped(s, out);
    out.append("\"");
    proof {
        assert(final(out)@ =~= old(out)@ + quoted(s@));
    }
}

/// One array-step fact the writer loop needs.
proof fn lemma_array_text_step(elems: Seq<JsonValue>, i: int)
    requires
        0 <= i < elems.len(),
    ensures
        array_text(elems.take(i + 1)) == if i == 0 {
            json_text(elems[0])
        } else {
            array_text(elems.take(i)) + ","@ + json_text(elems[i])
        },
{
    if i == 0 {
        assert(elems.take(1)[0] == elems[0]);
    } else {
        assert(elems.take(i + 1).drop_last() =~= elems.take(i));
        assert(elems.take(i + 1).last() == elems[i]);
    }
}

/// One object-step fact the writer loop needs.
proof fn lemma_object_text_step(fields: Seq<(String, JsonValue)>, i: int)
    requires
        0 <= i < fields.len(),
    ensures
        object_text(fields.take(i + 1)) == if i == 0 {
            field_text(fields[0])
        } else {
            object_text(fields.take(i)) + ","@ + field_text(fields[i])
        },
{
    if i == 0 {
        assert(fields.take(1)[0] == fields[0]);
    } else {
        assert(fields.take(i + 1).drop_last() =~= fields.take(i));
        assert(fields.take(i + 1).last() == fields[i]);
    }
}

/// Writes the serialized form of v after whatever out already holds.
pub fn write_value(v: &JsonValue, out: &mut String)
    ensures
        final(out)@ == old(out)@ + json_text(*v),
    decreases *v,
{
    match v {
        JsonValue::Null => {
            out.append("null");
        },
        JsonValue::Bool(b) => {
            if *b {
                out.append("true");
            } else {
                out.append("false");
            }
        },
        JsonValue::Int(i) => {
            write_i64(*i, out);
        },
        JsonValue::Str(s) => {
            write_quoted(s, out);
        },
        JsonValue::Array(elems) => {
            out.append("[");
            let ghost base: Seq<char> = out@;
            let mut i: usize = 0;
            while i < elems.len()
                invariant
                    0 <= i <= elems@.len(),
                    out@ == base + array_text(elems@.take(i as int)),
                    *v == JsonValue::Array(*elems),
                decreases elems@.len() - i,
            {
                proof {
                    lemma_array_text_step(elems@, i as int);
                    assert(decreases_to!(*v => v->Array_0));
                    assert(decreases_to!(v->Array_0 => v->Array_0@));
                    assert(decreases_to!(v->Array_0@ => v->Array_0@[i as int]));
                    assert(v->Array_0@[i as int] == elems@[i as int]);
                }
                if i > 0 {
                    out.append(",");
                }
                write_value(&elems[i], out);
                proof {
                    assert(out@ =~= base + array_text(elems@.take(i as int + 1)));
                }
                i = i + 1;
            }
            out.append("]");
            proof {
                assert(elems@.take(elems@.len() as int) =~= elems@);
                assert(final(out)@ =~= old(out)@ + json_text(*v));
            }
        },
        JsonValue::Object(fields) => {
            out.append("{");
            let ghost base: Seq<char> = out@;
            let mut i: usize = 0;
            while i < fields.len()
                invariant
                    0 <= i <= fields@.len(),
                    out@ == base + object_text(fields@.take(i as int)),
                    *v == JsonValue::Object(*fields),
                decreases fields@.len() - i,
            {
                proof {
                    lemma_object_text_step(fields@, i as int);
                    assert(decreases_to!(*v => v->Object_0));
                    assert(decreases_to!(v->Object_0 => v->Object_0@));
                    assert(decreases_to!(v->Object_0@ => v->Object_0@[i as int]));
                    assert(decreases_to!(fields@[i as int] => fields@[i as int].1));
                    assert(v->Object_0@[i as int] == fields@[i as int]);
                }
                if i > 0 {
                    out.append(",");
                }
                write_quoted(&fields[i].0, out);
                out.append(":");
                write_value(&fields[i].1, out);
                proof {
                    assert(out@ =~= base + object_text(fields@.take(i as int + 1)));
                }
                i = i + 1;
            }
            out.append("}");
            proof {
                assert(fields@.take(fields@.len() as int) =~= fields@);
                assert(final(out)@ =~= old(out)@ + json_text(*v));
            }
        },
    }
}

/// The serialized form of v as a fresh string.
pub fn json_to_string(v: &JsonValue) -> (s: String)
    ensures
        s@ == json_text(*v),
{
    let mut out = String::new();
    write_value(v, &mut out);
    proof {
        assert(out@ =~= json_text(*v));
    }
    out
}

} // verus!
