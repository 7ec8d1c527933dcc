use vstd::prelude::*;
use vstd::string::*;

verus! {

/// The decimal digit character for `n`.
pub open spec fn dec_digit(n: int) -> char
    recommends
        0 <= n < 10,
{
    (48 + n) as char
}

/// The decimal rendering of a non-negative integer, without sign or padding.
pub open spec fn dec_chars(n: int) -> Seq<char>
    recommends
        n >= 0,
    decreases n,
{
    if n < 10 {
        seq![dec_digit(n)]
    } else {
        dec_chars(n / 10).push(dec_digit(n % 10))
    }
}

/// The decimal rendering of a signed integer: a leading `-` for a negative
/// value, then the digits of its magnitude.
pub open spec fn dec_chars_signed(n: int) -> Seq<char> {
    if n >= 0 {
        dec_chars(n)
    } else {
        seq!['-'] + dec_chars(-n)
    }
}

/// The lowercase hexadecimal digit character for `n`.
pub open spec fn hex_digit(n: int) -> char
    recommends
        0 <= n < 16,
{
    if n < 10 {
        (48 + n) as char
    } else {
        (87 + n) as char
    }
}

/// The JSON rendering of a boolean.
pub open spec fn bool_chars(b: bool) -> Seq<char> {
    if b {
        "true"@
    } else {
        "false"@
    }
}

/// How one character is written inside a JSON string: quote and backslash
/// get a backslash escape, the named control characters their short escapes,
/// any other control character a `\u00..` escape, and everything else stands
/// as itself.
pub open spec fn json_escape_char(c: char) -> Seq<char> {
    if c == '"' {
        seq!['\\', '"']
    } else if c == '\\' {
        seq!['\\', '\\']
    } else if c == '\n' {
        seq!['\\', 'n']
    } else if c == '\r' {
        seq!['\\', 'r']
    } else if c == '\t' {
        seq!['\\', 't']
    } else if c == '\u{8}' {
        seq!['\\', 'b']
    } else if c == '\u{c}' {
        seq!['\\', 'f']
    } else if (c as int) < 32 {
        seq!['\\', 'u', '0', '0', hex_digit(c as int / 16), hex_digit(c as int % 16)]
    } else {
        seq![c]
    }
}

/// The body of a JSON string: every character escaped as JSON asks.
pub open spec fn json_escape(s: Seq<char>) -> Seq<char>
    decreases s.len(),
{
    if s.len() == 0 {
        Seq::<char>::empty()
    } else {
        json_escape(s.drop_last()) + json_escape_char(s.last())
    }
}

/// A complete JSON string: the escaped body between double quotes.
pub open spec fn json_string(s: Seq<char>) -> Seq<char> {
    seq!['"'] + json_escape(s) + seq!['"']
}

/// A JSON string or `null`, for an optional field.
pub open spec fn json_string_opt(s: Option<Seq<char>>) -> Seq<char> {
    match s {
        Some(v) => json_string(v),
        None => "null"@,
    }
}

/// Escaping distributes over extending a string by one character.
pub proof fn lemma_json_escape_push(s: Seq<char>, i: int)
    requires
        0 <= i < s.len(),
    ensures
        json_escape(s.subrange(0, i + 1)) == json_escape(s.subrange(0, i)) + json_escape_char(
            s[i],
        ),
{
    let t = s.subrange(0, i + 1);
    assert(t.drop_last() =~= s.subrange(0, i));
    assert(t.last() == s[i]);
}

/// Relies on `String: FromIterator<char>`: collecting characters yields the
/// string of exactly those characters, in order.
#[verifier::external_body]
pub fn chars_to_string(v: &Vec<char>) -> (r: String)
    ensures
        r@ == v@,
{
    v.iter().collect()
}

/// Append every character of `s` to `out`.
pub fn append_str_chars(out: &mut Vec<char>, s: &str)
    ensures
        final(out)@ == old(out)@ + s@,
{
    let n: usize = s.unicode_len();
    let mut i: usize = 0;
    while i < n
        invariant
            n == s@.len(),
            i <= n,
            out@ == old(out)@ + s@.subrange(0, i as int),
        decreases n - i,
    {
        out.push(s.get_char(i));
        proof {
            assert(old(out)@ + s@.subrange(0, i + 1) =~= (old(out)@ + s@.subrange(
                0,
                i as int,
            )).push(s@[i as int]));
        }
        i += 1;
    }
    proof {
        assert(s@.subrange(0, n as int) =~= s@);
    }
}

/// Append the decimal digits of `n` to `out`.
pub fn append_dec_u32(out: &mut Vec<char>, n: u32)
    ensures
        final(out)@ == old(out)@ + dec_chars(n as int),
    decreases n,
{
    if n < 10 {
        out.push((48 + n as u8) as char);
    } else {
        append_dec_u32(out, n / 10);
        out.push((48 + (n % 10) as u8) as char);
    }
}

/// Append the decimal rendering of a signed 8-bit value to `out`.
pub fn append_dec_i8(out: &mut Vec<char>, n: i8)
    ensures
        final(out)@ == old(out)@ + dec_chars_signed(n as int),
{
    if n < 0 {
        out.push('-');
        let m: u32 = (-(n as i32)) as u32;
        append_dec_u32(out, m);
        proof {
            assert(old(out)@ + dec_chars_signed(n as int) =~= old(out)@.push('-') + dec_chars(
                m as int,
            ));
        }
    } else {
        append_dec_u32(out, n as u32);
    }
}

/// Append the JSON rendering of a boolean to `out`.
pub fn append_bool(out: &mut Vec<char>, b: bool)
    ensures
        final(out)@ == old(out)@ + bool_chars(b),
{
    if b {
        append_str_chars(out, "true");
    } else {
        append_str_chars(out, "false");
    }
}

/// Append one escaped character of a JSON string body to `out`.
fn append_escaped_char(out: &mut Vec<char>, c: char)
    ensures
        final(out)@ == old(out)@ + json_escape_char(c),
{
    if c == '"' {
        append_str_chars(out, "\\\"");
        proof {
            reveal_strlit("\\\"");
            assert("\\\""@ =~= seq!['\\', '"']);
        }
    } else if c == '\\' {
        append_str_chars(out, "\\\\");
        proof {
            reveal_strlit("\\\\");
            assert("\\\\"@ =~= seq!['\\', '\\']);
        }
    } else if c == '\n' {
        append_str_chars(out, "\\n");
        proof {
            reveal_strlit("\\n");
            assert("\\n"@ =~= seq!['\\', 'n']);
        }
    } else if c == '\r' {
        append_str_chars(out, "\\r");
        proof {
            reveal_strlit("\\r");
            assert("\\r"@ =~= seq!['\\', 'r']);
        }
    } else if c == '\t' {
        append_str_chars(out, "\\t");
        proof {
            reveal_strlit("\\t");
            assert("\\t"@ =~= seq!['\\', 't']);
        }
    } else if c == '\u{8}' {
        append_str_chars(out, "\\b");
        proof {
            reveal_strlit("\\b");
            assert("\\b"@ =~= seq!['\\', 'b']);
        }
    } else if c == '\u{c}' {
        append_str_chars(out, "\\f");
        proof {
            reveal_strlit("\\f");
            assert("\\f"@ =~= seq!['\\', 'f']);
        }
    } else if (c as u32) < 32 {
        append_str_chars(out, "\\u00");
        let code: u32 = c as u32;
        let hi: u8 = (code / 16) as u8;
        let lo: u8 = (code % 16) as u8;
        out.push(if hi < 10 {
            (48 + hi) as char
        } else {
            (87 + hi) as char
        });
        out.push(if lo < 10 {
            (48 + lo) as char
        } else {
            (87 + lo) as char
        });
        proof {
            reveal_strlit("\\u00");
            assert(out@ =~= old(out)@ + json_escape_char(c));
        }
    } else {
        out.push(c);
        proof {
            assert(out@ =~= old(out)@ + json_escape_char(c));
        }
    }
}

/// Append a complete JSON string — quotes and escaped body — to `out`.
pub fn append_json_string(out: &mut Vec<char>, s: &str)
    ensures
        final(out)@ == old(out)@ + json_string(s@),
{
    out.push('"');
    let n: usize = s.unicode_len();
    let mut i: usize = 0;
    while i < n
        invariant
            n == s@.len(),
            i <= n,
            out@ == old(out)@.push('"') + json_escape(s@.subrange(0, i as int)),
        decreases n - i,
    {
        let c: char = s.get_char(i);
        append_escaped_char(out, c);
        proof {
            lemma_json_escape_push(s@, i as int);
            assert(old(out)@.push('"') + json_escape(s@.subrange(0, i + 1)) =~= (old(
                out,
            )@.push('"') + json_escape(s@.subrange(0, i as int))) + json_escape_char(s@[i as int]));
        }
        i += 1;
    }
    out.push('"');
    proof {
        assert(s@.subrange(0, n as int) =~= s@);
        assert(out@ =~= old(out)@ + json_string(s@));
    }
}

/// Append a JSON string for `Some`, or `null` for `None`, to `out`.
pub fn append_json_string_opt(out: &mut Vec<char>, s: &Option<String>)
    ensures
        final(out)@ == old(out)@ + json_string_opt(match s {
            Some(v) => Some(v@),
            None => None,
        }),
{
    match s {
        Some(v) => append_json_string(out, v.as_str()),
        None => append_str_chars(out, "null"),
    }
}

} // verus!
