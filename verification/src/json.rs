use vstd::prelude::*;
use vstd::string::StrSliceExecFns;
use vstd::string::StringExecFns;
use crate::text::append_dec_i64;
use crate::text::dec_of_i64;
use crate::text::digit_char;

verus! {

/// The lower-case hexadecimal digit for a value between 0 and 15.
pub open spec fn hex_char(d: int) -> char
    recommends
        0 <= d <= 15,
{
    if d <= 9 {
        digit_char(d)
    } else if d == 10 { 'a' }
    else if d == 11 { 'b' }
    else if d == 12 { 'c' }
    else if d == 13 { 'd' }
    else if d == 14 { 'e' }
    else { 'f' }
}

/// How one character appears inside a JSON string: quote and backslash get a
/// backslash escape, control characters a `\u00xx` escape, and every other
/// character stands as itself.
pub open spec fn json_escape_char(c: char) -> Seq<char> {
    if c == '"' {
        seq!['\\', '"']
    } else if c == '\\' {
        seq!['\\', '\\']
    } else if (c as u32) < 32 {
        seq!['\\', 'u', '0', '0', hex_char(c as u32 as int / 16), hex_char(c as u32 as int % 16)]
    } else {
        seq![c]
    }
}

/// JSON-escapes a whole text, character by character.
pub open spec fn json_escape(s: Seq<char>) -> Seq<char>
    decreases s.len(),
{
    if s.len() == 0 {
        Seq::empty()
    } else {
        json_escape(s.drop_last()) + json_escape_char(s.last())
    }
}

/// The JSON body acknowledging a successful write: an object with the single
/// key `timestamp` and the assigned timestamp as its value.
pub open spec fn json_timestamp_body(ts: int) -> Seq<char> {
    "{\"timestamp\":"@ + dec_of_i64(ts) + "}"@
}

/// The JSON body reporting a failure: an object with the single key `error`
/// and the (escaped) error text as its value.
pub open spec fn json_error_body(message: Seq<char>) -> Seq<char> {
    "{\"error\":\""@ + json_escape(message) + "\"}"@
}

/// Appends the two lower-case hex digits of `b` (a value below 256) to `out`.
fn append_hex_pair(out: &mut String, b: u32)
    requires
        b < 256,
    ensures
        final(out)@ == old(out)@ + seq![hex_char(b as int / 16), hex_char(b as int % 16)],
{
    append_hex_digit(out, b / 16);
    append_hex_digit(out, b % 16);
    proof {
        assert(old(out)@.push(hex_char(b as int / 16)).push(hex_char(b as int % 16)) =~= old(
            out,
        )@ + seq![hex_char(b as int / 16), hex_char(b as int % 16)]);
    }
}

/// Appends the single lower-case hex digit `d` to `out`.
fn append_hex_digit(out: &mut String, d: u32)
    requires
        d <= 15,
    ensures
        final(out)@ == old(out)@.push(hex_char(d as int)),
{
    if d == 0 {
        out.append("0");
        proof { reveal_strlit("0"); assert(old(out)@ + "0"@ =~= old(out)@.push('0')); }
    } else if d == 1 {
        out.append("1");
        proof { reveal_strlit("1"); assert(old(out)@ + "1"@ =~= old(out)@.push('1')); }
    } else if d == 2 {
        out.append("2");
        proof { reveal_strlit("2"); assert(old(out)@ + "2"@ =~= old(out)@.push('2')); }
    } else if d == 3 {
        out.append("3");
        proof { reveal_strlit("3"); assert(old(out)@ + "3"@ =~= old(out)@.push('3')); }
    } else if d == 4 {
        out.append("4");
        proof { reveal_strlit("4"); assert(old(out)@ + "4"@ =~= old(out)@.push('4')); }
    } else if d == 5 {
        out.append("5");
        proof { reveal_strlit("5"); assert(old(out)@ + "5"@ =~= old(out)@.push('5')); }
    } else if d == 6 {
        out.append("6");
        proof { reveal_strlit("6"); assert(old(out)@ + "6"@ =~= old(out)@.push('6')); }
    } else if d == 7 {
        out.append("7");
        proof { reveal_strlit("7"); assert(old(out)@ + "7"@ =~= old(out)@.push('7')); }
    } else if d == 8 {
        out.append("8");
        proof { reveal_strlit("8"); assert(old(out)@ + "8"@ =~= old(out)@.push('8')); }
    } else if d == 9 {
        out.append("9");
        proof { reveal_strlit("9"); assert(old(out)@ + "9"@ =~= old(out)@.push('9')); }
    } else if d == 10 {
        out.append("a");
        proof { reveal_strlit("a"); assert(old(out)@ + "a"@ =~= old(out)@.push('a')); }
    } else if d == 11 {
        out.append("b");
        proof { reveal_strlit("b"); assert(old(out)@ + "b"@ =~= old(out)@.push('b')); }
    } else if d == 12 {
        out.append("c");
        proof { reveal_strlit("c"); assert(old(out)@ + "c"@ =~= old(out)@.push('c')); }
    } else if d == 13 {
        out.append("d");
        proof { reveal_strlit("d"); assert(old(out)@ + "d"@ =~= old(out)@.push('d')); }
    } else if d == 14 {
        out.append("e");
        proof { reveal_strlit("e"); assert(old(out)@ + "e"@ =~= old(out)@.push('e')); }
    } else {
        out.append("f");
        proof { reveal_strlit("f"); assert(old(out)@ + "f"@ =~= old(out)@.push('f')); }
    }
}

/// JSON-escapes `s`.
pub fn json_escape_str(s: &str) -> (r: String)
    ensures
        r@ == json_escape(s@),
{
    let mut out = String::new();
    let n = s.unicode_len();
    for i in 0..n
        invariant
            n == s@.len(),
            out@ == json_escape(s@.take(i as int)),
    {
        proof {
            assert(s@.take(i + 1).drop_last() =~= s@.take(i as int));
            assert(s@.take(i + 1).last() == s@[i as int]);
        }
        let c = s.get_char(i);
        if c == '"' {
            out.append("\\\"");
            proof {
                reveal_strlit("\\\"");
                assert(("\\\""@) =~= json_escape_char('"'));
            }
        } else if c == '\\' {
            out.append("\\\\");
            proof {
                reveal_strlit("\\\\");
                assert(("\\\\"@) =~= json_escape_char('\\'));
            }
        } else if (c as u32) < 32 {
            out.append("\\u00");
            append_hex_pair(&mut out, c as u32);
            proof {
                reveal_strlit("\\u00");
                assert(("\\u00"@) + seq![hex_char(c as u32 as int / 16), hex_char(c as u32 as int % 16)]
                    =~= json_escape_char(s@[i as int]));
            }
        } else {
            out.append(s.substring_char(i, i + 1));
            proof {
                assert(s@.subrange(i as int, i + 1) =~= json_escape_char(s@[i as int]));
            }
        }
    }
    proof {
        assert(s@.take(n as int) =~= s@);
    }
    out
}

/// Builds the write acknowledgment body for the assigned timestamp.
pub fn timestamp_body(ts: i64) -> (r: String)
    ensures
        r@ == json_timestamp_body(ts as int),
{
    let mut out = String::from_str("{\"timestamp\":");
    append_dec_i64(&mut out, ts);
    out.append("}");
    out
}

/// Builds the failure body for the given error text.
pub fn error_body(message: &str) -> (r: String)
    ensures
        r@ == json_error_body(message@),
{
    let mut out = String::from_str("{\"error\":\"");
    let escaped = json_escape_str(message);
    out.append(escaped.as_str());
    out.append("\"}");
    out
}

} // verus!
