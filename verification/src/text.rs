use vstd::prelude::*;
use vstd::string::StrSliceExecFns;
use vstd::string::StringExecFns;

verus! {

/// Character-wise string equality, stated over the views.
pub fn str_eq(a: &str, b: &str) -> (r: bool)
    ensures
        r == (a@ == b@),
{
    let alen = a.unicode_len();
    let blen = b.unicode_len();
    if alen != blen {
        return false;
    }
    for i in 0..alen
        invariant
            alen == a@.len(),
            alen == b@.len(),
            forall|j: int| 0 <= j < i ==> a@[j] == b@[j],
    {
        if a.get_char(i) != b.get_char(i) {
            return false;
        }
    }
    proof {
        assert(a@ =~= b@);
    }
    true
}

/// The decimal digit for a value between 0 and 9.
pub open spec fn digit_char(d: int) -> char
    recommends
        0 <= d <= 9,
{
    if d == 0 { '0' }
    else if d == 1 { '1' }
    else if d == 2 { '2' }
    else if d == 3 { '3' }
    else if d == 4 { '4' }
    else if d == 5 { '5' }
    else if d == 6 { '6' }
    else if d == 7 { '7' }
    else if d == 8 { '8' }
    else { '9' }
}

/// The decimal digits of a non-negative integer, most significant first.
pub open spec fn dec_digits(n: int) -> Seq<char>
    recommends
        n >= 0,
    decreases n,
{
    if n <= 9 {
        seq![digit_char(n)]
    } else {
        dec_digits(n / 10).push(digit_char(n % 10))
    }
}

/// The decimal rendering of a signed integer: a minus sign for negative values,
/// then the digits of the magnitude.
pub open spec fn dec_of_i64(n: int) -> Seq<char> {
    if n < 0 {
        seq!['-'] + dec_digits(-n)
    } else {
        dec_digits(n)
    }
}

/// Appends the single decimal digit `d` to `out`.
fn push_digit(out: &mut String, d: u64)
    requires
        d <= 9,
    ensures
        final(out)@ == old(out)@.push(digit_char(d as int)),
{
    if d == 0 {
        out.append("0");
        proof { reveal_strlit("0"); assert(old(out)@ + "0"@ =~= old(out)@.push('0')); }
    } else if d == 1 {
        out.append("1");
        proof { reveal_strlit("1"); assert(old(out)@ + "1"@ =~= old(out)@.push('1')); }
    } else if d == 2 {
        out.append("2");
        proof { reveal_strlit("2"); assert(old(out)@ + "2"@ =~= old(out)@.push('2')); }
    } else if d == 3 {
        out.append("3");
        proof { reveal_strlit("3"); assert(old(out)@ + "3"@ =~= old(out)@.push('3')); }
    } else if d == 4 {
        out.append("4");
        proof { reveal_strlit("4"); assert(old(out)@ + "4"@ =~= old(out)@.push('4')); }
    } else if d == 5 {
        out.append("5");
        proof { reveal_strlit("5"); assert(old(out)@ + "5"@ =~= old(out)@.push('5')); }
    } else if d == 6 {
        out.append("6");
        proof { reveal_strlit("6"); assert(old(out)@ + "6"@ =~= old(out)@.push('6')); }
    } else if d == 7 {
        out.append("7");
        proof { reveal_strlit("7"); assert(old(out)@ + "7"@ =~= old(out)@.push('7')); }
    } else if d == 8 {
        out.append("8");
        proof { reveal_strlit("8"); assert(old(out)@ + "8"@ =~= old(out)@.push('8')); }
    } else {
        out.append("9");
        proof { reveal_strlit("9"); assert(old(out)@ + "9"@ =~= old(out)@.push('9')); }
    }
}

/// Appends the decimal digits of `n` to `out`.
fn append_dec_u64(out: &mut String, n: u64)
    ensures
        final(out)@ == old(out)@ + dec_digits(n as int),
    decreases n,
{
    if n <= 9 {
        push_digit(out, n);
        proof {
            assert(old(out)@ + dec_digits(n as int) =~= old(out)@.push(digit_char(n as int)));
        }
    } else {
        append_dec_u64(out, n / 10);
        push_digit(out, n % 10);
    }
}

/// Appends the decimal rendering of `n` to `out`.
pub fn append_dec_i64(out: &mut String, n: i64)
    ensures
        final(out)@ == old(out)@ + dec_of_i64(n as int),
{
    if n < 0 {
        out.append("-");
        let mag: u64 = if n == i64::MIN {
            9223372036854775808u64
        } else {
            (-n) as u64
        };
        proof {
            reveal_strlit("-");
            assert(("-"@) =~= seq!['-']);
            assert(mag as int == -(n as int));
        }
        append_dec_u64(out, mag);
        proof {
            assert(old(out)@ + "-"@ + dec_digits(mag as int) =~= old(out)@ + (seq!['-']
                + dec_digits(-(n as int))));
        }
    } else {
        append_dec_u64(out, n as u64);
    }
}

/// The decimal rendering of `n`, on its own.
pub fn i64_to_dec_string(n: i64) -> (r: String)
    ensures
        r@ == dec_of_i64(n as int),
{
    let mut out = String::new();
    append_dec_i64(&mut out, n);
    proof {
        assert(Seq::<char>::empty() + dec_of_i64(n as int) =~= dec_of_i64(n as int));
    }
    out
}

/// Whether `c` is an ASCII decimal digit.
pub open spec fn is_digit(c: char) -> bool {
    48 <= c as u32 <= 57
}

/// The numeric value of an ASCII decimal digit.
pub open spec fn digit_val(c: char) -> int
    recommends
        is_digit(c),
{
    c as u32 - 48
}

/// Whether every character of `s` is an ASCII decimal digit.
pub open spec fn all_digits(s: Seq<char>) -> bool {
    forall|i: int| 0 <= i < s.len() ==> is_digit(#[trigger] s[i])
}

/// The value of a sequence of decimal digits, most significant first.
pub open spec fn dec_val(s: Seq<char>) -> int
    recommends
        all_digits(s),
    decreases s.len(),
{
    if s.len() == 0 {
        0
    } else {
        dec_val(s.drop_last()) * 10 + digit_val(s.last())
    }
}

/// Whether `s` is a decimal integer literal: an optional sign followed by at
/// least one digit, and nothing else. This is the shape the standard library's
/// integer parsing accepts.
pub open spec fn is_int_literal(s: Seq<char>) -> bool {
    if s.len() == 0 {
        false
    } else if s[0] == '+' || s[0] == '-' {
        s.len() > 1 && all_digits(s.subrange(1, s.len() as int))
    } else {
        all_digits(s)
    }
}

/// The mathematical value of a decimal integer literal.
pub open spec fn int_literal_val(s: Seq<char>) -> int
    recommends
        is_int_literal(s),
{
    if s.len() > 0 && s[0] == '-' {
        -dec_val(s.subrange(1, s.len() as int))
    } else if s.len() > 0 && s[0] == '+' {
        dec_val(s.subrange(1, s.len() as int))
    } else {
        dec_val(s)
    }
}

/// Whether `s` is an integer literal whose value fits in an `i64`.
pub open spec fn is_i64_literal(s: Seq<char>) -> bool {
    is_int_literal(s) && i64::MIN <= int_literal_val(s) <= i64::MAX
}

/// Parses `s` as a decimal `i64`, exactly as the standard library does: an
/// optional sign, then one or more digits; anything else, or a value outside
/// the `i64` range, is rejected.
pub fn parse_i64(s: &str) -> (r: Option<i64>)
    ensures
        match r {
            Some(v) => is_i64_literal(s@) && v as int == int_literal_val(s@),
            None => !is_i64_literal(s@),
        },
{
    let n = s.unicode_len();
    if n == 0 {
        return None;
    }
    let first = s.get_char(0);
    let neg = first == '-';
    let start: usize = if first == '-' || first == '+' { 1 } else { 0 };
    if n == start {
        return None;
    }
    let bound: u64 = if neg { 9223372036854775808u64 } else { 9223372036854775807u64 };
    let mut mag: u64 = 0;
    let mut too_big = false;
    for i in start..n
        invariant
            n == s@.len(),
            start < n,
            start == 0 || start == 1,
            start == 1 ==> (s@[0] == '+' || s@[0] == '-'),
            start == 0 ==> !(s@[0] == '+' || s@[0] == '-'),
            neg <==> (s@[0] == '-'),
            bound as int == if neg { 0x8000000000000000int } else { 0x7fffffffffffffffint },
            all_digits(s@.subrange(start as int, i as int)),
            dec_val(s@.subrange(start as int, i as int)) >= 0,
            !too_big ==> mag as int == dec_val(s@.subrange(start as int, i as int)) && mag
                <= bound,
            too_big ==> dec_val(s@.subrange(start as int, i as int)) > bound as int,
    {
        let c = s.get_char(i);
        let u = c as u32;
        if u < 48 || u > 57 {
            proof {
                let digits =
                    if start == 1 { s@.subrange(1, n as int) } else { s@ };
                assert(digits[i - start] == s@[i as int]);
                assert(!all_digits(digits));
                assert(start == 0 ==> s@.subrange(0, n as int) =~= s@);
            }
            return None;
        }
        let d: u64 = (u - 48) as u64;
        proof {
            let prefix = s@.subrange(start as int, i as int);
            let next = s@.subrange(start as int, i + 1);
            assert(next.drop_last() =~= prefix);
            assert(next.last() == s@[i as int]);
            assert(dec_val(next) == dec_val(prefix) * 10 + d);
        }
        if too_big {
            proof {
                let prefix = s@.subrange(start as int, i as int);
                assert(dec_val(prefix) * 10 >= dec_val(prefix) + 9 * dec_val(prefix));
                assert(dec_val(prefix) * 10 + d > bound as int);
            }
        } else if mag > bound / 10 || (mag == bound / 10 && d > bound % 10) {
            too_big = true;
            proof {
                assert(bound as int == 10 * ((bound as int) / 10) + (bound as int) % 10);
                assert(mag as int * 10 + d > bound as int);
            }
        } else {
            proof {
                assert(bound as int == 10 * ((bound as int) / 10) + (bound as int) % 10);
                assert(mag as int * 10 + d <= bound as int);
            }
            mag = mag * 10 + d;
        }
    }
    proof {
        let digits = s@.subrange(start as int, n as int);
        if start == 1 {
            assert(is_int_literal(s@));
            if neg {
                assert(int_literal_val(s@) == -dec_val(digits));
            } else {
                assert(int_literal_val(s@) == dec_val(digits));
            }
        } else {
            assert(digits =~= s@);
            assert(is_int_literal(s@));
            assert(int_literal_val(s@) == dec_val(digits));
        }
    }
    if too_big {
        return None;
    }
    if neg {
        if mag == 9223372036854775808u64 {
            Some(i64::MIN)
        } else {
            Some(-(mag as i64))
        }
    } else {
        Some(mag as i64)
    }
}

} // verus!
