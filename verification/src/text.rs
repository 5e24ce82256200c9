//! Verified text building: decimal rendering for track names and file names.

use vstd::prelude::*;

verus! {

use vstd::string::StringExecFns;
use vstd::string::StrSliceExecFns;

/// The decimal digit character for `d` in `0..10`.
pub open spec fn digit_char(d: int) -> char {
    if d == 0 {
        '0'
    } else if d == 1 {
        '1'
    } else if d == 2 {
        '2'
    } else if d == 3 {
        '3'
    } else if d == 4 {
        '4'
    } else if d == 5 {
        '5'
    } else if d == 6 {
        '6'
    } else if d == 7 {
        '7'
    } else if d == 8 {
        '8'
    } else {
        '9'
    }
}

/// The decimal digits of `n`, most significant first, with no leading zeros
/// (a single `'0'` for zero).
pub open spec fn dec_digits(n: nat) -> Seq<char>
    decreases n,
{
    if n < 10 {
        seq![digit_char(n as int)]
    } else {
        dec_digits(n / 10).push(digit_char((n % 10) as int))
    }
}

/// The decimal digits of `n`, zero-padded on the left to width two.
pub open spec fn dec_digits_pad2(n: nat) -> Seq<char> {
    if n < 10 {
        seq![digit_char(0)] + dec_digits(n)
    } else {
        dec_digits(n)
    }
}

/// The one-character string for a decimal digit.
fn digit_str(d: usize) -> (s: &'static str)
    requires
        d < 10,
    ensures
        s@ =~= seq![digit_char(d as int)],
{
    proof {
        reveal_strlit("0");
        reveal_strlit("1");
        reveal_strlit("2");
        reveal_strlit("3");
        reveal_strlit("4");
        reveal_strlit("5");
        reveal_strlit("6");
        reveal_strlit("7");
        reveal_strlit("8");
        reveal_strlit("9");
    }
    match d {
        0 => "0",
        1 => "1",
        2 => "2",
        3 => "3",
        4 => "4",
        5 => "5",
        6 => "6",
        7 => "7",
        8 => "8",
        _ => "9",
    }
}

/// Render `n` in decimal.
pub fn usize_to_dec(n: usize) -> (s: String)
    ensures
        s@ == dec_digits(n as nat),
    decreases n,
{
    if n < 10 {
        String::from_str(digit_str(n))
    } else {
        let mut s = usize_to_dec(n / 10);
        s.append(digit_str(n % 10));
        s
    }
}

/// Render `n` in decimal, zero-padded to at least two characters.
pub fn usize_to_dec_pad2(n: usize) -> (s: String)
    ensures
        s@ == dec_digits_pad2(n as nat),
{
    if n < 10 {
        let mut s = String::from_str(digit_str(0));
        let digits = usize_to_dec(n);
        s.append(digits.as_str());
        s
    } else {
        usize_to_dec(n)
    }
}

/// Whether `c` is a decimal digit.
pub open spec fn is_dec_digit(c: char) -> bool {
    48 <= c as int <= 57
}

/// The value of a digit string, most significant digit first.
pub open spec fn digits_val(s: Seq<char>) -> int
    decreases s.len(),
{
    if s.len() == 0 {
        0
    } else {
        digits_val(s.drop_last()) * 10 + (s.last() as int - 48)
    }
}

/// The digits a decimal number parser reads: everything after one optional
/// leading `'+'`.
pub open spec fn number_body(s: Seq<char>) -> Seq<char> {
    if s.len() > 0 && s[0] == '+' {
        s.drop_first()
    } else {
        s
    }
}

/// What parsing `s` as an unsigned number bounded by `max` yields: the
/// value of its digits if, after one optional leading `'+'`, the string is
/// one or more decimal digits whose value is at most `max`.
pub open spec fn parse_u64_spec(s: Seq<char>, max: u64) -> Option<u64> {
    let body = number_body(s);
    if body.len() > 0 && (forall|i: int| 0 <= i < body.len() ==> is_dec_digit(body[i]))
        && digits_val(body) <= max {
        Some(digits_val(body) as u64)
    } else {
        None
    }
}

/// The value of an all-digit prefix is never negative.
proof fn lemma_digits_val_nonneg(s: Seq<char>, i: int)
    requires
        0 <= i <= s.len(),
        forall|k: int| 0 <= k < s.len() ==> is_dec_digit(s[k]),
    ensures
        digits_val(s.subrange(0, i)) >= 0,
    decreases i,
{
    if i == 0 {
        assert(s.subrange(0, 0) =~= Seq::<char>::empty());
    } else {
        lemma_digits_val_nonneg(s, i - 1);
        assert(s.subrange(0, i).drop_last() =~= s.subrange(0, i - 1));
        let prev = digits_val(s.subrange(0, i - 1));
        assert(prev * 10 >= 0) by (nonlinear_arith)
            requires prev >= 0,
        {}
    }
}

/// Prepending digits never lowers the value of an all-digit string.
proof fn lemma_digits_val_monotone(s: Seq<char>, i: int, j: int)
    requires
        0 <= i <= j <= s.len(),
        forall|k: int| 0 <= k < s.len() ==> is_dec_digit(s[k]),
    ensures
        digits_val(s.subrange(0, i)) <= digits_val(s.subrange(0, j)),
        digits_val(s.subrange(0, i)) >= 0,
    decreases j - i,
{
    lemma_digits_val_nonneg(s, i);
    if i < j {
        lemma_digits_val_monotone(s, i, j - 1);
        assert(s.subrange(0, j).drop_last() =~= s.subrange(0, j - 1));
        let prev = digits_val(s.subrange(0, j - 1));
        assert(prev * 10 >= prev) by (nonlinear_arith)
            requires prev >= 0,
        {}
    }
}

/// Parse an unsigned decimal number of at most `max`, with one optional
/// leading `'+'`, exactly as the standard numeric parsers do (apart from
/// their minus-sign overflow case, which unsigned values cannot reach).
pub fn parse_u64_bounded(s: &str, max: u64) -> (r: Option<u64>)
    ensures
        r == parse_u64_spec(s@, max),
        r matches Some(v) ==> v <= max,
{
    let len = s.unicode_len();
    let start: usize = if len > 0 && s.get_char(0) as u32 == 43 {
        1
    } else {
        0
    };
    proof {
        if start == 1 {
            assert(s@[0] == '+') by {
                assert(s@[0] as u32 == 43);
                assert('+' as u32 == 43);
            }
            assert(number_body(s@) =~= s@.subrange(1, s@.len() as int));
        } else {
            if s@.len() > 0 {
                assert(s@[0] as u32 != 43);
                assert(s@[0] != '+') by {
                    assert('+' as u32 == 43);
                }
            }
            assert(number_body(s@) =~= s@);
        }
    }
    let ghost body = number_body(s@);
    if start >= len {
        return None;
    }

    let mut val: u64 = 0;
    let mut i: usize = start;
    while i < len
        invariant
            start <= i <= len,
            len == s@.len(),
            0 < body.len() == len - start,
            body == number_body(s@),
            body =~= s@.subrange(start as int, len as int),
            forall|k: int| 0 <= k < i - start ==> is_dec_digit(body[k]),
            val == digits_val(body.subrange(0, i - start)),
            val <= max,
            digits_val(body.subrange(0, i - start)) >= 0,
        decreases len - i,
    {
        let c = s.get_char(i);
        let u: u32 = c as u32;
        proof {
            assert(body[i - start] == s@[i as int]);
        }
        if u < 48 || u > 57 {
            proof {
                assert(body[i - start] == c);
                assert(c as int == u as int);
                assert(!is_dec_digit(body[i - start]));
                assert(!(forall|k: int| 0 <= k < body.len() ==> is_dec_digit(body[k])));
            }
            return None;
        }
        let d: u64 = (u - 48) as u64;
        proof {
            assert(body.subrange(0, i - start + 1).drop_last() =~= body.subrange(0, i - start));
            assert(body.subrange(0, i - start + 1).last() == body[i - start]);
        }
        if d > max || val > (max - d) / 10 {
            proof {
                assert(body[i - start] == c);
                assert(c as int == u as int);
                let next = digits_val(body.subrange(0, i - start + 1));
                assert(next == val * 10 + d);
                if d > max {
                    assert(val * 10 + d > max) by (nonlinear_arith)
                        requires d > max, val >= 0,
                    {}
                } else {
                    assert(val * 10 + d > max) by (nonlinear_arith)
                        requires val > (max - d) / 10, 0 <= d <= max, val >= 0,
                    {}
                }
                if forall|k: int| 0 <= k < body.len() ==> is_dec_digit(body[k]) {
                    lemma_digits_val_monotone(body, i - start + 1, body.len() as int);
                    assert(body.subrange(0, body.len() as int) =~= body);
                    assert(digits_val(body) > max);
                }
            }
            return None;
        }
        proof {
            assert(val * 10 + d <= max) by (nonlinear_arith)
                requires val <= (max - d) / 10, 0 <= d <= max, val >= 0,
            {}
        }
        val = val * 10 + d;
        i = i + 1;
    }
    proof {
        assert(body.subrange(0, body.len() as int) =~= body);
        assert(forall|k: int| 0 <= k < body.len() ==> is_dec_digit(body[k]));
    }
    Some(val)
}

/// The lowercase image of a character sequence, as the standard library's
/// case folding computes it: a function of the characters alone.
pub uninterp spec fn lower_of(s: Seq<char>) -> Seq<char>;

/// Relies on str::to_lowercase: the result depends only on the characters,
/// and an empty string stays empty.
#[verifier::external_body]
pub fn to_lowercase(s: &str) -> (r: String)
    ensures
        r@ == lower_of(s@),
        s@.len() == 0 ==> r@.len() == 0,
{
    s.to_lowercase()
}

/// Whether `needle` occurs in `hay` starting at position `i`.
pub open spec fn occurs_at(hay: Seq<char>, needle: Seq<char>, i: int) -> bool {
    0 <= i && i + needle.len() <= hay.len() && hay.subrange(i, i + needle.len()) == needle
}

/// Whether `needle` occurs anywhere in `hay` as a contiguous run.
pub open spec fn contains_spec(hay: Seq<char>, needle: Seq<char>) -> bool {
    exists|i: int| occurs_at(hay, needle, i)
}

/// Relies on str::contains: true exactly when the needle's characters occur
/// as a contiguous run of the haystack's characters.
#[verifier::external_body]
pub fn str_contains(hay: &str, needle: &str) -> (r: bool)
    ensures
        r == contains_spec(hay@, needle@),
{
    hay.contains(needle)
}

} // verus!
