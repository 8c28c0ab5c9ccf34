//! Correlation identifiers and their text on the wire.
//!
//! An identifier is a signed 64-bit integer.  The wire carries it as a JSON
//! string holding its decimal digits, so this module fixes that text in
//! both directions and proves that reading undoes writing.

use vstd::prelude::*;
use vstd::string::*;
use vstd::utf8::is_ascii_chars;

verus! {

/// The character that stands for the digit `d`, for `0 <= d <= 9`.
pub open spec fn digit_char(d: int) -> char {
    seq!['0', '1', '2', '3', '4', '5', '6', '7', '8', '9'][d]
}

/// Whether `c` is one of the ASCII digits `0` to `9`.
pub open spec fn is_digit(c: char) -> bool {
    '0' <= c && c <= '9'
}

/// The value of the ASCII digit `c`.
pub open spec fn digit_value(c: char) -> int {
    c as int - '0' as int
}

/// The decimal digits of `n`, most significant first, without leading zeros.
pub open spec fn decimal_digits(n: nat) -> Seq<char>
    decreases n,
{
    if n < 10 {
        seq![digit_char(n as int)]
    } else {
        decimal_digits(n / 10).push(digit_char((n % 10) as int))
    }
}

/// The decimal text of `n`: a minus sign if it is negative, then the
/// decimal digits of its magnitude.
pub open spec fn decimal_text(n: int) -> Seq<char> {
    if n < 0 {
        seq!['-'] + decimal_digits((-n) as nat)
    } else {
        decimal_digits(n as nat)
    }
}

/// The wire text of the identifier `id`: its decimal text.
pub open spec fn cid_text(id: int) -> Seq<char> {
    decimal_text(id)
}

/// Whether every character of `s` is an ASCII digit.
pub open spec fn all_digits(s: Seq<char>) -> bool {
    forall|i: int| 0 <= i < s.len() ==> is_digit(#[trigger] s[i])
}

/// The number that the digit string `s` denotes, read most significant
/// digit first.  Leading zeros are allowed; the empty string denotes 0.
pub open spec fn digits_value(s: Seq<char>) -> nat
    decreases s.len(),
{
    if s.len() == 0 {
        0
    } else {
        (digits_value(s.drop_last()) * 10 + digit_value(s.last())) as nat
    }
}

/// Whether `s` opens with a sign character.
pub open spec fn has_sign(s: Seq<char>) -> bool {
    s.len() > 0 && (s[0] == '-' || s[0] == '+')
}

/// The digits of `s`: everything after the sign, if there is one.
pub open spec fn unsigned_part(s: Seq<char>) -> Seq<char> {
    if has_sign(s) {
        s.subrange(1, s.len() as int)
    } else {
        s
    }
}

/// The integer that `s` denotes, before any range check.
pub open spec fn signed_value(s: Seq<char>) -> int {
    if s.len() > 0 && s[0] == '-' {
        -(digits_value(unsigned_part(s)) as int)
    } else {
        digits_value(unsigned_part(s)) as int
    }
}

/// The identifier that the wire text `s` denotes, if any.
///
/// The text is an optional `+` or `-`, then one or more ASCII digits, and
/// the number must fit in 64 bits.  Anything else denotes no identifier.
pub open spec fn parse_cid_spec(s: Seq<char>) -> Option<i64> {
    let body = unsigned_part(s);
    let v = signed_value(s);
    if body.len() > 0 && all_digits(body) && i64::MIN <= v <= i64::MAX {
        Some(v as i64)
    } else {
        None
    }
}

/// A digit string denotes at least what any of its prefixes denotes.
proof fn lemma_prefix_value(s: Seq<char>, k: int)
    requires
        all_digits(s),
        0 <= k <= s.len(),
    ensures
        digits_value(s.subrange(0, k)) <= digits_value(s),
    decreases s.len() - k,
{
    if k < s.len() {
        let longer = s.subrange(0, k + 1);
        assert(longer.drop_last() =~= s.subrange(0, k));
        assert(is_digit(s[k]));
        assert(longer.last() == s[k]);
        lemma_prefix_value(s, k + 1);
    } else {
        assert(s.subrange(0, k) =~= s);
    }
}

/// The decimal digits of a number are digits, and denote that number.
pub proof fn lemma_decimal_digits(n: nat)
    ensures
        decimal_digits(n).len() > 0,
        all_digits(decimal_digits(n)),
        digits_value(decimal_digits(n)) == n,
    decreases n,
{
    let c = digit_char((n % 10) as int);
    assert(is_digit(c) && digit_value(c) == n % 10);
    if n < 10 {
        let s = seq![c];
        assert(s.drop_last() =~= Seq::<char>::empty());
        assert(digits_value(s.drop_last()) == 0);
        assert(digits_value(s) == n);
    } else {
        lemma_decimal_digits(n / 10);
        let s = decimal_digits(n / 10).push(c);
        assert(s.drop_last() =~= decimal_digits(n / 10));
        assert(s.last() == c);
    }
}

/// Reading the wire text of an identifier gives the identifier back.
pub proof fn lemma_parse_cid_text(id: i64)
    ensures
        parse_cid_spec(cid_text(id as int)) == Some(id),
{
    let text = cid_text(id as int);
    if id < 0 {
        let n = (-id) as nat;
        lemma_decimal_digits(n);
        assert(unsigned_part(text) =~= decimal_digits(n));
    } else {
        let n = id as nat;
        lemma_decimal_digits(n);
        assert(is_digit(text[0]));
        assert(unsigned_part(text) =~= text);
    }
}

/// Two identifiers with the same wire text are the same identifier.
pub proof fn lemma_cid_text_injective(a: i64, b: i64)
    requires
        cid_text(a as int) == cid_text(b as int),
    ensures
        a == b,
{
    lemma_parse_cid_text(a);
    lemma_parse_cid_text(b);
}

fn digit_str(d: u64) -> (s: &'static str)
    requires
        d < 10,
    ensures
        s@ == seq![digit_char(d as int)],
{
    proof {
        reveal_strlit("0");
        reveal_strlit("1");
        reveal_strlit("2");
        reveal_strlit("3");
        reveal_strlit("4");
        reveal_strlit("5");
        reveal_strlit("6");
        reveal_strlit("7");
        reveal_strlit("8");
        reveal_strlit("9");
    }
    let s = if d == 0 {
        "0"
    } else if d == 1 {
        "1"
    } else if d == 2 {
        "2"
    } else if d == 3 {
        "3"
    } else if d == 4 {
        "4"
    } else if d == 5 {
        "5"
    } else if d == 6 {
        "6"
    } else if d == 7 {
        "7"
    } else if d == 8 {
        "8"
    } else {
        "9"
    };
    assert(s@ =~= seq![digit_char(d as int)]);
    s
}

fn push_decimal(n: u64, out: &mut String)
    ensures
        final(out)@ == old(out)@ + decimal_digits(n as nat),
    decreases n,
{
    if n >= 10 {
        push_decimal(n / 10, out);
    }
    out.append(digit_str(n % 10));
    assert(out@ =~= old(out)@ + decimal_digits(n as nat));
}

/// Writes the decimal text of `n`.
pub fn decimal_string(n: i64) -> (text: String)
    ensures
        text@ == decimal_text(n as int),
{
    let mut out = String::new();
    if n < 0 {
        proof {
            reveal_strlit("-");
        }
        out.append("-");
        let magnitude: u64 = (-(n + 1)) as u64 + 1;
        push_decimal(magnitude, &mut out);
        assert(out@ =~= decimal_text(n as int));
    } else {
        push_decimal(n as u64, &mut out);
        assert(out@ =~= decimal_text(n as int));
    }
    out
}

/// Writes the wire text of `id`.
pub fn cid_to_string(id: i64) -> (text: String)
    ensures
        text@ == cid_text(id as int),
{
    decimal_string(id)
}

/// Reads an identifier from its wire text.
///
/// Returns `None` for text that denotes no identifier: empty text, a bare
/// sign, any character that is not an ASCII digit, or a number outside the
/// 64-bit range.
pub fn parse_cid(s: &str) -> (id: Option<i64>)
    ensures
        id == parse_cid_spec(s@),
{
    broadcast use is_ascii_spec_bytes;

    if !s.is_ascii() {
        proof {
            let i = choose|i: int| 0 <= i < s@.len() && !('\0' <= #[trigger] s@[i] <= '\u{7f}');
            let body = unsigned_part(s@);
            if has_sign(s@) {
                assert(i > 0);
                assert(!is_digit(body[i - 1]));
            } else {
                assert(!is_digit(body[i]));
            }
        }
        return None;
    }
    let bytes = s.as_bytes();
    let n: usize = bytes.len();
    assert(n == s@.len());
    assert(forall|i: int| 0 <= i < n ==> bytes@[i] == s@[i] as u8);
    if n == 0 {
        return None;
    }
    let negative: bool = bytes[0] == 45;
    let start: usize = if bytes[0] == 45 || bytes[0] == 43 {
        1
    } else {
        0
    };
    let ghost body = unsigned_part(s@);
    assert(has_sign(s@) <==> start == 1);
    assert(body.len() == n - start);
    assert(forall|i: int| 0 <= i < body.len() ==> body[i] == s@[i + start]);
    if n == start {
        return None;
    }
    let mut i: usize = start;
    let mut acc: u64 = 0;
    while i < n
        invariant
            start <= i <= n,
            n == s@.len(),
            n == bytes@.len(),
            body.len() == n - start,
            is_ascii_chars(s@),
            forall|j: int| 0 <= j < n ==> bytes@[j] == s@[j] as u8,
            forall|j: int| 0 <= j < body.len() ==> body[j] == s@[j + start],
            all_digits(body.subrange(0, i - start)),
            acc == digits_value(body.subrange(0, i - start)),
            acc <= 0x8000_0000_0000_0000,
            body == unsigned_part(s@),
        decreases n - i,
    {
        let b: u8 = bytes[i];
        let ghost prefix = body.subrange(0, i - start);
        let ghost longer = body.subrange(0, i - start + 1);
        assert(longer.drop_last() =~= prefix);
        assert(longer.last() == s@[i as int]);
        if b < 48 || b > 57 {
            assert(!is_digit(body[i - start]));
            return None;
        }
        let d: u64 = (b - 48) as u64;
        assert(is_digit(s@[i as int]) && digit_value(s@[i as int]) == d);
        if acc > (0x8000_0000_0000_0000 - d) / 10 {
            proof {
                assert(digits_value(longer) > 0x8000_0000_0000_0000);
                if all_digits(body) {
                    lemma_prefix_value(body, i - start + 1);
                }
            }
            return None;
        }
        acc = acc * 10 + d;
        assert forall|j: int| 0 <= j < longer.len() implies is_digit(#[trigger] longer[j]) by {
            if j < prefix.len() {
                assert(longer[j] == prefix[j]);
            }
        }
        i = i + 1;
    }
    assert(body.subrange(0, i - start) =~= body);
    if negative {
        if acc == 0x8000_0000_0000_0000 {
            Some(i64::MIN)
        } else {
            Some(-(acc as i64))
        }
    } else if acc <= 0x7fff_ffff_ffff_ffff {
        Some(acc as i64)
    } else {
        None
    }
}

} // verus!
