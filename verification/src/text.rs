//! Text helpers shared by the command channel and the account endpoints.

use vstd::prelude::*;
use vstd::string::{StrSliceExecFns, StringExecFns};

verus! {

/// Whether two string slices hold the same characters.
pub fn str_eq(a: &str, b: &str) -> (same: bool)
    ensures
        same == (a@ == b@),
{
    let x = a.as_bytes();
    let y = b.as_bytes();
    proof {
        vstd::utf8::encode_utf8_decode_utf8(a@);
        vstd::utf8::encode_utf8_decode_utf8(b@);
    }
    if x.len() != y.len() {
        return false;
    }
    let mut i: usize = 0;
    while i < x.len()
        invariant
            i <= x.len(),
            x.len() == y.len(),
            x@ == vstd::utf8::encode_utf8(a@),
            y@ == vstd::utf8::encode_utf8(b@),
            forall|j: int| 0 <= j < i ==> x@[j] == y@[j],
        decreases x.len() - i,
    {
        if x[i] != y[i] {
            return false;
        }
        i += 1;
    }
    assert(x@ =~= y@);
    true
}

/// Whether `c` is one of the ten ASCII decimal digits.
pub open spec fn is_digit(c: char) -> bool {
    '0' <= c <= '9'
}

/// The number that a run of decimal digits denotes, most significant digit first.
pub open spec fn digits_value(digits: Seq<char>) -> int
    decreases digits.len(),
{
    if digits.len() == 0 {
        0
    } else {
        digits_value(digits.drop_last()) * 10 + (digits.last() as int - '0' as int)
    }
}

/// Whether every character of `digits` is a decimal digit.
pub open spec fn all_digits(digits: Seq<char>) -> bool {
    forall|i: int| 0 <= i < digits.len() ==> is_digit(#[trigger] digits[i])
}

/// Whether `text` starts with a sign character.
pub open spec fn has_sign(text: Seq<char>) -> bool {
    text.len() > 0 && (text[0] == '-' || text[0] == '+')
}

/// The part of `text` that follows its sign, or all of it where it has none.
pub open spec fn unsigned_part(text: Seq<char>) -> Seq<char> {
    if has_sign(text) {
        text.skip(1)
    } else {
        text
    }
}

/// The integer that `text` denotes before any range check: an optional `+` or `-`,
/// then one or more decimal digits and nothing else. `None` for any other text.
pub open spec fn decimal_value(text: Seq<char>) -> Option<int> {
    let digits = unsigned_part(text);
    if digits.len() == 0 || !all_digits(digits) {
        None
    } else if text[0] == '-' {
        Some(-digits_value(digits))
    } else {
        Some(digits_value(digits))
    }
}

/// The identifier that `text` denotes: its decimal value where that fits in 32 bits.
pub open spec fn id_of(text: Seq<char>) -> Option<i32> {
    match decimal_value(text) {
        Some(v) => if i32::MIN <= v <= i32::MAX {
            Some(v as i32)
        } else {
            None
        },
        None => None,
    }
}

/// One more digit multiplies the value so far by ten and adds the digit.
proof fn lemma_digits_value_extend(digits: Seq<char>, n: int)
    requires
        0 <= n < digits.len(),
    ensures
        digits_value(digits.take(n + 1)) == digits_value(digits.take(n)) * 10 + (digits[n] as int
            - '0' as int),
{
    assert(digits.take(n + 1).drop_last() =~= digits.take(n));
}

/// A run of digits denotes no negative number.
pub proof fn lemma_digits_value_nonnegative(digits: Seq<char>)
    requires
        all_digits(digits),
    ensures
        digits_value(digits) >= 0,
    decreases digits.len(),
{
    if digits.len() > 0 {
        assert(is_digit(digits[digits.len() - 1]));
        lemma_digits_value_nonnegative(digits.drop_last());
    }
}

/// Reads a numeric identifier: an optional sign followed by decimal digits, in
/// the range of `i32`. Anything else, the empty text included, is `None`.
pub fn parse_id(text: &str) -> (id: Option<i32>)
    ensures
        id == id_of(text@),
{
    if !text.is_ascii() {
        proof {
            let i = choose|i: int|
                0 <= i < text@.len() && !('\0' <= #[trigger] text@[i] <= '\u{7f}');
            assert(!is_digit(text@[i]));
            if has_sign(text@) {
                if i > 0 {
                    assert(text@.skip(1)[i - 1] == text@[i]);
                }
            }
        }
        return None;
    }
    let len = text.unicode_len();
    if len == 0 {
        return None;
    }
    let first = text.get_ascii(0);
    let signed = first == 45 || first == 43;
    let negative = first == 45;
    let start: usize = if signed { 1 } else { 0 };
    if start == len {
        return None;
    }
    let ghost digits = unsigned_part(text@);
    assert(has_sign(text@) == signed);
    let limit: i64 = 2147483649;
    let mut value: i64 = 0;
    let mut i: usize = start;
    while i < len
        invariant
            start <= i <= len,
            len == text@.len(),
            text.is_ascii(),
            digits == unsigned_part(text@),
            digits == text@.skip(start as int),
            limit == 2147483649,
            all_digits(digits.take(i - start)),
            0 <= value <= limit,
            value == if digits_value(digits.take(i - start)) < limit {
                digits_value(digits.take(i - start))
            } else {
                limit as int
            },
        decreases len - i,
    {
        let byte = text.get_ascii(i);
        assert(digits[i - start] == text@[i as int]);
        assert('\0' <= text@[i as int] <= '\u{7f}');
        if byte < 48 || byte > 57 {
            assert(!is_digit(digits[i - start]));
            return None;
        }
        proof {
            lemma_digits_value_extend(digits, i - start);
            lemma_digits_value_nonnegative(digits.take(i - start));
            assert forall|j: int| 0 <= j < i - start + 1 implies is_digit(
                #[trigger] digits.take(i - start + 1)[j],
            ) by {
                if j < i - start {
                    assert(digits.take(i - start)[j] == digits[j]);
                }
            }
        }
        let next: i64 = value * 10 + (byte - 48) as i64;
        value = if next < limit { next } else { limit };
        i += 1;
    }
    assert(digits.take(len - start) =~= digits);
    if negative {
        if value <= 2147483648 {
            Some((0 - value) as i32)
        } else {
            None
        }
    } else {
        if value <= 2147483647 {
            Some(value as i32)
        } else {
            None
        }
    }
}

/// The one-character numeral of a digit below ten.
pub open spec fn digit_text(d: int) -> Seq<char> {
    "0123456789"@.subrange(d, d + 1)
}

/// The decimal numeral of a natural number, without leading zeros.
pub open spec fn natural_text(n: nat) -> Seq<char>
    decreases n,
{
    if n < 10 {
        digit_text(n as int)
    } else {
        natural_text(n / 10) + digit_text((n % 10) as int)
    }
}

/// The decimal numeral of an integer: a minus sign before a negative one.
pub open spec fn integer_text(n: int) -> Seq<char> {
    if n < 0 {
        "-"@ + natural_text((-n) as nat)
    } else {
        natural_text(n as nat)
    }
}

/// Appends the decimal numeral of `n` to `out`.
pub fn push_natural(out: &mut String, n: u64)
    ensures
        final(out)@ == old(out)@ + natural_text(n as nat),
    decreases n,
{
    proof {
        reveal_strlit("0123456789");
    }
    let digits = "0123456789";
    if n >= 10 {
        push_natural(out, n / 10);
    }
    let d: usize = (n % 10) as usize;
    out.append(digits.substring_ascii(d, d + 1));
    assert(out@ =~= old(out)@ + natural_text(n as nat));
}

/// Appends the decimal numeral of `n` to `out`.
pub fn push_integer(out: &mut String, n: i64)
    ensures
        final(out)@ == old(out)@ + integer_text(n as int),
{
    if n < 0 {
        out.append("-");
        let magnitude: u64 = (0 - (n as i128)) as u64;
        push_natural(out, magnitude);
        assert(out@ =~= old(out)@ + integer_text(n as int));
    } else {
        push_natural(out, n as u64);
    }
}

/// The numeral of a natural number is a run of digits that denotes it.
proof fn lemma_natural_text_denotes(n: nat)
    ensures
        natural_text(n).len() > 0,
        all_digits(natural_text(n)),
        digits_value(natural_text(n)) == n,
    decreases n,
{
    reveal_strlit("0123456789");
    let last = digit_text((n % 10) as int);
    assert(last.len() == 1);
    assert(is_digit(last[0]) && last[0] as int - '0' as int == n % 10);
    if n < 10 {
        assert(natural_text(n).drop_last() =~= Seq::<char>::empty());
        assert(digits_value(natural_text(n).drop_last()) == 0);
    } else {
        lemma_natural_text_denotes(n / 10);
        let text = natural_text(n);
        assert(text.drop_last() =~= natural_text(n / 10));
        assert(text.last() == last[0]);
        assert forall|i: int| 0 <= i < text.len() implies is_digit(#[trigger] text[i]) by {
            if i < text.len() - 1 {
                assert(text[i] == natural_text(n / 10)[i]);
            }
        }
    }
}

/// Writing an identifier and reading it back gives the identifier: the
/// numeral of every 32-bit integer is read as that integer. So an identifier
/// shown in a listing can be sent back as an argument.
pub proof fn lemma_numeral_reads_back(id: i32)
    ensures
        id_of(integer_text(id as int)) == Some(id),
{
    reveal_strlit("-");
    if id < 0 {
        let digits = natural_text((-id) as nat);
        lemma_natural_text_denotes((-id) as nat);
        let text = integer_text(id as int);
        assert(text[0] == '-');
        assert(text.skip(1) =~= digits);
    } else {
        let text = natural_text(id as nat);
        lemma_natural_text_denotes(id as nat);
        assert(is_digit(text[0]));
    }
}

} // verus!
