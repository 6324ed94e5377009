//! Amounts typed by the player.  A typed amount is read as an `i32` the way
//! `str::parse::<i32>` reads it (an optional `+` or `-` followed by one or
//! more ASCII digits, within the range of `i32`); any other text counts as 0.
use vstd::prelude::*;

verus! {

/// An ASCII decimal digit.
pub open spec fn is_digit(c: char) -> bool {
    '0' <= c <= '9'
}

/// The value of a sequence of decimal digits, most significant first.
pub open spec fn digits_value(s: Seq<char>) -> int
    decreases s.len(),
{
    if s.len() == 0 {
        0
    } else {
        digits_value(s.drop_last()) * 10 + (s.last() as int - '0' as int)
    }
}

/// Whether the text starts with a sign.
pub open spec fn has_sign(s: Seq<char>) -> bool {
    s.len() > 0 && (s[0] == '-' || s[0] == '+')
}

/// The digits of the text: all of it but a leading sign.
pub open spec fn digits_part(s: Seq<char>) -> Seq<char> {
    if has_sign(s) {
        s.skip(1)
    } else {
        s
    }
}

/// The signed value the text denotes, when it is a sign and digits.
pub open spec fn signed_value(s: Seq<char>) -> int {
    if s.len() > 0 && s[0] == '-' {
        -digits_value(digits_part(s))
    } else {
        digits_value(digits_part(s))
    }
}

/// The `i32` a text denotes: an optional sign, at least one digit and no
/// other character, with a value in range.
pub open spec fn parsed_i32(s: Seq<char>) -> Option<i32> {
    let d = digits_part(s);
    if d.len() > 0 && (forall|i: int| 0 <= i < d.len() ==> #[trigger] is_digit(d[i]))
        && i32::MIN <= signed_value(s) <= i32::MAX {
        Some(signed_value(s) as i32)
    } else {
        None
    }
}

/// The amount a typed text stands for: the number it denotes, or 0.
pub open spec fn typed_amount(s: Seq<char>) -> i32 {
    match parsed_i32(s) {
        Some(n) => n,
        None => 0,
    }
}

/// Digits only add to a value: a prefix of digits denotes no more than the
/// whole.
proof fn lemma_digits_value_grows(s: Seq<char>, i: int)
    requires
        0 <= i <= s.len(),
        forall|k: int| 0 <= k < s.len() ==> #[trigger] is_digit(s[k]),
    ensures
        0 <= digits_value(s.take(i)) <= digits_value(s),
    decreases s.len(),
{
    if s.len() > 0 {
        let t = s.drop_last();
        assert forall|k: int| 0 <= k < t.len() implies #[trigger] is_digit(t[k]) by {
            assert(t[k] == s[k]);
        }
        assert(is_digit(s[s.len() - 1]));
        assert(s.last() as int - '0' as int >= 0);
        lemma_digits_value_grows(t, t.len() as int);
        assert(t.take(t.len() as int) =~= t);
        if i == s.len() {
            assert(s.take(i) =~= s);
        } else {
            lemma_digits_value_grows(t, i);
            assert(t.take(i) =~= s.take(i));
        }
    }
}

/// Reads a typed amount: the `i32` the text denotes, or 0 when it denotes
/// none.
pub fn parse_amount(text: &str) -> (n: i32)
    ensures
        n == typed_amount(text@),
{
    let len = text.unicode_len();
    if len == 0 {
        return 0;
    }
    let first = text.get_char(0);
    let negative = first == '-';
    let start: usize = if first == '-' || first == '+' {
        1
    } else {
        0
    };
    let ghost d = digits_part(text@);
    assert(d =~= text@.skip(start as int));
    if start == len {
        return 0;
    }
    let mut value: i64 = 0;
    let mut i: usize = start;
    while i < len
        invariant
            len == text@.len(),
            start <= i <= len,
            d =~= text@.skip(start as int),
            d == digits_part(text@),
            len > 0,
            negative == (text@[0] == '-'),
            forall|k: int| 0 <= k < i - start ==> #[trigger] is_digit(d[k]),
            value == digits_value(d.take(i - start)),
            0 <= value <= 0x8000_0000,
        decreases len - i,
    {
        let c = text.get_char(i);
        assert(d[i - start] == c);
        if c < '0' || c > '9' {
            assert(!is_digit(d[i - start]));
            return 0;
        }
        let digit = (c as u32 - '0' as u32) as i64;
        assert(digit == c as int - '0' as int);
        let ghost k = i - start;
        assert(d.take(k + 1).drop_last() =~= d.take(k));
        assert(d.take(k + 1).last() == c);
        value = value * 10 + digit;
        assert(value == digits_value(d.take(k + 1)));
        if value > 0x8000_0000 {
            proof {
                if forall|j: int| 0 <= j < d.len() ==> #[trigger] is_digit(d[j]) {
                    lemma_digits_value_grows(d, k + 1);
                    assert(digits_value(d) > 0x8000_0000);
                }
            }
            return 0;
        }
        i = i + 1;
    }
    assert(d.take(len - start) =~= d);
    if negative {
        (-value) as i32
    } else {
        if value > 0x7fff_ffff {
            0
        } else {
            value as i32
        }
    }
}

} // verus!
