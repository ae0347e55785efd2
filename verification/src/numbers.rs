//! Decimal integers in text.

use vstd::prelude::*;

verus! {

/// Whether a character is one of `0` to `9`.
pub open spec fn is_digit(c: char) -> bool {
    '0' <= c && c <= '9'
}

/// Whether a text holds digits only.
pub open spec fn all_digits(s: Seq<char>) -> bool {
    forall|i: int| 0 <= i < s.len() ==> is_digit(#[trigger] s[i])
}

/// The number that a text of digits writes in base ten.
pub open spec fn digits_value(s: Seq<char>) -> nat
    decreases s.len(),
{
    if s.len() == 0 {
        0
    } else {
        (digits_value(s.drop_last()) * 10 + (s.last() as nat - '0' as nat)) as nat
    }
}

/// The signed 64-bit integer that a text writes: an optional `+` or `-`, then
/// one or more digits and nothing else, the value within range.
pub open spec fn decimal_integer(s: Seq<char>) -> Option<i64> {
    let signed = s.len() > 0 && (s[0] == '-' || s[0] == '+');
    let digits = if signed {
        s.drop_first()
    } else {
        s
    };
    let magnitude = digits_value(digits) as int;
    let value = if signed && s[0] == '-' {
        -magnitude
    } else {
        magnitude
    };
    if digits.len() > 0 && all_digits(digits) && i64::MIN <= value <= i64::MAX {
        Some(value as i64)
    } else {
        None
    }
}

/// The digits of a text after its sign, if it has one.
pub open spec fn unsigned_part(s: Seq<char>) -> Seq<char> {
    if s.len() > 0 && (s[0] == '-' || s[0] == '+') {
        s.drop_first()
    } else {
        s
    }
}

/// The number that the first digits of a text write is at most the number
/// that all of them write.
proof fn lemma_digits_value_grows(s: Seq<char>, j: int)
    requires
        all_digits(s),
        0 <= j <= s.len(),
    ensures
        digits_value(s.subrange(0, j)) <= digits_value(s),
    decreases s.len(),
{
    if j == s.len() {
        assert(s.subrange(0, j) =~= s);
    } else {
        let shorter = s.drop_last();
        assert(is_digit(s.last()));
        assert forall|i: int| 0 <= i < shorter.len() implies is_digit(#[trigger] shorter[i]) by {
            assert(shorter[i] == s[i]);
        }
        lemma_digits_value_grows(shorter, j);
        assert(shorter.subrange(0, j) =~= s.subrange(0, j));
    }
}

/// One more digit: the number that the first `j + 1` digits write.
proof fn lemma_digits_value_step(s: Seq<char>, j: int)
    requires
        0 <= j < s.len(),
        is_digit(s[j]),
    ensures
        digits_value(s.subrange(0, j + 1)) == digits_value(s.subrange(0, j)) * 10 + (s[j] as nat
            - '0' as nat),
{
    let longer = s.subrange(0, j + 1);
    assert(longer.drop_last() =~= s.subrange(0, j));
    assert(longer.last() == s[j]);
}

/// Reads a signed 64-bit integer written in base ten: an optional `+` or `-`,
/// then one or more digits and nothing else. Anything else, and a value out of
/// range, gives nothing.
pub fn parse_integer(s: &str) -> (r: Option<i64>)
    ensures
        r == decimal_integer(s@),
{
    let n: usize = s.unicode_len();
    if n == 0 {
        return None;
    }
    let first = s.get_char(0);
    let negative = first == '-';
    let start: usize = if first == '-' || first == '+' {
        1
    } else {
        0
    };
    let ghost digits = unsigned_part(s@);
    if start == n {
        return None;
    }
    let mut acc: i64 = 0;
    let mut i: usize = start;
    proof {
        assert(digits.subrange(0, 0) =~= Seq::<char>::empty());
    }
    while i < n
        invariant
            start <= i <= n,
            n == s@.len(),
            start <= 1,
            negative == (s@[0] == '-'),
            digits == unsigned_part(s@),
            digits.len() == n - start,
            forall|k: int| 0 <= k < digits.len() ==> digits[k] == s@[k + start],
            forall|k: int| 0 <= k < i - start ==> is_digit(#[trigger] digits[k]),
            negative ==> acc == -(digits_value(digits.subrange(0, i - start)) as int),
            !negative ==> acc == digits_value(digits.subrange(0, i - start)) as int,
        decreases n - i,
    {
        let c = s.get_char(i);
        let ghost j = i - start;
        assert(digits[j] == c);
        if c < '0' || c > '9' {
            assert(!is_digit(digits[j]));
            return None;
        }
        let d: i64 = (c as u32 - '0' as u32) as i64;
        proof {
            lemma_digits_value_step(digits, j);
            assert(d == c as nat - '0' as nat);
            if all_digits(digits) {
                lemma_digits_value_grows(digits, j + 1);
            }
        }

        if negative {
            if acc < -922337203685477580 {
                return None;
            }
            let tens: i64 = acc * 10;
            if tens < i64::MIN + d {
                return None;
            }
            acc = tens - d;
        } else {
            if acc > 922337203685477580 {
                return None;
            }
            let tens: i64 = acc * 10;
            if tens > i64::MAX - d {
                return None;
            }
            acc = tens + d;
        }
        i = i + 1;
    }
    proof {
        assert(digits.subrange(0, n - start) =~= digits);
    }
    Some(acc)
}

} // verus!
