//! Decimal text of unsigned integers.
use vstd::prelude::*;

verus! {

/// Whether `c` is one of `0` to `9`.
pub open spec fn is_decimal_digit(c: char) -> bool {
    '0' <= c && c <= '9'
}

/// The value of a decimal digit.
pub open spec fn digit_value(c: char) -> nat {
    (c as nat - 48) as nat
}

/// The number that a string of decimal digits writes, most significant first.
pub open spec fn digits_value(d: Seq<char>) -> nat
    decreases d.len(),
{
    if d.len() == 0 {
        0
    } else {
        digits_value(d.drop_last()) * 10 + digit_value(d.last())
    }
}

/// Whether every character of `d` is a decimal digit.
pub open spec fn all_decimal_digits(d: Seq<char>) -> bool {
    forall|i: int| 0 <= i < d.len() ==> #[trigger] is_decimal_digit(d[i])
}

/// The digits that `text` holds after an optional leading `+`.
pub open spec fn unsigned_digits(text: Seq<char>) -> Seq<char> {
    if text.len() > 0 && text[0] == '+' {
        text.drop_first()
    } else {
        text
    }
}

/// What `str::parse::<u128>` gives for `text`: a nonempty run of decimal
/// digits after an optional `+`, whose value fits in a `u128`.
pub open spec fn parsed_u128(text: Seq<char>) -> Option<u128> {
    let d = unsigned_digits(text);
    if d.len() > 0 && all_decimal_digits(d) && digits_value(d) <= u128::MAX {
        Some(digits_value(d) as u128)
    } else {
        None
    }
}

/// The decimal text of `n`, without leading zeros (`0` for zero).
pub open spec fn decimal_text(n: nat) -> Seq<char>
    decreases n,
{
    if n < 10 {
        seq![(n + 48) as char]
    } else {
        decimal_text(n / 10).push(((n % 10) + 48) as char)
    }
}

/// A longer run of digits never writes a smaller number than its prefix.
pub proof fn lemma_digits_value_prefix(d: Seq<char>, k: int)
    requires
        0 <= k <= d.len(),
        all_decimal_digits(d),
    ensures
        digits_value(d.subrange(0, k)) <= digits_value(d),
    decreases d.len(),
{
    if k < d.len() {
        let t = d.drop_last();
        assert(all_decimal_digits(t)) by {
            assert forall|i: int| 0 <= i < t.len() implies #[trigger] is_decimal_digit(t[i]) by {
                assert(t[i] == d[i]);
            }
        }
        lemma_digits_value_prefix(t, k);
        assert(t.subrange(0, k) =~= d.subrange(0, k));
    } else {
        assert(d.subrange(0, k) =~= d);
    }
}

/// Every character of the decimal text of a number is a digit, the text is
/// not empty, and it writes that number.
pub proof fn lemma_decimal_text_digits(n: nat)
    ensures
        decimal_text(n).len() > 0,
        all_decimal_digits(decimal_text(n)),
        digits_value(decimal_text(n)) == n,
    decreases n,
{
    if n >= 10 {
        lemma_decimal_text_digits(n / 10);
        let t = decimal_text(n);
        let p = decimal_text(n / 10);
        assert(t.drop_last() =~= p);
        assert(t.last() as nat == n % 10 + 48);
        assert(digit_value(t.last()) == n % 10);
        assert(digits_value(t) == digits_value(t.drop_last()) * 10 + digit_value(t.last()));
        assert forall|i: int| 0 <= i < t.len() implies #[trigger] is_decimal_digit(t[i]) by {
            if i < p.len() {
                assert(t[i] == p[i]);
            }
        }
    } else {
        let t = decimal_text(n);
        assert(t.drop_last() =~= Seq::<char>::empty());
        assert(t.last() as nat == n + 48);
        assert(digit_value(t.last()) == n);
        assert(digits_value(t.drop_last()) == 0);
        assert(digits_value(t) == digits_value(t.drop_last()) * 10 + digit_value(t.last()));
    }
}

/// Parsing the decimal text of a 128-bit number gives the number back: the
/// amounts that the sync reads as decimal text are read exactly.
pub proof fn lemma_parse_decimal_text_roundtrip(v: u128)
    ensures
        parsed_u128(decimal_text(v as nat)) == Some(v),
{
    lemma_decimal_text_digits(v as nat);
    let t = decimal_text(v as nat);
    assert(is_decimal_digit(t[0]));
    assert(unsigned_digits(t) == t);
}

/// Parses the decimal text of an unsigned 128-bit number as
/// `str::parse::<u128>` does: an optional `+`, then one or more digits,
/// with no overflow.
pub fn parse_u128(text: &str) -> (parsed: Option<u128>)
    ensures
        parsed == parsed_u128(text@),
{
    let len = text.unicode_len();
    let mut start: usize = 0;
    if len > 0 && text.get_char(0) == '+' {
        start = 1;
    }
    let ghost d = unsigned_digits(text@);
    assert(d =~= text@.subrange(start as int, len as int));
    if start == len {
        return None;
    }
    let mut i: usize = start;
    let mut value: u128 = 0;
    let mut overflow = false;
    while i < len
        invariant
            start <= i <= len,
            len == text@.len(),
            start < len,
            d =~= text@.subrange(start as int, len as int),
            d == unsigned_digits(text@),
            forall|j: int| 0 <= j < i - start ==> #[trigger] is_decimal_digit(d[j]),
            !overflow ==> value as nat == digits_value(d.subrange(0, i - start)),
            overflow ==> digits_value(d.subrange(0, i - start)) > u128::MAX,
        decreases len - i,
    {
        let c = text.get_char(i);
        if c < '0' || c > '9' {
            assert(d[i - start] == c);
            assert(!is_decimal_digit(d[i - start]));
            assert(!all_decimal_digits(d));
            return None;
        }
        let ghost prefix = d.subrange(0, i - start);
        let ghost next = d.subrange(0, i + 1 - start);
        assert(next.drop_last() =~= prefix);
        assert(next.last() == c);
        let digit = (c as u32 - 48) as u128;
        if !overflow {
            if value > (u128::MAX - digit) / 10 {
                overflow = true;
            } else {
                value = value * 10 + digit;
            }
        }
        i = i + 1;
    }
    assert(d.subrange(0, len - start) =~= d);
    if overflow {
        None
    } else {
        Some(value)
    }
}

} // verus!
