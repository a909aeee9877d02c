//! Decimal content-length values: parsing a header's bytes into a byte
//! count, and rendering a byte count as a header value.

use vstd::prelude::*;

verus! {

/// The byte `'0'`.
pub const ASCII_ZERO: u8 = 48;

/// The byte `'9'`.
pub const ASCII_NINE: u8 = 57;

/// The byte `'+'`.
pub const ASCII_PLUS: u8 = 43;

/// The byte is an ASCII decimal digit.
pub open spec fn is_digit(b: u8) -> bool {
    ASCII_ZERO <= b <= ASCII_NINE
}

/// Numeric value of one ASCII digit.
pub open spec fn digit_value(b: u8) -> int {
    b - ASCII_ZERO
}

/// Every byte of the sequence is an ASCII decimal digit.
pub open spec fn all_digits(s: Seq<u8>) -> bool {
    forall|i: int| 0 <= i < s.len() ==> is_digit(#[trigger] s[i])
}

/// The number denoted by a sequence of ASCII digits, most significant first.
pub open spec fn digits_value(s: Seq<u8>) -> int
    decreases s.len(),
{
    if s.len() == 0 {
        0
    } else {
        10 * digits_value(s.drop_last()) + digit_value(s.last())
    }
}

/// The digits of a header value: an optional leading `+` sign is dropped,
/// mirroring how standard unsigned decimal parsing treats it.
pub open spec fn unsigned_digits(s: Seq<u8>) -> Seq<u8> {
    if s.len() > 0 && s[0] == ASCII_PLUS {
        s.drop_first()
    } else {
        s
    }
}

/// The byte sequence is a well-formed content-length value: an optional `+`
/// sign, then at least one digit, denoting a number that fits in a `u64`.
pub open spec fn is_content_length(s: Seq<u8>) -> bool {
    &&& unsigned_digits(s).len() > 0
    &&& all_digits(unsigned_digits(s))
    &&& digits_value(unsigned_digits(s)) <= u64::MAX
}

/// The number a well-formed content-length value denotes.
pub open spec fn content_length_value(s: Seq<u8>) -> int {
    digits_value(unsigned_digits(s))
}

/// What parsing a content-length header value yields: the denoted number
/// when the value is well formed, nothing otherwise.
pub open spec fn spec_parse_content_length(s: Seq<u8>) -> Option<u64> {
    if is_content_length(s) {
        Some(content_length_value(s) as u64)
    } else {
        None
    }
}

/// Parses a content-length header value, exactly as standard unsigned
/// decimal parsing would: an optional leading `+`, then one or more ASCII
/// digits, rejected when empty, malformed or beyond `u64`.
pub fn parse_content_length(s: &[u8]) -> (r: Option<u64>)
    ensures
        r == spec_parse_content_length(s@),
{
    let len = s.len();
    let start: usize = if len > 0 && s[0] == ASCII_PLUS {
        1
    } else {
        0
    };
    if start >= len {
        return None;
    }
    let mut acc: u64 = 0;
    let mut too_big = false;
    let mut i = start;
    while i < len
        invariant
            start <= i <= len == s@.len(),
            start == 0 || start == 1,
            start == 1 ==> s@[0] == ASCII_PLUS,
            start == 0 ==> !(s@.len() > 0 && s@[0] == ASCII_PLUS),
            start < len,
            all_digits(s@.subrange(start as int, i as int)),
            !too_big ==> acc == digits_value(s@.subrange(start as int, i as int)),
            too_big ==> digits_value(s@.subrange(start as int, i as int)) > u64::MAX,
        decreases len - i,
    {
        let b = s[i];
        if b < ASCII_ZERO || b > ASCII_NINE {
            assert(!all_digits(unsigned_digits(s@))) by {
                assert(unsigned_digits(s@) =~= s@.subrange(start as int, s@.len() as int));
                assert(unsigned_digits(s@)[i - start] == s@[i as int]);
            }
            return None;
        }
        let d = b - ASCII_ZERO;
        proof {
            let prev = s@.subrange(start as int, i as int);
            let cur = s@.subrange(start as int, i + 1);
            assert(cur.drop_last() =~= prev);
            assert(cur.last() == s@[i as int]);
            assert(digits_value(cur) == 10 * digits_value(prev) + digit_value(s@[i as int]));
            assert forall|j: int| 0 <= j < cur.len() implies is_digit(#[trigger] cur[j]) by {
                if j < prev.len() {
                    assert(cur[j] == prev[j]);
                }
            }
        }
        if !too_big {
            // `u64::MAX / 10` and the last digit of `u64::MAX`: the largest
            // accumulator states that can still take the digit `d`.
            if acc < 1844674407370955161 || (acc == 1844674407370955161 && d <= 5) {
                acc = acc * 10 + d as u64;
            } else {
                too_big = true;
            }
        }
        i = i + 1;
    }
    proof {
        assert(s@.subrange(start as int, len as int) =~= unsigned_digits(s@));
    }
    if too_big {
        None
    } else {
        Some(acc)
    }
}

/// The canonical decimal rendering of a non-negative number: no sign, no
/// leading zeros, and `"0"` for zero.
pub open spec fn decimal_digits(n: int) -> Seq<u8>
    decreases n,
{
    if 0 <= n < 10 {
        seq![(n + ASCII_ZERO) as u8]
    } else if n >= 10 {
        decimal_digits(n / 10).push((n % 10 + ASCII_ZERO) as u8)
    } else {
        Seq::empty()
    }
}

/// The canonical rendering consists of digits and denotes the number it was
/// made from, without leading zeros.
pub proof fn lemma_decimal_digits(n: int)
    requires
        n >= 0,
    ensures
        all_digits(decimal_digits(n)),
        decimal_digits(n).len() >= 1,
        digits_value(decimal_digits(n)) == n,
        decimal_digits(n).len() > 1 ==> decimal_digits(n)[0] != ASCII_ZERO,
    decreases n,
{
    if n < 10 {
        assert(decimal_digits(n) =~= seq![(n + ASCII_ZERO) as u8]);
        assert(decimal_digits(n).drop_last() =~= Seq::<u8>::empty());
        assert(digits_value(decimal_digits(n)) == 10 * digits_value(
            decimal_digits(n).drop_last(),
        ) + digit_value(decimal_digits(n).last()));
    } else {
        lemma_decimal_digits(n / 10);
        let prefix = decimal_digits(n / 10);
        let whole = decimal_digits(n);
        assert(whole.drop_last() =~= prefix);
        assert(whole.last() == (n % 10 + ASCII_ZERO) as u8);
        assert(digit_value((n % 10 + ASCII_ZERO) as u8) == n % 10);
        assert(digits_value(whole) == 10 * digits_value(prefix) + digit_value(whole.last()));
        assert(n == 10 * (n / 10) + n % 10);
        assert(whole[0] == prefix[0]);
        assert(n / 10 >= 1);
        if prefix.len() == 1 {
            assert(prefix.drop_last().len() == 0);
            assert(digits_value(prefix.drop_last()) == 0);
            assert(digits_value(prefix) == 10 * digits_value(prefix.drop_last()) + digit_value(
                prefix.last(),
            ));
            assert(prefix.last() == prefix[0]);
            assert(digit_value(prefix[0]) == n / 10);
        }
        assert forall|j: int| 0 <= j < whole.len() implies is_digit(#[trigger] whole[j]) by {
            if j < prefix.len() {
                assert(whole[j] == prefix[j]);
            }
        }
    }
}

/// Appends the decimal rendering of `n` to `out`.
fn push_decimal(n: u64, out: &mut Vec<u8>)
    ensures
        final(out)@ == old(out)@ + decimal_digits(n as int),
    decreases n,
{
    if n >= 10 {
        proof {
            assert(n / 10 < n) by (nonlinear_arith)
                requires
                    n >= 10,
            ;
        }
        push_decimal(n / 10, out);
    }
    out.push((n % 10) as u8 + ASCII_ZERO);
    proof {
        if n < 10 {
            assert(old(out)@ + decimal_digits(n as int) =~= old(out)@.push(
                (n as int % 10 + ASCII_ZERO) as u8,
            ));
        } else {
            assert(old(out)@ + decimal_digits(n as int) =~= (old(out)@ + decimal_digits(
                n as int / 10,
            )).push((n as int % 10 + ASCII_ZERO) as u8));
        }
    }
}

/// Renders a byte count as the value of a `content-length` header: the
/// canonical decimal digits of `n`.
pub fn content_length_bytes(n: u64) -> (r: Vec<u8>)
    ensures
        r@ == decimal_digits(n as int),
        all_digits(r@),
        r@.len() >= 1,
        digits_value(r@) == n,
        r@.len() > 1 ==> r@[0] != ASCII_ZERO,
{
    let mut out: Vec<u8> = Vec::new();
    push_decimal(n, &mut out);
    proof {
        lemma_decimal_digits(n as int);
        assert(out@ =~= decimal_digits(n as int));
    }
    out
}

} // verus!
