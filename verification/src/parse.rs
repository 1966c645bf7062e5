//! Decimal integer parsing for catalog-service columns.
//!
//! The catalog service hands numbers over as decimal text: an optional
//! single sign, then one or more ASCII digits.  These parsers accept
//! exactly that shape, within the result type's range, and reject
//! everything else.

use vstd::prelude::*;

verus! {

/// ASCII code of the zero digit.
pub const DIGIT_ZERO: u8 = 48;

/// ASCII code of the plus sign.
pub const PLUS_SIGN: u8 = 43;

/// ASCII code of the minus sign.
pub const MINUS_SIGN: u8 = 45;

/// Whether `b` is an ASCII decimal digit.
pub open spec fn is_ascii_digit(b: u8) -> bool {
    DIGIT_ZERO <= b && b <= DIGIT_ZERO + 9
}

/// Whether every byte of `s` is an ASCII decimal digit.
pub open spec fn all_digits(s: Seq<u8>) -> bool {
    forall|i: int| 0 <= i < s.len() ==> is_ascii_digit(#[trigger] s[i])
}

/// The number a run of decimal digits denotes.
pub open spec fn digits_value(s: Seq<u8>) -> int
    decreases s.len(),
{
    if s.len() == 0 {
        0
    } else {
        digits_value(s.drop_last()) * 10 + (s.last() - DIGIT_ZERO)
    }
}

/// The digit run of a signed decimal text: everything after a single
/// leading sign, or the whole text when it has none.
pub open spec fn int_text_digits(s: Seq<u8>) -> Seq<u8> {
    if s.len() > 0 && (s[0] == PLUS_SIGN || s[0] == MINUS_SIGN) {
        s.subrange(1, s.len() as int)
    } else {
        s
    }
}

/// Whether the text carries a leading minus sign.
pub open spec fn int_text_negative(s: Seq<u8>) -> bool {
    s.len() > 0 && s[0] == MINUS_SIGN
}

/// A well-formed signed decimal text: an optional single sign, then at
/// least one digit and nothing else.
pub open spec fn valid_int_text(s: Seq<u8>) -> bool {
    int_text_digits(s).len() > 0 && all_digits(int_text_digits(s))
}

/// The number a well-formed signed decimal text denotes.
pub open spec fn int_text_value(s: Seq<u8>) -> int {
    if int_text_negative(s) {
        -digits_value(int_text_digits(s))
    } else {
        digits_value(int_text_digits(s))
    }
}

/// A digit run denotes a nonnegative number.
proof fn lemma_digits_value_nonneg(s: Seq<u8>)
    requires
        all_digits(s),
    ensures
        digits_value(s) >= 0,
    decreases s.len(),
{
    if s.len() > 0 {
        assert(all_digits(s.drop_last())) by {
            assert(forall|i: int| 0 <= i < s.len() - 1 ==> s.drop_last()[i] == #[trigger] s[i]);
        }
        lemma_digits_value_nonneg(s.drop_last());
    }
}

/// Extending a digit run never shrinks its value: a prefix that is
/// already too large can never recover.
proof fn lemma_digits_value_prefix(s: Seq<u8>, j: int)
    requires
        all_digits(s),
        0 <= j <= s.len(),
    ensures
        digits_value(s) >= digits_value(s.take(j)),
    decreases s.len() - j,
{
    if j < s.len() {
        assert(s.take(j + 1).drop_last() =~= s.take(j));
        assert(all_digits(s.take(j))) by {
            assert(forall|i: int| 0 <= i < j ==> s.take(j)[i] == #[trigger] s[i]);
        }
        lemma_digits_value_nonneg(s.take(j));
        assert(s.take(j + 1).last() == s[j]);
        assert(digits_value(s.take(j + 1)) == digits_value(s.take(j)) * 10 + (s[j] - DIGIT_ZERO));
        lemma_digits_value_prefix(s, j + 1);
    } else {
        assert(s.take(j) =~= s);
    }
}

/// Parse a signed decimal integer, exactly as the catalog columns use
/// them: an optional single `+` or `-`, then one or more digits, and
/// the denoted number within the result type's range.
pub fn parse_i64(bytes: &[u8]) -> (r: Option<i64>)
    ensures
        r is Some <==> valid_int_text(bytes@) && i64::MIN <= int_text_value(bytes@)
            <= i64::MAX,
        r matches Some(v) ==> v == int_text_value(bytes@),
{
    let ghost s = bytes@;
    let mut i: usize = 0;
    let mut negative: bool = false;
    if bytes.len() > 0 && (bytes[0] == PLUS_SIGN || bytes[0] == MINUS_SIGN) {
        negative = bytes[0] == MINUS_SIGN;
        i = 1;
    }
    let ghost digits = int_text_digits(s);
    let start: usize = i;
    if i == bytes.len() {
        // No digits at all.
        return None;
    }
    // The largest admissible magnitude: one more for a negative number,
    // whose most negative value has no positive counterpart.
    let limit: u64 = if negative {
        9223372036854775808
    } else {
        9223372036854775807
    };
    let mut acc: u64 = 0;
    while i < bytes.len()
        invariant
            start <= i <= bytes@.len(),
            start <= 1,
            bytes@ == s,
            digits == int_text_digits(s),
            digits == s.subrange(start as int, s.len() as int),
            negative == int_text_negative(s),
            limit == if negative { 9223372036854775808u64 } else { 9223372036854775807u64 },
            all_digits(digits.take(i - start)),
            acc == digits_value(digits.take(i - start)),
            acc <= limit,
        decreases bytes@.len() - i,
    {
        let b = bytes[i];
        if b < DIGIT_ZERO || b > DIGIT_ZERO + 9 {
            assert(!all_digits(digits)) by {
                assert(digits[i - start] == b);
            }
            return None;
        }
        let d = (b - DIGIT_ZERO) as u64;
        if acc > (limit - d) / 10 {
            // The value so far is already too large; more digits can
            // only grow it.
            proof {
                assert(acc * 10 + d > limit) by (nonlinear_arith)
                    requires
                        acc > (limit - d) / 10,
                        d <= 9,
                        limit >= d,
                ;
                assert(digits.take(i + 1 - start).drop_last() =~= digits.take(i - start));
                assert(digits.take(i + 1 - start).last() == b);
                assert(digits_value(digits.take(i + 1 - start)) == acc * 10 + d);
                if valid_int_text(s) {
                    assert(all_digits(digits.take(i + 1 - start))) by {
                        assert(forall|k: int| 0 <= k < i + 1 - start
                            ==> digits.take(i + 1 - start)[k] == #[trigger] digits[k]);
                    }
                    lemma_digits_value_prefix(digits, i + 1 - start);
                    assert(digits_value(digits) > limit);
                }
            }
            return None;
        }
        proof {
            assert((limit - d) / 10 * 10 + d <= limit);
            assert(acc * 10 <= (limit - d) / 10 * 10) by (nonlinear_arith)
                requires
                    acc <= (limit - d) / 10,
            ;
            assert(digits.take(i + 1 - start).drop_last() =~= digits.take(i - start));
            assert(digits.take(i + 1 - start).last() == b);
        }
        acc = acc * 10 + d;
        i = i + 1;
    }
    proof {
        assert(digits.take(i - start) =~= digits);
    }
    if negative {
        if acc == 9223372036854775808 {
            Some(i64::MIN)
        } else {
            Some(-(acc as i64))
        }
    } else {
        Some(acc as i64)
    }
}

/// Parse an unsigned decimal integer as the catalog columns carry small
/// counts: an optional single `+`, then one or more digits, within
/// `u8` range.
pub fn parse_u8(bytes: &[u8]) -> (r: Option<u8>)
    ensures
        r is Some <==> valid_int_text(bytes@) && !int_text_negative(bytes@)
            && int_text_value(bytes@) <= u8::MAX,
        r matches Some(v) ==> v == int_text_value(bytes@),
{
    if bytes.len() > 0 && bytes[0] == MINUS_SIGN {
        return None;
    }
    match parse_i64(bytes) {
        Some(v) => {
            proof {
                if valid_int_text(bytes@) {
                    lemma_digits_value_nonneg(int_text_digits(bytes@));
                }
            }
            if v <= 255 {
                Some(v as u8)
            } else {
                None
            }
        },
        None => {
            proof {
                if valid_int_text(bytes@) && int_text_value(bytes@) <= u8::MAX {
                    lemma_digits_value_nonneg(int_text_digits(bytes@));
                }
            }
            None
        },
    }
}

/// Parse an unsigned decimal integer within `u16` range, as
/// [`parse_u8`] does for `u8`.
pub fn parse_u16(bytes: &[u8]) -> (r: Option<u16>)
    ensures
        r is Some <==> valid_int_text(bytes@) && !int_text_negative(bytes@)
            && int_text_value(bytes@) <= u16::MAX,
        r matches Some(v) ==> v == int_text_value(bytes@),
{
    if bytes.len() > 0 && bytes[0] == MINUS_SIGN {
        return None;
    }
    match parse_i64(bytes) {
        Some(v) => {
            proof {
                if valid_int_text(bytes@) {
                    lemma_digits_value_nonneg(int_text_digits(bytes@));
                }
            }
            if v <= 65535 {
                Some(v as u16)
            } else {
                None
            }
        },
        None => {
            proof {
                if valid_int_text(bytes@) && int_text_value(bytes@) <= u16::MAX {
                    lemma_digits_value_nonneg(int_text_digits(bytes@));
                }
            }
            None
        },
    }
}

} // verus!
