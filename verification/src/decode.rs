//! Decoding of venue wire values into the shared domain model.
//!
//! Two patterns cover every connector's message layer: numeric-as-text
//! fields, parsed into exact [`Decimal`] values, and closed-vocabulary enum
//! fields, mapped 1:1 onto the domain enums by an explicit finite table.
//! Any token outside a table is a hard decode failure naming the token and
//! the accepted set; it is never coerced to a nearby accepted value.

use vstd::prelude::*;
use vstd::string::StrSliceExecFns;

use crate::types::{Decimal, DecodeError, OrdType, Side, Status, TimeInForce};

verus! {

/// Character-wise equality of two string slices, proved against their views.
pub fn str_eq(a: &str, b: &str) -> (r: bool)
    ensures
        r == (a@ == b@),
{
    let n = a.unicode_len();
    let m = b.unicode_len();
    if n != m {
        return false;
    }
    let mut i: usize = 0;
    while i < n
        invariant
            n == a@.len(),
            n == b@.len(),
            0 <= i <= n,
            forall|j: int| 0 <= j < i ==> a@[j] == b@[j],
        decreases n - i,
    {
        if a.get_char(i) != b.get_char(i) {
            return false;
        }
        i = i + 1;
    }
    proof {
        assert(a@ =~= b@);
    }
    true
}

/// Decodes a side token: `"BUY"` or `"SELL"`.
pub fn decode_side(s: &str) -> (r: Result<Side, DecodeError>)
    ensures
        s@ == "BUY"@ ==> r == Ok::<Side, DecodeError>(Side::Buy),
        s@ == "SELL"@ ==> r == Ok::<Side, DecodeError>(Side::Sell),
        s@ != "BUY"@ && s@ != "SELL"@ ==> (r matches Err(e)
            && e matches DecodeError::UnexpectedToken { token, expected }
            && token@ == s@
            && expected@ == "BUY or SELL"@),
{
    proof {
        reveal_strlit("BUY");
        reveal_strlit("SELL");
        assert("BUY"@.len() == 3 && "SELL"@.len() == 4);
    }
    if str_eq(s, "BUY") {
        Ok(Side::Buy)
    } else if str_eq(s, "SELL") {
        Ok(Side::Sell)
    } else {
        Err(DecodeError::UnexpectedToken {
            token: s.to_owned(),
            expected: "BUY or SELL".to_owned(),
        })
    }
}

/// Decodes an order-status token.
///
/// Venue states outside the supported table, such as `"REJECTED"` or
/// `"EXPIRED_IN_MATCH"`, are rejected at decode time rather than mapped to a
/// nearby accepted status.
pub fn decode_status(s: &str) -> (r: Result<Status, DecodeError>)
    ensures
        s@ == "NEW"@ ==> r == Ok::<Status, DecodeError>(Status::New),
        s@ == "PARTIALLY_FILLED"@ ==> r == Ok::<Status, DecodeError>(Status::PartiallyFilled),
        s@ == "FILLED"@ ==> r == Ok::<Status, DecodeError>(Status::Filled),
        s@ == "CANCELED"@ ==> r == Ok::<Status, DecodeError>(Status::Canceled),
        s@ == "EXPIRED"@ ==> r == Ok::<Status, DecodeError>(Status::Expired),
        s@ != "NEW"@ && s@ != "PARTIALLY_FILLED"@ && s@ != "FILLED"@ && s@ != "CANCELED"@
            && s@ != "EXPIRED"@ ==> (r matches Err(e)
            && e matches DecodeError::UnexpectedToken { token, expected }
            && token@ == s@
            && expected@ == "NEW,PARTIALLY_FILLED,FILLED,CANCELED,EXPIRED"@),
{
    proof {
        reveal_strlit("NEW");
        reveal_strlit("PARTIALLY_FILLED");
        reveal_strlit("FILLED");
        reveal_strlit("CANCELED");
        reveal_strlit("EXPIRED");
        assert("NEW"@.len() == 3 && "PARTIALLY_FILLED"@.len() == 16 && "FILLED"@.len() == 6
            && "CANCELED"@.len() == 8 && "EXPIRED"@.len() == 7);
    }
    if str_eq(s, "NEW") {
        Ok(Status::New)
    } else if str_eq(s, "PARTIALLY_FILLED") {
        Ok(Status::PartiallyFilled)
    } else if str_eq(s, "FILLED") {
        Ok(Status::Filled)
    } else if str_eq(s, "CANCELED") {
        Ok(Status::Canceled)
    } else if str_eq(s, "EXPIRED") {
        Ok(Status::Expired)
    } else {
        Err(DecodeError::UnexpectedToken {
            token: s.to_owned(),
            expected: "NEW,PARTIALLY_FILLED,FILLED,CANCELED,EXPIRED".to_owned(),
        })
    }
}

/// Decodes an order-type token: `"LIMIT"` or `"MARKET"`.
pub fn decode_ord_type(s: &str) -> (r: Result<OrdType, DecodeError>)
    ensures
        s@ == "LIMIT"@ ==> r == Ok::<OrdType, DecodeError>(OrdType::Limit),
        s@ == "MARKET"@ ==> r == Ok::<OrdType, DecodeError>(OrdType::Market),
        s@ != "LIMIT"@ && s@ != "MARKET"@ ==> (r matches Err(e)
            && e matches DecodeError::UnexpectedToken { token, expected }
            && token@ == s@
            && expected@ == "LIMIT,MARKET"@),
{
    proof {
        reveal_strlit("LIMIT");
        reveal_strlit("MARKET");
        assert("LIMIT"@.len() == 5 && "MARKET"@.len() == 6);
    }
    if str_eq(s, "LIMIT") {
        Ok(OrdType::Limit)
    } else if str_eq(s, "MARKET") {
        Ok(OrdType::Market)
    } else {
        Err(DecodeError::UnexpectedToken {
            token: s.to_owned(),
            expected: "LIMIT,MARKET".to_owned(),
        })
    }
}

/// Decodes a time-in-force token.
pub fn decode_time_in_force(s: &str) -> (r: Result<TimeInForce, DecodeError>)
    ensures
        s@ == "GTC"@ ==> r == Ok::<TimeInForce, DecodeError>(TimeInForce::GTC),
        s@ == "IOC"@ ==> r == Ok::<TimeInForce, DecodeError>(TimeInForce::IOC),
        s@ == "FOK"@ ==> r == Ok::<TimeInForce, DecodeError>(TimeInForce::FOK),
        s@ == "GTX"@ ==> r == Ok::<TimeInForce, DecodeError>(TimeInForce::GTX),
        s@ != "GTC"@ && s@ != "IOC"@ && s@ != "FOK"@ && s@ != "GTX"@ ==> (r matches Err(e)
            && e matches DecodeError::UnexpectedToken { token, expected }
            && token@ == s@
            && expected@ == "GTC,IOC,FOK,GTX"@),
{
    proof {
        reveal_strlit("GTC");
        reveal_strlit("IOC");
        reveal_strlit("FOK");
        reveal_strlit("GTX");
        assert("GTC"@[0] == 'G' && "IOC"@[0] == 'I' && "FOK"@[0] == 'F' && "GTX"@[0] == 'G'
            && "GTC"@[2] == 'C' && "GTX"@[2] == 'X');
    }
    if str_eq(s, "GTC") {
        Ok(TimeInForce::GTC)
    } else if str_eq(s, "IOC") {
        Ok(TimeInForce::IOC)
    } else if str_eq(s, "FOK") {
        Ok(TimeInForce::FOK)
    } else if str_eq(s, "GTX") {
        Ok(TimeInForce::GTX)
    } else {
        Err(DecodeError::UnexpectedToken {
            token: s.to_owned(),
            expected: "GTC,IOC,FOK,GTX".to_owned(),
        })
    }
}

/// A decimal digit `'0'` through `'9'`.
pub open spec fn is_dec_digit(c: char) -> bool {
    48 <= c as int && c as int <= 57
}

/// Numeric value of a decimal digit.
pub open spec fn digit_val(c: char) -> int {
    c as int - 48
}

/// Whether the text starts with an explicit sign.
pub open spec fn has_sign(s: Seq<char>) -> bool {
    s.len() > 0 && (s[0] == '-' || s[0] == '+')
}

pub open spec fn is_negative(s: Seq<char>) -> bool {
    s.len() > 0 && s[0] == '-'
}

/// The text with any leading sign removed.
pub open spec fn body_of(s: Seq<char>) -> Seq<char> {
    if has_sign(s) {
        s.skip(1)
    } else {
        s
    }
}

/// Number of decimal digits in the text.
pub open spec fn digit_count(t: Seq<char>) -> int
    decreases t.len(),
{
    if t.len() == 0 {
        0
    } else {
        digit_count(t.drop_last()) + if is_dec_digit(t.last()) {
            1int
        } else {
            0int
        }
    }
}

/// Number of `'.'` characters in the text.
pub open spec fn dot_count(t: Seq<char>) -> int
    decreases t.len(),
{
    if t.len() == 0 {
        0
    } else {
        dot_count(t.drop_last()) + if t.last() == '.' {
            1int
        } else {
            0int
        }
    }
}

/// The unsigned integer formed by all digits of the text read left to right,
/// ignoring any decimal point.
pub open spec fn magnitude(t: Seq<char>) -> int
    decreases t.len(),
{
    if t.len() == 0 {
        0
    } else if is_dec_digit(t.last()) {
        magnitude(t.drop_last()) * 10 + digit_val(t.last())
    } else {
        magnitude(t.drop_last())
    }
}

/// Number of digits standing after a decimal point.
pub open spec fn frac_len(t: Seq<char>) -> int
    decreases t.len(),
{
    if t.len() == 0 {
        0
    } else if is_dec_digit(t.last()) && dot_count(t.drop_last()) > 0 {
        frac_len(t.drop_last()) + 1
    } else {
        frac_len(t.drop_last())
    }
}

/// Every character is a digit or a decimal point.
pub open spec fn decimal_chars_ok(t: Seq<char>) -> bool {
    forall|i: int| 0 <= i < t.len() ==> is_dec_digit(t[i]) || t[i] == '.'
}

/// The accepted decimal grammar: an optional sign, then digits with at most
/// one `'.'` among them and at least one digit.
pub open spec fn is_valid_decimal(s: Seq<char>) -> bool {
    let t = body_of(s);
    decimal_chars_ok(t) && dot_count(t) <= 1 && digit_count(t) >= 1
}

/// The signed mantissa the text denotes.
pub open spec fn decimal_mantissa(s: Seq<char>) -> int {
    if is_negative(s) {
        -magnitude(body_of(s))
    } else {
        magnitude(body_of(s))
    }
}

/// The scale (count of fraction digits) the text denotes.
pub open spec fn decimal_scale(s: Seq<char>) -> int {
    frac_len(body_of(s))
}

proof fn lemma_magnitude_nonneg(t: Seq<char>)
    ensures
        magnitude(t) >= 0,
    decreases t.len(),
{
    if t.len() > 0 {
        lemma_magnitude_nonneg(t.drop_last());
    }
}

/// Extending the text never decreases the digit magnitude or the dot count.
proof fn lemma_prefix_bounds(t: Seq<char>, j: int)
    requires
        0 <= j <= t.len(),
    ensures
        magnitude(t) >= magnitude(t.subrange(0, j)),
        dot_count(t) >= dot_count(t.subrange(0, j)),
    decreases t.len() - j,
{
    if j == t.len() {
        assert(t.subrange(0, j) =~= t);
    } else {
        lemma_prefix_bounds(t.drop_last(), j);
        assert(t.drop_last().subrange(0, j) =~= t.subrange(0, j));
        lemma_magnitude_nonneg(t.drop_last());
    }
}

/// Parses a numeric-as-text wire field into an exact decimal.
///
/// Succeeds exactly on texts of the decimal grammar whose digit string fits
/// a signed 64-bit mantissa; every other text fails with a decode error
/// carrying the offending text.
#[verifier::rlimit(50)]
pub fn parse_decimal(s: &str) -> (r: Result<Decimal, DecodeError>)
    ensures
        is_valid_decimal(s@) && magnitude(body_of(s@)) <= i64::MAX ==> (r matches Ok(d)
            && d.mantissa as int == decimal_mantissa(s@)
            && d.scale as int == decimal_scale(s@)),
        !(is_valid_decimal(s@) && magnitude(body_of(s@)) <= i64::MAX) ==> (r matches Err(e)
            && e matches DecodeError::InvalidNumeric { text }
            && text@ == s@),
{
    let n = s.unicode_len();
    let mut start: usize = 0;
    let mut neg = false;
    if n > 0 {
        let c0 = s.get_char(0);
        if c0 == '-' {
            neg = true;
            start = 1;
        } else if c0 == '+' {
            start = 1;
        }
    }
    let ghost t = body_of(s@);
    proof {
        assert(t =~= s@.skip(start as int));
    }
    let mut acc: i64 = 0;
    let mut digits: usize = 0;
    let mut dots: usize = 0;
    let mut fracs: usize = 0;
    let mut k: usize = start;
    while k < n
        invariant
            start <= k <= n,
            n == s@.len(),
            start == if has_sign(s@) { 1int } else { 0int },
            neg == is_negative(s@),
            t == body_of(s@),
            t == s@.skip(start as int),
            0 <= acc,
            acc as int == magnitude(t.subrange(0, k - start)),
            digits as int == digit_count(t.subrange(0, k - start)),
            dots as int == dot_count(t.subrange(0, k - start)),
            fracs as int == frac_len(t.subrange(0, k - start)),
            decimal_chars_ok(t.subrange(0, k - start)),
            dots <= 1,
            digits <= k,
            fracs <= k,
        decreases n - k,
    {
        let ghost p = t.subrange(0, k - start);
        let ghost p2 = t.subrange(0, k - start + 1);
        let c = s.get_char(k);
        proof {
            assert(t[k - start] == s@[k as int]);
            assert(p2.drop_last() =~= p);
            assert(p2.last() == t[k - start]);
        }
        let cv: u32 = c as u32;
        if 48 <= cv && cv <= 57 {
            let d: i64 = (cv - 48) as i64;
            let acc10 = match acc.checked_mul(10) {
                Some(v) => v,
                None => {
                    proof {
                        lemma_prefix_bounds(t, k - start + 1);
                        lemma_magnitude_nonneg(p);
                    }
                    return Err(DecodeError::InvalidNumeric { text: s.to_owned() });
                },
            };
            let acc2 = match acc10.checked_add(d) {
                Some(v) => v,
                None => {
                    proof {
                        lemma_prefix_bounds(t, k - start + 1);
                        lemma_magnitude_nonneg(p);
                    }
                    return Err(DecodeError::InvalidNumeric { text: s.to_owned() });
                },
            };
            acc = acc2;
            digits = digits + 1;
            if dots > 0 {
                fracs = fracs + 1;
            }
        } else if c == '.' {
            if dots > 0 {
                proof {
                    lemma_prefix_bounds(t, k - start + 1);
                }
                return Err(DecodeError::InvalidNumeric { text: s.to_owned() });
            }
            dots = dots + 1;
        } else {
            proof {
                assert(!is_dec_digit(t[k - start]) && t[k - start] != '.');
            }
            return Err(DecodeError::InvalidNumeric { text: s.to_owned() });
        }
        k = k + 1;
    }
    proof {
        assert(t.subrange(0, n - start) =~= t);
    }
    if digits == 0 {
        return Err(DecodeError::InvalidNumeric { text: s.to_owned() });
    }
    let mantissa: i64 = if neg {
        -acc
    } else {
        acc
    };
    Ok(Decimal { mantissa, scale: fracs })
}

/// Parses an optional numeric-as-text field: a wire-absent value decodes to
/// an empty result, a present value must parse as [`parse_decimal`] does.
pub fn parse_decimal_opt(s: Option<&str>) -> (r: Result<Option<Decimal>, DecodeError>)
    ensures
        s matches None ==> r == Ok::<Option<Decimal>, DecodeError>(None),
        s matches Some(txt) ==> {
            &&& is_valid_decimal(txt@) && magnitude(body_of(txt@)) <= i64::MAX ==> (r matches Ok(
                od,
            )
                && od matches Some(d)
                && d.mantissa as int == decimal_mantissa(txt@)
                && d.scale as int == decimal_scale(txt@))
            &&& !(is_valid_decimal(txt@) && magnitude(body_of(txt@)) <= i64::MAX) ==> (r matches Err(
                e,
            )
                && e matches DecodeError::InvalidNumeric { text }
                && text@ == txt@)
        },
{
    match s {
        None => Ok(None),
        Some(txt) => match parse_decimal(txt) {
            Ok(d) => Ok(Some(d)),
            Err(e) => Err(e),
        },
    }
}

} // verus!
