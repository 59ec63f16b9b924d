use hftbacktest::decode::{
    decode_ord_type, decode_side, decode_status, decode_time_in_force, parse_decimal,
    parse_decimal_opt, str_eq,
};
use hftbacktest::types::{Decimal, DecodeError, OrdType, Side, Status, TimeInForce};

#[test]
fn str_eq_agrees_with_rust_equality() {
    assert!(str_eq("", ""));
    assert!(str_eq("BUY", "BUY"));
    assert!(!str_eq("BUY", "BU"));
    assert!(!str_eq("BUY", "SELL"));
    assert!(!str_eq("abc", "abd"));
}

#[test]
fn side_tokens_decode_to_their_variants() {
    assert_eq!(decode_side("BUY"), Ok(Side::Buy));
    assert_eq!(decode_side("SELL"), Ok(Side::Sell));
}

#[test]
fn unknown_side_token_fails_naming_it() {
    assert_eq!(
        decode_side("HOLD"),
        Err(DecodeError::UnexpectedToken {
            token: "HOLD".to_string(),
            expected: "BUY or SELL".to_string(),
        })
    );
    assert!(decode_side("buy").is_err());
    assert!(decode_side("").is_err());
}

#[test]
fn status_tokens_decode_to_their_variants() {
    assert_eq!(decode_status("NEW"), Ok(Status::New));
    assert_eq!(decode_status("PARTIALLY_FILLED"), Ok(Status::PartiallyFilled));
    assert_eq!(decode_status("FILLED"), Ok(Status::Filled));
    assert_eq!(decode_status("CANCELED"), Ok(Status::Canceled));
    assert_eq!(decode_status("EXPIRED"), Ok(Status::Expired));
}

#[test]
fn rejected_status_is_a_decode_failure_not_a_coercion() {
    assert_eq!(
        decode_status("REJECTED"),
        Err(DecodeError::UnexpectedToken {
            token: "REJECTED".to_string(),
            expected: "NEW,PARTIALLY_FILLED,FILLED,CANCELED,EXPIRED".to_string(),
        })
    );
    assert!(decode_status("EXPIRED_IN_MATCH").is_err());
}

#[test]
fn ord_type_tokens_decode_to_their_variants() {
    assert_eq!(decode_ord_type("LIMIT"), Ok(OrdType::Limit));
    assert_eq!(decode_ord_type("MARKET"), Ok(OrdType::Market));
    assert_eq!(
        decode_ord_type("STOP"),
        Err(DecodeError::UnexpectedToken {
            token: "STOP".to_string(),
            expected: "LIMIT,MARKET".to_string(),
        })
    );
}

#[test]
fn time_in_force_tokens_decode_to_their_variants() {
    assert_eq!(decode_time_in_force("GTC"), Ok(TimeInForce::GTC));
    assert_eq!(decode_time_in_force("IOC"), Ok(TimeInForce::IOC));
    assert_eq!(decode_time_in_force("FOK"), Ok(TimeInForce::FOK));
    assert_eq!(decode_time_in_force("GTX"), Ok(TimeInForce::GTX));
    assert_eq!(
        decode_time_in_force("GTD"),
        Err(DecodeError::UnexpectedToken {
            token: "GTD".to_string(),
            expected: "GTC,IOC,FOK,GTX".to_string(),
        })
    );
}

#[test]
fn decimal_texts_parse_exactly() {
    assert_eq!(parse_decimal("0.1"), Ok(Decimal { mantissa: 1, scale: 1 }));
    assert_eq!(parse_decimal("0.001"), Ok(Decimal { mantissa: 1, scale: 3 }));
    assert_eq!(parse_decimal("123.45"), Ok(Decimal { mantissa: 12345, scale: 2 }));
    assert_eq!(parse_decimal("-3"), Ok(Decimal { mantissa: -3, scale: 0 }));
    assert_eq!(parse_decimal("+7.25"), Ok(Decimal { mantissa: 725, scale: 2 }));
    assert_eq!(parse_decimal("42"), Ok(Decimal { mantissa: 42, scale: 0 }));
    assert_eq!(parse_decimal("0.10"), Ok(Decimal { mantissa: 10, scale: 2 }));
    assert_eq!(parse_decimal(".5"), Ok(Decimal { mantissa: 5, scale: 1 }));
    assert_eq!(parse_decimal("5."), Ok(Decimal { mantissa: 5, scale: 0 }));
}

#[test]
fn invalid_decimal_texts_fail_carrying_the_text() {
    assert_eq!(
        parse_decimal("abc"),
        Err(DecodeError::InvalidNumeric { text: "abc".to_string() })
    );
    assert!(parse_decimal("").is_err());
    assert!(parse_decimal("-").is_err());
    assert!(parse_decimal(".").is_err());
    assert!(parse_decimal("1.2.3").is_err());
    assert!(parse_decimal("1e5").is_err());
    assert!(parse_decimal(" 1").is_err());
}

#[test]
fn decimal_overflowing_a_signed_64_bit_mantissa_fails() {
    assert_eq!(parse_decimal("9223372036854775807"), Ok(Decimal { mantissa: i64::MAX, scale: 0 }));
    assert!(parse_decimal("9223372036854775808").is_err());
    assert!(parse_decimal("99999999999999999999").is_err());
}

#[test]
fn optional_decimal_absent_is_empty_present_must_parse() {
    assert_eq!(parse_decimal_opt(None), Ok(None));
    assert_eq!(parse_decimal_opt(Some("2.5")), Ok(Some(Decimal { mantissa: 25, scale: 1 })));
    assert_eq!(
        parse_decimal_opt(Some("x")),
        Err(DecodeError::InvalidNumeric { text: "x".to_string() })
    );
}
