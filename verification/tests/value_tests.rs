use dyncmd::error::Error;
use dyncmd::value::{DataType, Value};

/// Parses text the way a transport layer would: the floating-point read of
/// the text is attempted here, outside the library, and its outcome is
/// handed in as a bit pattern.
fn parse_value(s: &str) -> Value {
    let number_bits = s.parse::<f64>().ok().map(f64::to_bits);
    Value::from_str(s, number_bits)
}

#[test]
fn from_test() {
    let val = parse_value("10");
    assert_eq!(Value::Integer(10), val);

    let val = parse_value("false");
    assert_eq!(Value::Boolean(false), val);

    let val = parse_value("true");
    assert_eq!(Value::Boolean(true), val);

    let val = parse_value("10.01");
    assert_eq!(Value::Number(10.01f64.to_bits()), val);

    let val = parse_value("10._");
    assert_eq!(Value::String("10._".to_string()), val);

    let val = parse_value("Name");
    assert_eq!(Value::String("Name".to_string()), val);

    let val = parse_value("Nil");
    assert_eq!(Value::Nil, val);

    let val = parse_value("nil");
    assert_eq!(Value::Nil, val);

    let val = parse_value("Null");
    assert_eq!(Value::Nil, val);

    let val = parse_value("NULL");
    assert_eq!(Value::Nil, val);

    let val = parse_value("null");
    assert_eq!(Value::Nil, val);
}

#[test]
fn from_value() {
    let val: Value = Value::from_i32(10);
    assert_eq!(Value::Integer(10), val);

    let val: Value = Value::from_number_bits(10.0f64.to_bits());
    assert_eq!(Value::Number(10.0f64.to_bits()), val);

    let val: Value = Value::from_bool(false);
    assert_eq!(Value::Boolean(false), val);

    let val: Value = Value::from_text("Name");
    assert_eq!(Value::String("Name".to_owned()), val);

    let val: Value = Value::from_unit();
    assert_eq!(Value::Nil, val);

    let val: Value = Value::from_bytes(vec![0x09_u8, 0x12]);
    assert_eq!(Value::Bytes(vec![0x09_u8, 0x12]), val);
}

#[test]
fn parse_priority_and_fallback() {
    // A boolean spelling anywhere forces the boolean attempt; its failure
    // degrades to text, even when the text holds a dot or digits.
    assert_eq!(
        parse_value("true story"),
        Value::String("true story".to_string())
    );
    assert_eq!(parse_value("1.5false"), Value::String("1.5false".to_string()));
    // The dot forces the number attempt before any null or integer reading.
    assert_eq!(parse_value("1.5"), Value::Number(1.5f64.to_bits()));
    // Only the exact null spellings become Nil.
    assert_eq!(parse_value("nilx"), Value::String("nilx".to_string()));
    // Signed integers, and fallback on overflow.
    assert_eq!(parse_value("-5"), Value::Integer(-5));
    assert_eq!(parse_value("+7"), Value::Integer(7));
    assert_eq!(parse_value("-9223372036854775808"), Value::Integer(i64::MIN));
    assert_eq!(
        parse_value("9223372036854775808"),
        Value::String("9223372036854775808".to_string())
    );
    assert_eq!(parse_value(""), Value::String("".to_string()));
    // A sign alone carries no digits.
    assert_eq!(parse_value("+"), Value::String("+".to_string()));
    assert_eq!(parse_value("-"), Value::String("-".to_string()));
    // Leading zeros are ordinary digits.
    assert_eq!(parse_value("007"), Value::Integer(7));
    // Whitespace and exponent notation are not integer syntax, and carry
    // no dot to trigger the number attempt.
    assert_eq!(parse_value(" 10"), Value::String(" 10".to_string()));
    assert_eq!(parse_value("1e5"), Value::String("1e5".to_string()));
    // A negative decimal goes through the number attempt.
    assert_eq!(parse_value("-2.5"), Value::Number((-2.5f64).to_bits()));
}

#[test]
fn null_spellings() {
    // The word "null" parses to Nil in any casing of its four letters.
    assert_eq!(parse_value("nUll"), Value::Nil);
    assert_eq!(parse_value("nulL"), Value::Nil);
    assert_eq!(parse_value("NuLl"), Value::Nil);
    assert_eq!(parse_value("nULL"), Value::Nil);
    // "nil" is accepted in its two exact spellings only.
    assert_eq!(parse_value("nil"), Value::Nil);
    assert_eq!(parse_value("Nil"), Value::Nil);
    assert_eq!(parse_value("NIL"), Value::String("NIL".to_string()));
    assert_eq!(parse_value("nIl"), Value::String("nIl".to_string()));
    // Nothing longer or shorter than the exact words qualifies.
    assert_eq!(parse_value("nulll"), Value::String("nulll".to_string()));
    assert_eq!(parse_value("nul"), Value::String("nul".to_string()));
}

#[test]
fn scalar_round_trips() {
    assert_eq!(Value::from_i64(-31).to_i64(), Ok(-31));
    assert_eq!(Value::from_i32(-31).to_i32(), Ok(-31));
    assert_eq!(Value::from_i16(-31).to_i16(), Ok(-31));
    assert_eq!(Value::from_i8(-31).to_i8(), Ok(-31));
    assert_eq!(Value::from_u32(31).to_u32(), Ok(31));
    assert_eq!(Value::from_u16(31).to_u16(), Ok(31));
    assert_eq!(Value::from_u8(31).to_u8(), Ok(31));
    assert_eq!(Value::from_bool(true).to_bool(), Ok(true));
    let bits = 10.01f64.to_bits();
    assert_eq!(Value::from_number_bits(bits).to_number_bits(), Ok(bits));
    // A 32-bit float widens losslessly before it is stored, as a caller
    // converts it: the round trip goes through the 64-bit pattern.
    let narrow = 0.25f32;
    let wide_bits = (narrow as f64).to_bits();
    assert_eq!(
        Value::from_number_bits(wide_bits).to_number_bits().map(|b| f64::from_bits(b) as f32),
        Ok(narrow)
    );
    assert_eq!(
        Value::from_string("hello".to_string()).to_text(),
        Ok("hello".to_string())
    );
    assert_eq!(Value::from_bytes(vec![1, 2, 3]).to_bytes(), Ok(vec![1, 2, 3]));
}

#[test]
fn cross_kind_coercion_fails() {
    // A Number never truncates silently into an integer type.
    let bits = 1.0f64.to_bits();
    assert_eq!(
        Value::Number(bits).to_i64(),
        Err(Error::InvalidType("i64".to_string(), Value::Number(bits)))
    );
    // An Integer never satisfies a floating-point parameter.
    assert_eq!(
        Value::Integer(1).to_number_bits(),
        Err(Error::InvalidType("number".to_string(), Value::Integer(1)))
    );
    assert_eq!(
        Value::Boolean(true).to_i32(),
        Err(Error::InvalidType("i32".to_string(), Value::Boolean(true)))
    );
    assert_eq!(
        Value::Integer(0).to_bool(),
        Err(Error::InvalidType("bool".to_string(), Value::Integer(0)))
    );
    assert_eq!(
        Value::String("1".to_string()).to_i64(),
        Err(Error::InvalidType("i64".to_string(), Value::String("1".to_string())))
    );
    assert_eq!(
        Value::Integer(1).to_text(),
        Err(Error::InvalidType("string".to_string(), Value::Integer(1)))
    );
    assert_eq!(
        Value::Nil.to_bytes(),
        Err(Error::InvalidType("bytes".to_string(), Value::Nil))
    );
}

#[test]
fn truncating_integer_casts() {
    // The narrowing coercions truncate the stored 64-bit integer, as a
    // native `as` cast does.
    assert_eq!(Value::Integer(300).to_u8(), Ok(44));
    assert_eq!(Value::Integer(-1).to_u32(), Ok(u32::MAX));
    assert_eq!(Value::Integer(i64::MAX).to_i32(), Ok(-1));
}

#[test]
fn nil_test_and_type_tags() {
    assert_eq!(Value::from_unit(), Value::Nil);
    assert!(Value::Nil.is_nil());
    assert!(!Value::String("".to_string()).is_nil());
    assert!(!Value::Integer(0).is_nil());
    assert!(!Value::Number(0).is_nil());
    assert!(!Value::Boolean(false).is_nil());
    assert!(!Value::Bytes(vec![]).is_nil());

    assert_eq!(Value::String("x".to_string()).get_type(), DataType::String);
    assert_eq!(Value::Integer(1).get_type(), DataType::Integer);
    assert_eq!(Value::Number(1).get_type(), DataType::Number);
    assert_eq!(Value::Boolean(true).get_type(), DataType::Boolean);
    assert_eq!(Value::Bytes(vec![1]).get_type(), DataType::Bytes);
    assert_eq!(Value::Nil.get_type(), DataType::Nil);
}

/// Renders a value the way a transport layer would: the floating-point
/// rendering of a Number payload happens here, outside the library.
fn display_value(v: &Value) -> String {
    let number_text = match v {
        Value::Number(bits) => f64::from_bits(*bits).to_string(),
        _ => String::new(),
    };
    v.display_with(&number_text)
}

#[test]
fn display_rendering() {
    assert_eq!(display_value(&Value::String("hello".to_string())), "hello");
    assert_eq!(display_value(&Value::Integer(10)), "10");
    assert_eq!(display_value(&Value::Integer(-27)), "-27");
    assert_eq!(display_value(&Value::Integer(0)), "0");
    assert_eq!(display_value(&Value::Number(10.01f64.to_bits())), "10.01");
    assert_eq!(display_value(&Value::Boolean(true)), "true");
    assert_eq!(display_value(&Value::Boolean(false)), "false");
    assert_eq!(display_value(&Value::Bytes(vec![9, 18])), "[9, 18]");
    assert_eq!(display_value(&Value::Bytes(vec![])), "[]");
    assert_eq!(display_value(&Value::Bytes(vec![250])), "[250]");
    assert_eq!(display_value(&Value::Nil), "Nil");
    // The extremes of the stored integer render in full.
    assert_eq!(
        display_value(&Value::Integer(i64::MIN)),
        "-9223372036854775808"
    );
    assert_eq!(
        display_value(&Value::Integer(i64::MAX)),
        "9223372036854775807"
    );
}

#[test]
fn conversion_into_text() {
    assert_eq!(
        Value::String("abc".to_string()).into_text_with(""),
        Ok("abc".to_string())
    );
    assert_eq!(Value::Integer(-4).into_text_with(""), Ok("-4".to_string()));
    let bits = 2.5f64.to_bits();
    assert_eq!(
        Value::Number(bits).into_text_with(&f64::from_bits(bits).to_string()),
        Ok("2.5".to_string())
    );
    assert_eq!(Value::Boolean(false).into_text_with(""), Ok("false".to_string()));
    assert_eq!(Value::Nil.into_text_with(""), Ok("Nil".to_string()));
    // Valid UTF-8 bytes decode; invalid bytes fail with a decode error.
    assert_eq!(
        Value::Bytes(vec![104, 105]).into_text_with(""),
        Ok("hi".to_string())
    );
    assert_eq!(
        Value::Bytes(vec![0xff, 0xfe]).into_text_with(""),
        Err(Error::DecodeError)
    );
}
