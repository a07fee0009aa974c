use query_builder::Value;

#[test]
fn varchar_wrapped_in_single_quotes() {
    assert_eq!(Value::Varchar("x".to_string()).as_string(), "'x'");
    assert_eq!(Value::Varchar("steven".to_string()).as_string(), "'steven'");
    assert_eq!(Value::Varchar("".to_string()).as_string(), "''");
    assert_eq!(Value::Varchar("a b".to_string()).as_string(), "'a b'");
}

#[test]
fn bool_renders_upper_case_words() {
    assert_eq!(Value::Bool(true).as_string(), "TRUE");
    assert_eq!(Value::Bool(false).as_string(), "FALSE");
    assert_ne!(Value::Bool(true).as_string(), "true");
    assert_ne!(Value::Bool(true).as_string(), "1");
    assert_ne!(Value::Bool(false).as_string(), "false");
    assert_ne!(Value::Bool(false).as_string(), "0");
}

#[test]
fn integers_render_in_decimal() {
    assert_eq!(Value::Int(42).as_string(), "42");
    assert_eq!(Value::Int(0).as_string(), "0");
    assert_eq!(Value::Int(-7).as_string(), "-7");
    assert_eq!(Value::Tinyint(-128).as_string(), "-128");
    assert_eq!(Value::UnsignedTinyint(255).as_string(), "255");
    assert_eq!(Value::Smallint(-32768).as_string(), "-32768");
    assert_eq!(Value::UnsignedSmallint(65535).as_string(), "65535");
    assert_eq!(Value::UnsignedInt(4294967295).as_string(), "4294967295");
    assert_eq!(
        Value::Bigint(-9223372036854775808).as_string(),
        "-9223372036854775808"
    );
    assert_eq!(
        Value::Bigint(9223372036854775807).as_string(),
        "9223372036854775807"
    );
    assert_eq!(
        Value::UnsignedBigint(18446744073709551615).as_string(),
        "18446744073709551615"
    );
    assert_eq!(Value::UnsignedBigint(1000).as_string(), "1000");
}

#[test]
fn rendering_is_repeatable() {
    let v = Value::Varchar("ada".to_string());
    assert_eq!(v.as_string(), v.as_string());
    let v = Value::Bool(true);
    assert_eq!(v.as_string(), v.as_string());
    let v = Value::Bigint(-31);
    assert_eq!(v.as_string(), v.as_string());
}
