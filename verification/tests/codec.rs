use graphscript::json::JsonValue;
use graphscript::marshal::{to_json, to_native};
use graphscript::native::NativeValue;
use graphscript::num::{
    i64_to_dec_string, number_to_int, parse_i64_dec, parse_u64_dec, u64_to_dec_string,
    weight_in_range,
};

fn s(x: &str) -> String {
    String::from(x)
}

fn num(x: f64) -> NativeValue {
    NativeValue::Number(x.to_bits())
}

#[test]
fn round_trip_without_arrays_is_identity() {
    let v = JsonValue::Object(vec![
        (s("null"), JsonValue::Null),
        (s("flag"), JsonValue::Bool(true)),
        (s("text"), JsonValue::String(s("hello"))),
        (s("float"), JsonValue::F64(1.5f64.to_bits())),
        (
            s("inner"),
            JsonValue::Object(vec![(s("deep"), JsonValue::Bool(false))]),
        ),
    ]);
    let n = to_native(&v);
    let back = to_json(&n, 64).expect("within depth bound");
    assert_eq!(back, v);
}

#[test]
fn round_trip_reshapes_arrays_into_numbered_objects() {
    let v = JsonValue::Array(vec![
        JsonValue::Bool(false),
        JsonValue::String(s("x")),
        JsonValue::Null,
    ]);
    let back = to_json(&to_native(&v), 64).expect("within depth bound");
    let expected = JsonValue::Object(vec![
        (s("1"), JsonValue::Bool(false)),
        (s("2"), JsonValue::String(s("x"))),
        (s("3"), JsonValue::Null),
    ]);
    assert_eq!(back, expected);
}

#[test]
fn int64_crosses_as_decimal_string_without_precision_loss() {
    let v = JsonValue::I64(1i64 << 60);
    let n = to_native(&v);
    assert_eq!(n, NativeValue::String(s("1152921504606846976")));
    // The string survives the outbound trip unchanged and parses back to
    // the exact value.
    let back = to_json(&n, 64).expect("atom");
    assert_eq!(back, JsonValue::String(s("1152921504606846976")));
    assert_eq!(parse_i64_dec("1152921504606846976"), Some(1i64 << 60));
}

#[test]
fn negative_and_extreme_integers_round_trip() {
    assert_eq!(
        to_native(&JsonValue::I64(-42)),
        NativeValue::String(s("-42"))
    );
    assert_eq!(i64_to_dec_string(i64::MIN), s("-9223372036854775808"));
    assert_eq!(parse_i64_dec("-9223372036854775808"), Some(i64::MIN));
    assert_eq!(u64_to_dec_string(u64::MAX), s("18446744073709551615"));
    assert_eq!(parse_u64_dec("18446744073709551615"), Some(u64::MAX));
    assert_eq!(u64_to_dec_string(0), s("0"));
    assert_eq!(
        to_native(&JsonValue::U64(7)),
        NativeValue::String(s("7"))
    );
}

#[test]
fn decimal_parser_rejects_malformed_input() {
    assert_eq!(parse_u64_dec(""), None);
    assert_eq!(parse_u64_dec("-1"), None);
    assert_eq!(parse_u64_dec("12a"), None);
    assert_eq!(parse_u64_dec("18446744073709551616"), None);
    assert_eq!(parse_i64_dec("9223372036854775808"), None);
    assert_eq!(parse_i64_dec("-"), None);
    assert_eq!(parse_i64_dec("+5"), None);
    assert_eq!(parse_i64_dec("1.5"), None);
}

#[test]
fn floats_cross_verbatim_by_bit_pattern() {
    let bits = (-0.125f64).to_bits();
    let v = JsonValue::F64(bits);
    let n = to_native(&v);
    assert_eq!(n, NativeValue::Number(bits));
    assert_eq!(to_json(&n, 64), Some(JsonValue::F64(bits)));
}

#[test]
fn depth_guard_refuses_over_deep_tables() {
    let mut n = NativeValue::Table(vec![]);
    for _ in 0..70 {
        n = NativeValue::Table(vec![(s("k"), n)]);
    }
    assert_eq!(to_json(&n, 64), None);
    assert!(to_json(&num(0.0), 0).is_some());
    assert_eq!(to_json(&NativeValue::Table(vec![]), 0), None);
}

#[test]
fn number_truncation_matches_float_semantics() {
    for x in [
        0.0f64, 0.75, -0.75, 1.0, -1.0, 1.9, -1.9, 2.5, 100000.0, 65535.4, 4294967296.5,
        -123456789.99,
    ] {
        assert_eq!(number_to_int(x.to_bits()), x.trunc() as i64, "x = {x}");
    }
    assert_eq!(number_to_int(f64::NAN.to_bits()), 0);
    assert_eq!(number_to_int(f64::INFINITY.to_bits()), i64::MAX);
    assert_eq!(number_to_int(f64::NEG_INFINITY.to_bits()), i64::MIN);
    assert_eq!(number_to_int(1e300f64.to_bits()), i64::MAX);
    assert_eq!(number_to_int((-1e300f64).to_bits()), i64::MIN);
    assert_eq!(number_to_int((-9.223372036854776e18f64).to_bits()), i64::MIN);
}

#[test]
fn weight_bounds_match_float_comparison() {
    for x in [0.0f64, 0.5, 1.0, -1.0, -0.9999, 1e-300] {
        assert!(weight_in_range(x.to_bits()), "x = {x}");
    }
    for x in [2.0f64, -2.0, 1.0000000000000002, f64::INFINITY, f64::NAN] {
        assert!(!weight_in_range(x.to_bits()), "x = {x}");
    }
}
