use orbital_common::coercion::{f32_bits_to_i32, f32_bits_whole};
use orbital_common::{Coercion, RawNumber, RawValue};

fn reading(s: &str) -> Option<u32> {
    s.parse::<f32>().ok().map(f32::to_bits)
}

fn coerce(s: &str) -> Coercion {
    Coercion::from_text(s, reading(s))
}

fn same(a: &Coercion, b: &Coercion) -> bool {
    a == b
}

#[test]
fn keywords_become_booleans_and_null() {
    assert!(same(&coerce("True"), &Coercion::Boolean(true)));
    assert!(same(&coerce("False"), &Coercion::Boolean(false)));
    assert!(same(&coerce("None"), &Coercion::String(None)));
}

#[test]
fn whole_number_text_becomes_integer() {
    assert!(same(&coerce("42"), &Coercion::Integer(42)));
    assert!(same(&coerce("-7"), &Coercion::Integer(-7)));
    assert!(same(&coerce("6.000000"), &Coercion::Integer(6)));
    assert!(same(&coerce("0"), &Coercion::Integer(0)));
}

#[test]
fn fractional_text_becomes_float() {
    assert!(same(&coerce("4.5"), &Coercion::Float(4.5f32.to_bits())));
    assert!(same(&coerce("-0.25"), &Coercion::Float((-0.25f32).to_bits())));
}

#[test]
fn other_text_stays_text() {
    assert!(same(&coerce("hello"), &Coercion::String(Some("hello".to_string()))));
    assert!(same(&coerce("true"), &Coercion::String(Some("true".to_string()))));
    assert!(same(&coerce(""), &Coercion::String(Some(String::new()))));
}

#[test]
fn huge_whole_text_saturates() {
    assert!(same(&coerce("1e10"), &Coercion::Integer(i32::MAX)));
    assert!(same(&coerce("-1e10"), &Coercion::Integer(i32::MIN)));
    assert!(same(&coerce("inf"), &Coercion::Integer(i32::MAX)));
}

#[test]
fn nan_text_is_a_float() {
    let r = coerce("NaN");
    match r {
        Coercion::Float(bits) => assert!(f32::from_bits(bits).is_nan()),
        other => panic!("expected a float, got {:?}", other),
    }
}

#[test]
fn bit_level_rules_agree_with_std() {
    let samples: [f32; 14] = [
        0.0, -0.0, 1.0, -1.0, 0.5, 1.5, 2147483520.0, -2147483648.0, 3e9, -3e9, 16777216.0,
        1e-40, 123.0, -123.75,
    ];
    for v in samples {
        assert_eq!(f32_bits_whole(v.to_bits()), v.ceil() == v, "whole {}", v);
        if v.ceil() == v {
            assert_eq!(f32_bits_to_i32(v.to_bits()), v as i32, "cast {}", v);
        }
    }
}

#[test]
fn native_scalars_map_by_kind() {
    assert!(same(&Coercion::from_raw(&RawValue::Bool(true)), &Coercion::Boolean(true)));
    assert!(same(&Coercion::from_raw(&RawValue::Null), &Coercion::String(None)));
    assert!(same(&Coercion::from_raw(&RawValue::Number(RawNumber::Signed(-3))), &Coercion::Integer(-3)));
    assert!(same(&Coercion::from_raw(&RawValue::Number(RawNumber::Unsigned(9))), &Coercion::Integer(9)));
    assert!(same(
        &Coercion::from_raw(&RawValue::Number(RawNumber::Float(2.0f32.to_bits()))),
        &Coercion::Float(2.0f32.to_bits())
    ));
    assert!(same(&Coercion::from_raw(&RawValue::Array(vec![])), &Coercion::String(None)));
    let text = RawValue::Text { text: "12".to_string(), reading: reading("12") };
    assert!(same(&Coercion::from_raw(&text), &Coercion::Integer(12)));
}

#[test]
fn native_integers_wrap_to_i32() {
    let big = RawValue::Number(RawNumber::Signed(4_294_967_297));
    assert!(same(&Coercion::from_raw(&big), &Coercion::Integer(1)));
}

#[test]
fn conversions_default_on_mismatch() {
    assert_eq!(Coercion::Integer(5).into_i32(), 5);
    assert_eq!(Coercion::Boolean(true).into_i32(), 0);
    assert!(Coercion::Boolean(true).into_bool());
    assert!(!Coercion::Integer(1).into_bool());
    assert_eq!(Coercion::Float(7).into_float_bits(), 7);
    assert_eq!(Coercion::Integer(1).into_float_bits(), 0);
    assert_eq!(Coercion::String(Some("x".to_string())).into_string(), "x");
    assert_eq!(Coercion::String(None).into_string(), "");
    assert_eq!(Coercion::Integer(1).into_string(), "");
    assert_eq!(Coercion::String(Some("y".to_string())).into_option_string(), Some("y".to_string()));
    assert_eq!(Coercion::Boolean(false).into_option_string(), None);
}
