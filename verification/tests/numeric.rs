use deribit_models::models::trading::deserialize_price;
use deribit_models::wire::{text_or_number, Either, Number, TypeMismatch, WireKind, WireValue};

fn number(value: f64) -> Number {
    Number::from_bits(value.to_bits())
}

fn value_of(n: Number) -> f64 {
    f64::from_bits(n.to_bits())
}

fn mismatch(found: WireKind) -> TypeMismatch {
    TypeMismatch { found, expected: WireKind::Text, or_expected: WireKind::Number }
}

#[test]
fn a_number_is_the_price() {
    let decoded = deserialize_price(WireValue::Number(number(101325.5))).unwrap();
    assert_eq!(decoded.map(value_of), Some(101325.5));
}

#[test]
fn a_text_is_no_price() {
    assert_eq!(deserialize_price(WireValue::Text("market_price".to_string())), Ok(None));
}

#[test]
fn a_bool_is_a_type_mismatch() {
    assert_eq!(deserialize_price(WireValue::Bool(true)), Err(mismatch(WireKind::Bool)));
}

#[test]
fn every_text_is_no_price_whatever_it_says() {
    for text in ["", "market_price", "101325.5", "0", "NaN", " ", "null", "true"] {
        assert_eq!(deserialize_price(WireValue::Text(text.to_string())), Ok(None), "{text:?}");
    }
}

#[test]
fn every_number_comes_back_bit_for_bit() {
    for value in [
        0.0,
        -0.0,
        1.0,
        -1.0,
        0.5,
        101325.5,
        9850.25,
        f64::MIN_POSITIVE,
        f64::MAX,
        f64::MIN,
        f64::EPSILON,
        f64::INFINITY,
        f64::NEG_INFINITY,
    ] {
        let decoded = deserialize_price(WireValue::Number(number(value))).unwrap().unwrap();
        assert_eq!(decoded.to_bits(), value.to_bits());
        assert_eq!(value_of(decoded), value);
    }
    let decoded = deserialize_price(WireValue::Number(number(f64::NAN))).unwrap().unwrap();
    assert!(value_of(decoded).is_nan());
    assert_eq!(decoded.to_bits(), f64::NAN.to_bits());
}

#[test]
fn other_shapes_are_type_mismatches() {
    assert_eq!(deserialize_price(WireValue::Null), Err(mismatch(WireKind::Null)));
    assert_eq!(deserialize_price(WireValue::Bool(false)), Err(mismatch(WireKind::Bool)));
    assert_eq!(deserialize_price(WireValue::Array), Err(mismatch(WireKind::Array)));
    assert_eq!(deserialize_price(WireValue::Object), Err(mismatch(WireKind::Object)));
}

#[test]
fn the_mismatch_names_both_accepted_shapes() {
    let error = deserialize_price(WireValue::Object).unwrap_err();
    assert_eq!(error.found, WireKind::Object);
    assert_eq!(error.expected, WireKind::Text);
    assert_eq!(error.or_expected, WireKind::Number);
}

#[test]
fn text_or_number_keeps_the_content() {
    match text_or_number(WireValue::Text("market_price".to_string())) {
        Ok(Either::Left(text)) => assert_eq!(text, "market_price"),
        other => panic!("{other:?}"),
    }
    match text_or_number(WireValue::Number(number(9850.25))) {
        Ok(Either::Right(n)) => assert_eq!(value_of(n), 9850.25),
        other => panic!("{other:?}"),
    }
    match text_or_number(WireValue::Bool(true)) {
        Err(error) => assert_eq!(error, mismatch(WireKind::Bool)),
        other => panic!("{other:?}"),
    }
}

#[test]
fn right_keeps_the_right_alternative_only() {
    assert_eq!(Either::<String, u8>::Right(7).right(), Some(7));
    assert_eq!(Either::<String, u8>::Left("market_price".to_string()).right(), None);
}

#[test]
fn kinds_follow_the_shape() {
    assert_eq!(WireValue::Null.kind(), WireKind::Null);
    assert_eq!(WireValue::Bool(true).kind(), WireKind::Bool);
    assert_eq!(WireValue::Number(number(1.5)).kind(), WireKind::Number);
    assert_eq!(WireValue::Text("raw".to_string()).kind(), WireKind::Text);
    assert_eq!(WireValue::Array.kind(), WireKind::Array);
    assert_eq!(WireValue::Object.kind(), WireKind::Object);
}

#[test]
fn numbers_are_their_bit_patterns() {
    assert_eq!(Number::from_bits(0).to_bits(), 0);
    assert_eq!(Number::from_bits(u64::MAX).to_bits(), u64::MAX);
    assert_eq!(Number::from_bits(0x3ff0_0000_0000_0000).to_bits(), 1.0f64.to_bits());
    assert_eq!(number(1.0), Number::from_bits(0x3ff0_0000_0000_0000));
    assert_ne!(number(0.0), number(-0.0));
}
