use php_v8::convert::js_value_from_zval;
use php_v8::convert::to_script_value;
use php_v8::convert::u64_to_string;
use php_v8::value::ArrayKey;
use php_v8::value::JsValue;
use php_v8::value::NumVal;
use php_v8::value::PHPValue;
use php_v8::value::PhpInput;

#[test]
fn round_trip_scalars() {
    let values = vec![
        PHPValue::String("hello".to_string()),
        PHPValue::String("".to_string()),
        PHPValue::Null,
        PHPValue::Boolean(true),
        PHPValue::Boolean(false),
        PHPValue::Integer(0),
        PHPValue::Integer(-1),
        PHPValue::Integer(2147483647),
        PHPValue::Integer(-2147483648),
        PHPValue::Float(NumVal::Bits(0x400921fb54442d18)),
    ];
    for v in values {
        let js = to_script_value(&v);
        assert_eq!(PHPValue::from(&js), v);
    }
}

#[test]
fn round_trip_nested() {
    let v = PHPValue::Object(vec![
        (
            "items".to_string(),
            PHPValue::Array(vec![
                PHPValue::Integer(1),
                PHPValue::String("two".to_string()),
                PHPValue::Null,
            ]),
        ),
        (
            "nested".to_string(),
            PHPValue::Object(vec![("flag".to_string(), PHPValue::Boolean(false))]),
        ),
    ]);
    let js = to_script_value(&v);
    assert_eq!(PHPValue::from(&js), v);
}

#[test]
fn round_trip_keeps_order() {
    let v = PHPValue::Array(vec![
        PHPValue::String("a".to_string()),
        PHPValue::String("b".to_string()),
        PHPValue::String("c".to_string()),
    ]);
    let js = to_script_value(&v);
    let back = PHPValue::from(&js);
    match back {
        PHPValue::Array(elems) => {
            assert_eq!(elems.len(), 3);
            assert_eq!(elems[0], PHPValue::String("a".to_string()));
            assert_eq!(elems[1], PHPValue::String("b".to_string()));
            assert_eq!(elems[2], PHPValue::String("c".to_string()));
        },
        other => panic!("expected an array, got {:?}", other),
    }
}

#[test]
fn wide_integer_degrades_to_float() {
    let v = PHPValue::Integer(2147483648);
    let js = to_script_value(&v);
    assert_eq!(PHPValue::from(&js), PHPValue::Float(NumVal::Int(2147483648)));
}

#[test]
fn integral_float_in_word_range_reads_back_as_integer() {
    let v = PHPValue::Float(NumVal::Int(5));
    let js = to_script_value(&v);
    assert_eq!(PHPValue::from(&js), PHPValue::Integer(5));
}

#[test]
fn nan_bits_pass_through() {
    let nan_bits: u64 = 0x7ff8000000000000;
    let v = PHPValue::Float(NumVal::Bits(nan_bits));
    let js = to_script_value(&v);
    assert_eq!(PHPValue::from(&js), PHPValue::Float(NumVal::Bits(nan_bits)));
}

#[test]
fn empty_object_reads_back_as_empty_array() {
    let v = PHPValue::Object(vec![]);
    let js = to_script_value(&v);
    assert_eq!(PHPValue::from(&js), PHPValue::Array(vec![]));
}

#[test]
fn callable_degrades_to_placeholder_string() {
    assert_eq!(
        PHPValue::from(&JsValue::Function),
        PHPValue::String("Function".to_string())
    );
}

#[test]
fn exotic_value_degrades_to_its_coercion() {
    assert_eq!(
        PHPValue::from(&JsValue::Other("[object Promise]".to_string())),
        PHPValue::String("[object Promise]".to_string())
    );
}

#[test]
fn conversion_is_total_on_deep_nesting() {
    let mut v = JsValue::Num(NumVal::Int(1));
    for _ in 0..200 {
        v = JsValue::Array(vec![v]);
    }
    let mut host = PHPValue::from(&v);
    let mut depth = 0;
    while let PHPValue::Array(mut elems) = host {
        assert_eq!(elems.len(), 1);
        host = elems.pop().unwrap();
        depth += 1;
    }
    assert_eq!(depth, 200);
    assert_eq!(host, PHPValue::Integer(1));
}

#[test]
fn index_only_array_becomes_dense_array() {
    let z = PhpInput::Array(vec![
        (ArrayKey::Index(0), PhpInput::Long(10)),
        (ArrayKey::Index(1), PhpInput::Str("x".to_string())),
    ]);
    assert_eq!(
        js_value_from_zval(&z),
        JsValue::Array(vec![
            JsValue::Num(NumVal::Int(10)),
            JsValue::Str("x".to_string()),
        ])
    );
}

#[test]
fn name_key_turns_array_into_object_with_decimal_index_names() {
    let z = PhpInput::Array(vec![
        (ArrayKey::Index(0), PhpInput::Long(10)),
        (ArrayKey::Name("label".to_string()), PhpInput::Bool(true)),
        (ArrayKey::Index(12), PhpInput::Null),
    ]);
    assert_eq!(
        js_value_from_zval(&z),
        JsValue::Object(vec![
            ("0".to_string(), JsValue::Num(NumVal::Int(10))),
            ("label".to_string(), JsValue::Bool(true)),
            ("12".to_string(), JsValue::NullOrUndefined),
        ])
    );
}

#[test]
fn empty_array_becomes_dense_array() {
    assert_eq!(js_value_from_zval(&PhpInput::Array(vec![])), JsValue::Array(vec![]));
}

#[test]
fn unhandled_host_values_become_null() {
    assert_eq!(js_value_from_zval(&PhpInput::Opaque), JsValue::NullOrUndefined);
    assert_eq!(js_value_from_zval(&PhpInput::Callable), JsValue::NullOrUndefined);
}

#[test]
fn decimal_spelling() {
    assert_eq!(u64_to_string(0).as_str(), "0");
    assert_eq!(u64_to_string(7).as_str(), "7");
    assert_eq!(u64_to_string(42).as_str(), "42");
    assert_eq!(u64_to_string(1000).as_str(), "1000");
    assert_eq!(u64_to_string(u64::MAX).as_str(), "18446744073709551615");
}
