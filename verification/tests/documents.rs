use unleash_openfeature::evaluation::EvaluationErrorCode;
use unleash_openfeature::json::{parse_json, read_json, Json};
use unleash_openfeature::value::{json_to_openfeature_value, FlagValue};

fn value_of(text: &str) -> FlagValue {
    json_to_openfeature_value(parse_json(text).unwrap()).unwrap()
}

#[test]
fn scalars_have_values() {
    assert!(matches!(value_of("true"), FlagValue::Bool(true)));
    assert!(matches!(value_of("-7"), FlagValue::Int(-7)));
    assert!(matches!(value_of("\"x\\n\""), FlagValue::String(text) if text == "x\n"));
}

#[test]
fn numbers_are_integers_where_they_can_be() {
    assert!(matches!(
        value_of("9223372036854775807"),
        FlagValue::Int(i64::MAX)
    ));
    let FlagValue::Float(bits) = value_of("9223372036854775808") else {
        panic!("not a double");
    };
    assert_eq!(f64::from_bits(bits), 9223372036854775808.0);
    let FlagValue::Float(bits) = value_of("4.5") else {
        panic!("not a double");
    };
    assert_eq!(f64::from_bits(bits), 4.5);
    let both = Json::Number {
        whole: Some(3),
        double_bits: Some(3.0f64.to_bits()),
    };
    assert!(matches!(
        json_to_openfeature_value(both),
        Ok(FlagValue::Int(3))
    ));
}

#[test]
fn number_without_a_value_is_refused() {
    let error = json_to_openfeature_value(Json::Number {
        whole: None,
        double_bits: None,
    })
    .unwrap_err();

    assert_eq!(error.code, EvaluationErrorCode::TypeMismatch);
    assert_eq!(
        error.message.as_deref(),
        Some("JSON number cannot be represented as i64 or f64")
    );
}

#[test]
fn null_is_refused_at_any_depth() {
    for text in ["null", "[1,null]", "{\"a\":{\"b\":[true,null]}}"] {
        let error = json_to_openfeature_value(parse_json(text).unwrap()).unwrap_err();
        assert_eq!(error.code, EvaluationErrorCode::TypeMismatch);
        assert_eq!(
            error.message.as_deref(),
            Some("JSON null is not a supported OpenFeature object value")
        );
    }
}

#[test]
fn first_failing_item_decides_the_error() {
    let unrepresentable = Json::Number {
        whole: None,
        double_bits: None,
    };
    let error = json_to_openfeature_value(Json::Array(vec![
        Json::Bool(true),
        unrepresentable,
        Json::Null,
    ]))
    .unwrap_err();

    assert_eq!(
        error.message.as_deref(),
        Some("JSON number cannot be represented as i64 or f64")
    );
}

#[test]
fn lists_keep_their_items() {
    let FlagValue::Array(items) = value_of("[1,\"two\",[3]]") else {
        panic!("not a list");
    };
    assert_eq!(items.len(), 3);
    assert!(matches!(items[0], FlagValue::Int(1)));
    assert!(matches!(&items[1], FlagValue::String(text) if text == "two"));
    assert!(matches!(&items[2], FlagValue::Array(inner) if inner.len() == 1));
}

#[test]
fn structures_keep_their_members() {
    let FlagValue::Struct(outer) = value_of("{\"a\":1,\"b\":{\"c\":false},\"a\":2}") else {
        panic!("not a structure");
    };
    assert_eq!(outer.fields.entries().len(), 2);
    assert!(matches!(outer.fields.get("a"), Some(FlagValue::Int(2))));
    let Some(FlagValue::Struct(inner)) = outer.fields.get("b") else {
        panic!("not a structure");
    };
    assert!(matches!(inner.fields.get("c"), Some(FlagValue::Bool(false))));
    assert!(inner.fields.get("a").is_none());
}

#[test]
fn last_member_of_a_name_counts() {
    let document = Json::Object(vec![
        ("a".to_string(), Json::Bool(true)),
        ("a".to_string(), Json::Bool(false)),
    ]);
    let Ok(FlagValue::Struct(value)) = json_to_openfeature_value(document) else {
        panic!("not a structure");
    };
    assert!(matches!(value.fields.get("a"), Some(FlagValue::Bool(false))));
    assert_eq!(value.fields.entries().len(), 1);
}

#[test]
fn documents_are_read_as_they_are() {
    let value: serde_json::Value = serde_json::from_str("{\"k\":[null,1.5]}").unwrap();
    let Json::Object(members) = read_json(value) else {
        panic!("not an object");
    };
    assert_eq!(members.len(), 1);
    assert_eq!(members[0].0, "k");
    let Json::Array(items) = &members[0].1 else {
        panic!("not an array");
    };
    assert!(matches!(items[0], Json::Null));
    assert!(matches!(
        items[1],
        Json::Number { whole: None, double_bits: Some(bits) } if bits == 1.5f64.to_bits()
    ));
}

#[test]
fn text_that_is_not_json_is_refused() {
    let error = parse_json("{").unwrap_err();

    assert_eq!(error.code, EvaluationErrorCode::ParseError);
    assert_eq!(
        error.message.as_deref(),
        Some("EOF while parsing an object at line 1 column 1")
    );
}
