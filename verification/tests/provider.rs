use std::collections::HashMap;

use unleash_openfeature::client::UnleashClient;
use unleash_openfeature::context::{
    EvaluationContext, EvaluationContextFieldValue, UnleashContext,
};
use unleash_openfeature::evaluation::{
    evaluation_error, resolution, EvaluationErrorCode, EvaluationReason, EvaluationResult,
};
use unleash_openfeature::payload::{
    bool_details, object_details, parse_int_payload, resolve_payload_value, string_details,
    struct_details, Variant,
};
use unleash_openfeature::provider::UnleashFlagProvider;
use unleash_openfeature::text_map::TextMap;
use unleash_openfeature::value::FlagValue;

struct FakeClient {
    variants: HashMap<String, (String, String, bool)>,
}

impl FakeClient {
    fn new(flag: &str, payload: (&str, &str)) -> Self {
        let mut variants = HashMap::new();
        variants.insert(
            flag.to_string(),
            (payload.0.to_string(), payload.1.to_string(), true),
        );
        FakeClient { variants }
    }
}

impl UnleashClient for FakeClient {
    fn is_enabled(
        &self,
        flag_key: &str,
        _context: Option<&UnleashContext>,
        default: bool,
    ) -> bool {
        self.variants
            .get(flag_key)
            .map(|variant| variant.2)
            .unwrap_or(default)
    }

    fn get_variant(&self, flag_key: &str, _context: &UnleashContext) -> Variant {
        match self.variants.get(flag_key) {
            Some((payload_type, payload_value, enabled)) => Variant {
                enabled: *enabled,
                ..variant(payload_type, payload_value)
            },
            None => Variant {
                name: String::new(),
                payload: TextMap::new(),
                enabled: false,
            },
        }
    }
}

/// A client that answers with what it was asked.
struct EchoClient;

impl UnleashClient for EchoClient {
    fn is_enabled(
        &self,
        flag_key: &str,
        context: Option<&UnleashContext>,
        default: bool,
    ) -> bool {
        let context = context.expect("a context");
        flag_key == "flag" && context.user_id.as_deref() == Some("user") && !default
    }

    fn get_variant(&self, flag_key: &str, context: &UnleashContext) -> Variant {
        let user = context.user_id.as_deref().unwrap_or("nobody");
        variant("string", &format!("{flag_key} for {user}"))
    }
}

fn variant(payload_type: &str, payload_value: &str) -> Variant {
    let mut payload = TextMap::new();
    payload.insert("type".to_string(), payload_type.to_string());
    payload.insert("value".to_string(), payload_value.to_string());
    Variant {
        name: "variant-a".to_string(),
        payload,
        enabled: true,
    }
}

fn parse_float(text: &str) -> EvaluationResult<f64> {
    text.parse::<f64>()
        .map_err(|error| evaluation_error(EvaluationErrorCode::ParseError, error.to_string()))
}

#[test]
fn resolves_boolean_flag() {
    let provider = UnleashFlagProvider::new(FakeClient::new("enabled", ("string", "")));

    let details = provider
        .resolve_bool_value("enabled", &EvaluationContext::default())
        .unwrap();

    assert!(details.value);
}

#[test]
fn resolves_string_variant_payload() {
    let provider = UnleashFlagProvider::new(FakeClient::new("string", ("string", "hello")));

    let details = provider
        .resolve_string_value("string", &EvaluationContext::default())
        .unwrap();

    assert_eq!(details.value, "hello");
    assert_eq!(details.variant.as_deref(), Some("variant-a"));
}

#[test]
fn resolves_csv_variant_payload_as_string() {
    let provider = UnleashFlagProvider::new(FakeClient::new("csv", ("csv", "a,b,c")));

    let details = provider
        .resolve_string_value("csv", &EvaluationContext::default())
        .unwrap();

    assert_eq!(details.value, "a,b,c");
}

#[test]
fn resolves_integer_variant_payload() {
    let provider = UnleashFlagProvider::new(FakeClient::new("integer", ("number", "42")));

    let details = provider
        .resolve_int_value("integer", &EvaluationContext::default())
        .unwrap();

    assert_eq!(details.value, 42);
}

#[test]
fn resolves_float_variant_payload() {
    let provider = UnleashFlagProvider::new(FakeClient::new("float", ("number", "4.2")));

    let details = provider
        .resolve_float_value("float", &EvaluationContext::default(), parse_float)
        .unwrap();

    assert_eq!(details.value, 4.2);
}

#[test]
fn empty_number_payload_returns_parse_error() {
    let provider = UnleashFlagProvider::new(FakeClient::new("float", ("number", "")));

    let error = provider
        .resolve_float_value("float", &EvaluationContext::default(), parse_float)
        .unwrap_err();

    assert_eq!(error.code, EvaluationErrorCode::ParseError);
}

#[test]
fn resolves_json_object_payload() {
    let provider = UnleashFlagProvider::new(FakeClient::new(
        "object",
        ("json", r#"{"enabled":true,"count":3}"#),
    ));

    let details = provider
        .resolve_struct_value("object", &EvaluationContext::default())
        .unwrap();

    assert!(matches!(
        details.value.fields.get("enabled"),
        Some(FlagValue::Bool(true))
    ));
    assert!(matches!(
        details.value.fields.get("count"),
        Some(FlagValue::Int(3))
    ));
}

#[test]
fn resolves_json_scalar_object_value_payload() {
    let provider = UnleashFlagProvider::new(FakeClient::new("scalar", ("json", "42")));

    let details = provider
        .resolve_object_value_details("scalar", &EvaluationContext::default())
        .unwrap();

    assert!(matches!(details.value, FlagValue::Int(42)));
    assert_eq!(details.variant.as_deref(), Some("variant-a"));
}

#[test]
fn json_array_payload_returns_type_mismatch() {
    let provider = UnleashFlagProvider::new(FakeClient::new("array", ("json", "[1,2,3]")));

    let error = provider
        .resolve_struct_value("array", &EvaluationContext::default())
        .unwrap_err();

    assert_eq!(error.code, EvaluationErrorCode::TypeMismatch);
}

#[test]
fn list_payload_is_a_value_but_no_structure() {
    let provider = UnleashFlagProvider::new(FakeClient::new("array", ("json", "[1,2,3]")));

    let details = provider
        .resolve_object_value_details("array", &EvaluationContext::default())
        .unwrap();
    let FlagValue::Array(items) = &details.value else {
        panic!("not a list: {:?}", details.value);
    };
    assert_eq!(items.len(), 3);
    assert!(matches!(items[0], FlagValue::Int(1)));
    assert!(matches!(items[2], FlagValue::Int(3)));

    let error = struct_details(details).unwrap_err();
    assert_eq!(
        error.message.as_deref(),
        Some("OpenFeature Rust provider API does not support top-level array object values")
    );
}

#[test]
fn scalar_payload_is_no_structure() {
    let provider = UnleashFlagProvider::new(FakeClient::new("scalar", ("json", "42")));

    let error = provider
        .resolve_struct_value("scalar", &EvaluationContext::default())
        .unwrap_err();

    assert_eq!(error.code, EvaluationErrorCode::TypeMismatch);
    assert_eq!(
        error.message.as_deref(),
        Some("Variant payload is not a JSON object")
    );
}

#[test]
fn client_is_asked_with_the_mapped_context() {
    let provider = UnleashFlagProvider::new(EchoClient);
    let context = EvaluationContext::default()
        .with_custom_field(
            "userId".to_string(),
            EvaluationContextFieldValue::String("explicit".to_string()),
        )
        .with_targeting_key("user".to_string());

    assert!(provider.resolve_bool_value("flag", &context).unwrap().value);
    assert!(!provider.resolve_bool_value("other", &context).unwrap().value);
    assert_eq!(
        provider.resolve_string_value("flag", &context).unwrap().value,
        "flag for user"
    );
    let (payload_types, convert) = (["string"], |text: &str| Ok(text.len()));
    assert_eq!(
        provider
            .resolve_variant_value("flag", &context, &payload_types, convert)
            .unwrap()
            .value,
        13
    );
}

#[test]
fn provider_names_itself() {
    let provider = UnleashFlagProvider::new(EchoClient);

    assert_eq!(provider.metadata().name, "Unleash OpenFeature Provider");
}

#[test]
fn unknown_flag_is_not_enabled_and_has_a_disabled_variant() {
    let provider = UnleashFlagProvider::new(FakeClient::new("known", ("string", "x")));
    let context = EvaluationContext::default();

    let details = provider.resolve_bool_value("unknown", &context).unwrap();
    assert!(!details.value);
    assert_eq!(details.variant, None);
    assert_eq!(details.reason, Some(EvaluationReason::Unknown));
    assert!(details.flag_metadata.is_none());

    let error = provider.resolve_int_value("unknown", &context).unwrap_err();
    assert_eq!(
        error,
        evaluation_error(
            EvaluationErrorCode::General("UNKNOWN".to_string()),
            "Variant is disabled".to_string()
        )
    );
}

#[test]
fn disabled_variant_gives_the_same_error_for_every_kind() {
    let disabled = Variant {
        enabled: false,
        ..variant("string", "hello")
    };

    let as_text = string_details(&disabled).unwrap_err();
    let as_object = object_details(&disabled).unwrap_err();
    assert_eq!(as_text, as_object);
    assert_eq!(
        as_text.code,
        EvaluationErrorCode::General("UNKNOWN".to_string())
    );
}

#[test]
fn payload_without_type_or_value_is_a_mismatch() {
    let mut payload = TextMap::new();
    payload.insert("value".to_string(), "hello".to_string());
    let untyped = Variant {
        name: "variant-a".to_string(),
        payload,
        enabled: true,
    };
    let error = resolve_payload_value(&untyped, &["string"]).unwrap_err();
    assert_eq!(error.code, EvaluationErrorCode::TypeMismatch);
    assert_eq!(
        error.message.as_deref(),
        Some("Variant payload type is not present on the resolved variant")
    );

    let mut payload = TextMap::new();
    payload.insert("type".to_string(), "string".to_string());
    let valueless = Variant {
        name: "variant-a".to_string(),
        payload,
        enabled: true,
    };
    let error = resolve_payload_value(&valueless, &["string"]).unwrap_err();
    assert_eq!(error.code, EvaluationErrorCode::TypeMismatch);
    assert_eq!(
        error.message.as_deref(),
        Some("Variant payload value is not present on the resolved variant")
    );
}

#[test]
fn payload_of_another_type_is_a_mismatch() {
    let odd = variant("odd\"type", "hello");
    let error = string_details(&odd).unwrap_err();

    assert_eq!(error.code, EvaluationErrorCode::TypeMismatch);
    assert_eq!(
        error.message,
        Some(format!(
            "Variant payload has type {:?}, expected one of {:?}",
            "odd\"type",
            ["string", "csv"]
        ))
    );
    assert_eq!(
        error.message.as_deref(),
        Some(r#"Variant payload has type "odd\"type", expected one of ["string", "csv"]"#)
    );

    let none: [&str; 0] = [];
    assert_eq!(
        resolve_payload_value(&odd, &none)
            .unwrap_err()
            .message
            .as_deref(),
        Some(r#"Variant payload has type "odd\"type", expected one of []"#)
    );
}

#[test]
fn number_is_no_text_and_no_document() {
    let number = variant("number", "42");

    assert!(string_details(&number).is_err());
    assert!(object_details(&number).is_err());
    assert_eq!(resolve_payload_value(&number, &["number"]).unwrap(), "42");
}

#[test]
fn integer_payloads_at_the_limits() {
    assert_eq!(parse_int_payload("-9223372036854775808").unwrap(), i64::MIN);
    assert_eq!(parse_int_payload("9223372036854775807").unwrap(), i64::MAX);
    assert_eq!(parse_int_payload("+7").unwrap(), 7);
    assert_eq!(parse_int_payload("007").unwrap(), 7);

    for refused in [
        "",
        "+",
        "-",
        "--1",
        "1 ",
        " 1",
        "1_000",
        "4.2",
        "\u{661}",
        "9223372036854775808",
        "-9223372036854775809",
    ] {
        let error = parse_int_payload(refused).unwrap_err();
        assert_eq!(error.code, EvaluationErrorCode::ParseError);
        assert_eq!(
            error.message,
            Some(refused.parse::<i64>().unwrap_err().to_string())
        );
    }
}

#[test]
fn text_that_is_not_json_is_a_parse_error() {
    let error = object_details(&variant("json", "{\"a\":")).unwrap_err();

    assert_eq!(error.code, EvaluationErrorCode::ParseError);
    assert_eq!(
        error.message,
        Some(
            serde_json::from_str::<serde_json::Value>("{\"a\":")
                .unwrap_err()
                .to_string()
        )
    );
}

#[test]
fn details_hold_what_they_are_given() {
    let details = resolution(
        7,
        Some("variant-b".to_string()),
        EvaluationReason::TargetingMatch,
    );
    assert_eq!(details.value, 7);
    assert_eq!(details.variant.as_deref(), Some("variant-b"));
    assert_eq!(details.reason, Some(EvaluationReason::TargetingMatch));
    assert!(details.flag_metadata.is_none());

    let details = bool_details(true);
    assert!(details.value);
    assert_eq!(details.variant, None);
}
