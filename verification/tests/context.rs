use unleash_api_client::context::IPAddress;
use unleash_openfeature::context::{
    is_base_context_key, set_base_context_value, set_current_time, set_remote_address,
    string_property_value, to_unleash_context, EvaluationContext, EvaluationContextFieldValue,
    UnleashContext, UtcTime,
};
use unleash_openfeature::text::{bool_text, decimal_text, quote_list, same_text};
use unleash_openfeature::text_map::TextMap;

fn string(text: &str) -> EvaluationContextFieldValue {
    EvaluationContextFieldValue::String(text.to_string())
}

fn date_time(seconds: i64, nanoseconds: u32) -> time::OffsetDateTime {
    time::OffsetDateTime::from_unix_timestamp(seconds)
        .unwrap()
        .replace_nanosecond(nanoseconds)
        .unwrap()
}

#[test]
fn maps_openfeature_context_to_unleash_context() {
    let context = EvaluationContext::default()
        .with_targeting_key("targeting-key".to_string())
        .with_custom_field("userId".to_string(), string("explicit-user"))
        .with_custom_field("sessionId".to_string(), string("session-123"))
        .with_custom_field("thing".to_string(), string("test"))
        .with_custom_field("enabled".to_string(), EvaluationContextFieldValue::Bool(true))
        .with_custom_field("nested".to_string(), EvaluationContextFieldValue::Struct);

    let context = to_unleash_context(&context);

    assert_eq!(context.user_id.as_deref(), Some("targeting-key"));
    assert_eq!(context.session_id.as_deref(), Some("session-123"));
    assert_eq!(
        context.properties.get("thing").map(String::as_str),
        Some("test")
    );
    assert_eq!(
        context.properties.get("enabled").map(String::as_str),
        Some("true")
    );
    assert!(context.properties.get("nested").is_none());
}

#[test]
fn user_field_is_the_user_without_a_targeting_key() {
    let context = EvaluationContext::default()
        .with_custom_field("userId".to_string(), EvaluationContextFieldValue::Int(-17));

    assert_eq!(
        to_unleash_context(&context).user_id.as_deref(),
        Some("-17")
    );
}

#[test]
fn empty_context_maps_to_the_default() {
    let context = to_unleash_context(&EvaluationContext::default());

    assert_eq!(context.user_id, None);
    assert_eq!(context.session_id, None);
    assert!(context.remote_address.is_none());
    assert_eq!(context.app_name, "");
    assert_eq!(context.environment, "");
    assert_eq!(context.current_time, None);
    assert!(context.properties.entries().is_empty());
}

#[test]
fn base_fields_have_their_own_places() {
    let context = EvaluationContext::default()
        .with_custom_field("environment".to_string(), string("production"))
        .with_custom_field("appName".to_string(), EvaluationContextFieldValue::Bool(false))
        .with_custom_field("remoteAddress".to_string(), string("2001:db8::0:1"))
        .with_custom_field(
            "currentTime".to_string(),
            EvaluationContextFieldValue::DateTime(date_time(1_431_648_000, 5)),
        );

    let context = to_unleash_context(&context);

    assert_eq!(context.environment, "production");
    assert_eq!(context.app_name, "false");
    assert_eq!(
        context.remote_address.map(|address| address.0.to_string()),
        Some("2001:db8::1".to_string())
    );
    assert_eq!(
        context.current_time,
        Some(UtcTime {
            seconds: 1_431_648_000,
            nanoseconds: 5
        })
    );
    assert!(context.properties.entries().is_empty());
}

#[test]
fn unreadable_base_fields_set_nothing() {
    let context = EvaluationContext::default()
        .with_custom_field("remoteAddress".to_string(), string("localhost"))
        .with_custom_field("currentTime".to_string(), string("2015-05-15"))
        .with_custom_field("userId".to_string(), EvaluationContextFieldValue::Struct)
        .with_custom_field("appName".to_string(), EvaluationContextFieldValue::Struct);

    let context = to_unleash_context(&context);

    assert!(context.remote_address.is_none());
    assert_eq!(context.current_time, None);
    assert_eq!(context.user_id, None);
    assert_eq!(context.app_name, "");
    assert!(context.properties.entries().is_empty());
}

#[test]
fn order_of_fields_does_not_matter() {
    let fields = [
        ("a", string("1")),
        ("userId", string("user")),
        ("b", string("2")),
    ];
    let mut forwards = EvaluationContext::default();
    for (key, value) in fields {
        forwards = forwards.with_custom_field(key.to_string(), value);
    }
    let backwards = EvaluationContext::default()
        .with_custom_field("b".to_string(), string("2"))
        .with_custom_field("userId".to_string(), string("user"))
        .with_custom_field("a".to_string(), string("1"));

    let forwards = to_unleash_context(&forwards);
    let backwards = to_unleash_context(&backwards);

    assert_eq!(forwards.user_id, backwards.user_id);
    for key in ["a", "b", "userId"] {
        assert_eq!(forwards.properties.get(key), backwards.properties.get(key));
    }
    assert_eq!(forwards.properties.entries().len(), 2);
}

#[test]
fn later_field_replaces_an_earlier_one() {
    let context = EvaluationContext::default()
        .with_custom_field("thing".to_string(), string("first"))
        .with_custom_field("other".to_string(), string("kept"))
        .with_custom_field("thing".to_string(), EvaluationContextFieldValue::Struct);

    let context = to_unleash_context(&context);

    assert!(context.properties.get("thing").is_none());
    assert_eq!(
        context.properties.get("other").map(String::as_str),
        Some("kept")
    );
}

#[test]
fn property_texts() {
    let moment = date_time(0, 0);
    for (value, expected) in [
        (EvaluationContextFieldValue::Bool(true), Some("true".to_string())),
        (EvaluationContextFieldValue::Int(-120), Some("-120".to_string())),
        (EvaluationContextFieldValue::Float("4.5".to_string()), Some(4.5f64.to_string())),
        (string("text"), Some("text".to_string())),
        (EvaluationContextFieldValue::DateTime(moment), Some(moment.to_string())),
        (EvaluationContextFieldValue::Struct, None),
    ] {
        assert_eq!(string_property_value(&value), expected);
    }
    assert_eq!(
        string_property_value(&EvaluationContextFieldValue::DateTime(moment)).as_deref(),
        Some("1970-01-01 0:00:00.0 +00:00:00")
    );
}

#[test]
fn base_keys() {
    for key in [
        "currentTime",
        "userId",
        "sessionId",
        "remoteAddress",
        "environment",
        "appName",
    ] {
        assert!(is_base_context_key(key));
    }
    for key in ["", "userid", "userId ", "targetingKey"] {
        assert!(!is_base_context_key(key));
    }
}

#[test]
fn other_keys_are_no_base_values() {
    let mut context = UnleashContext::default();
    set_base_context_value(&mut context, "thing", &string("x"));

    assert_eq!(context.user_id, None);
    assert!(context.properties.entries().is_empty());
}

#[test]
fn times_at_the_ends_of_the_calendar() {
    let first: i64 = -8_334_601_228_800;
    let last: i64 = 8_210_266_876_799;
    let set = |seconds: i64, nanoseconds: u32| {
        let mut context = UnleashContext::default();
        set_current_time(&mut context, seconds, nanoseconds);
        context.current_time
    };

    assert_eq!(
        set(first, 0),
        Some(UtcTime { seconds: first, nanoseconds: 0 })
    );
    assert_eq!(
        set(last, 999_999_999),
        Some(UtcTime { seconds: last, nanoseconds: 999_999_999 })
    );
    assert_eq!(set(first - 1, 0), None);
    assert_eq!(set(last + 1, 0), None);
    assert_eq!(set(i64::MIN, 0), None);
    assert_eq!(set(i64::MAX, 0), None);
    assert_eq!(
        set(59, 1_999_999_999),
        Some(UtcTime { seconds: 59, nanoseconds: 1_999_999_999 })
    );
    assert_eq!(
        set(-1, 1_000_000_000),
        Some(UtcTime { seconds: -1, nanoseconds: 1_000_000_000 })
    );
    assert_eq!(set(58, 1_000_000_000), None);
    assert_eq!(set(59, 2_000_000_000), None);
}

#[test]
fn time_outside_the_calendar_leaves_the_time_as_it_is() {
    let mut context = UnleashContext::default();
    set_current_time(&mut context, 5, 6);
    set_current_time(&mut context, i64::MAX, 0);

    assert_eq!(
        context.current_time,
        Some(UtcTime { seconds: 5, nanoseconds: 6 })
    );
}

#[test]
fn missing_address_leaves_the_address_as_it_is() {
    let mut context = UnleashContext::default();
    set_remote_address(&mut context, Some(IPAddress("127.0.0.1".parse().unwrap())));
    set_remote_address(&mut context, None);
    set_base_context_value(&mut context, "remoteAddress", &string("junk"));

    assert_eq!(
        context.remote_address.map(|address| address.0.to_string()),
        Some("127.0.0.1".to_string())
    );
}

#[test]
fn decimal_texts() {
    for value in [0, 9, 10, -1, 42, 1_000_000, i64::MAX, i64::MIN] {
        assert_eq!(decimal_text(value), value.to_string());
    }
    assert_eq!(bool_text(false), "false");
}

#[test]
fn quoted_lists() {
    let none: [&str; 0] = [];
    assert_eq!(quote_list(&none), "[]");
    assert_eq!(quote_list(&["a"]), "[\"a\"]");
    assert_eq!(quote_list(&["a", "b\n", "\u{e9}"]), format!("{:?}", ["a", "b\n", "\u{e9}"]));
}

#[test]
fn texts_are_compared_by_their_characters() {
    assert!(same_text("a\u{e9}", "a\u{e9}"));
    assert!(!same_text("a", "A"));
    assert!(!same_text("a", "a "));
}

#[test]
fn text_maps_hold_one_value_for_each_key() {
    let mut map: TextMap<u8> = TextMap::new();
    assert_eq!(map.get("a"), None);
    map.insert("a".to_string(), 1);
    map.insert("b".to_string(), 2);
    map.insert("a".to_string(), 3);

    assert_eq!(map.get("a"), Some(&3));
    assert_eq!(map.get("b"), Some(&2));
    assert_eq!(map.get("c"), None);
    assert_eq!(
        map.entries(),
        &vec![("a".to_string(), 3), ("b".to_string(), 2)]
    );
}
