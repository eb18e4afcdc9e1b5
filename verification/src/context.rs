//! The contexts of an evaluation: the one that OpenFeature hands over, and the one that Unleash
//! works with.

use vstd::prelude::*;

use crate::evaluation::optional_text;
use crate::text::{bool_text, bool_word, decimal, decimal_text, same_text};
use crate::text_map::{entries_map, lemma_entry_added, TextMap};

verus! {

/// A date and time with an offset from UTC, as the `time` crate holds it.
#[verifier::external_type_specification]
#[verifier::external_body]
pub struct ExOffsetDateTime(time::OffsetDateTime);

/// An IP address, as the Unleash client holds it.
#[verifier::external_type_specification]
#[verifier::external_body]
pub struct ExIpAddress(unleash_api_client::context::IPAddress);

/// What an `OffsetDateTime` prints.
pub uninterp spec fn date_time_text(value: time::OffsetDateTime) -> Seq<char>;

/// What `OffsetDateTime::unix_timestamp` returns.
pub uninterp spec fn date_time_seconds(value: time::OffsetDateTime) -> i64;

/// What `OffsetDateTime::nanosecond` returns.
pub uninterp spec fn date_time_nanoseconds(value: time::OffsetDateTime) -> u32;

/// The IP address that a text denotes to the parser of `IpAddr`, where it denotes one.
pub uninterp spec fn ip_address(text: Seq<char>) -> Option<unleash_api_client::context::IPAddress>;

/// Calls the `Display` formatting of `time::OffsetDateTime`. The contract claims that the text is
/// determined by the value; its layout is left to the crate.
#[verifier::external_body]
fn format_date_time(value: &time::OffsetDateTime) -> (text: String)
    ensures
        text@ == date_time_text(*value),
{
    value.to_string()
}

/// Calls `time::OffsetDateTime::unix_timestamp`. The contract claims that the number is determined
/// by the value.
#[verifier::external_body]
fn unix_timestamp(value: &time::OffsetDateTime) -> (seconds: i64)
    ensures
        seconds == date_time_seconds(*value),
{
    value.unix_timestamp()
}

/// Calls `time::OffsetDateTime::nanosecond`. The contract claims that the number is determined by
/// the value and is less than a thousand million.
#[verifier::external_body]
fn nanosecond(value: &time::OffsetDateTime) -> (nanoseconds: u32)
    ensures
        nanoseconds == date_time_nanoseconds(*value),
        nanoseconds < 1_000_000_000,
{
    value.nanosecond()
}

/// Calls `str::parse` for the `IpAddr` that `unleash_api_client::context::IPAddress` wraps. The
/// contract claims that the result is determined by the text; which texts denote an address is
/// left to the standard library.
#[verifier::external_body]
fn parse_ip_address(text: &str) -> (address: Option<unleash_api_client::context::IPAddress>)
    ensures
        address == ip_address(text@),
{
    match text.parse() {
        Ok(address) => Some(unleash_api_client::context::IPAddress(address)),
        Err(_) => None,
    }
}

/// An instant in UTC: whole seconds since the start of 1970, and nanoseconds on top of them.
#[derive(Clone, Copy, Debug, PartialEq, Eq, Structural)]
pub struct UtcTime {
    pub seconds: i64,
    pub nanoseconds: u32,
}

/// The instant lies in the years from -262143 to 262142, and its nanoseconds stay below one
/// second, or below two in the last second of a minute.
pub open spec fn in_calendar(seconds: i64, nanoseconds: u32) -> bool {
    &&& -8_334_601_228_800 <= seconds <= 8_210_266_876_799
    &&& nanoseconds < 1_000_000_000 || (nanoseconds < 2_000_000_000 && seconds % 60 == 59)
}

/// The instant of a timestamp, where the calendar has it.
pub open spec fn utc_time(seconds: i64, nanoseconds: u32) -> Option<UtcTime> {
    if in_calendar(seconds, nanoseconds) {
        Some(UtcTime { seconds, nanoseconds })
    } else {
        None
    }
}

/// Calls `chrono::DateTime::from_timestamp` and reads the result back with `timestamp` and
/// `timestamp_subsec_nanos`. The contract claims that there is a result exactly for the instants
/// of chrono's calendar, and that it reads back as it was given.
#[verifier::external_body]
fn utc_from_timestamp(seconds: i64, nanoseconds: u32) -> (time: Option<UtcTime>)
    ensures
        time == utc_time(seconds, nanoseconds),
{
    match chrono::DateTime::from_timestamp(seconds, nanoseconds) {
        Some(time) => Some(
            UtcTime { seconds: time.timestamp(), nanoseconds: time.timestamp_subsec_nanos() },
        ),
        None => None,
    }
}

/// The value of a custom field. A floating-point number is held by the text that it prints; a
/// structure is told apart from the rest, and what it holds is not read.
#[derive(Debug)]
pub enum EvaluationContextFieldValue {
    Bool(bool),
    Int(i64),
    Float(String),
    String(String),
    DateTime(time::OffsetDateTime),
    Struct,
}

/// The model of [`EvaluationContextFieldValue`].
pub enum FieldView {
    Bool(bool),
    Int(i64),
    Float(Seq<char>),
    String(Seq<char>),
    DateTime(time::OffsetDateTime),
    Struct,
}

impl View for EvaluationContextFieldValue {
    type V = FieldView;

    open spec fn view(&self) -> FieldView {
        match self {
            EvaluationContextFieldValue::Bool(value) => FieldView::Bool(*value),
            EvaluationContextFieldValue::Int(value) => FieldView::Int(*value),
            EvaluationContextFieldValue::Float(text) => FieldView::Float(text@),
            EvaluationContextFieldValue::String(text) => FieldView::String(text@),
            EvaluationContextFieldValue::DateTime(value) => FieldView::DateTime(*value),
            EvaluationContextFieldValue::Struct => FieldView::Struct,
        }
    }
}

/// What an evaluation is asked for: an optional targeting key and custom fields.
#[derive(Debug)]
pub struct EvaluationContext {
    pub targeting_key: Option<String>,
    pub custom_fields: TextMap<EvaluationContextFieldValue>,
}

/// The model of [`EvaluationContext`].
#[verifier::ext_equal]
pub struct EvaluationContextView {
    pub targeting_key: Option<Seq<char>>,
    pub custom_fields: Map<Seq<char>, FieldView>,
}

/// The models of the fields in a map.
pub open spec fn field_views(fields: Map<Seq<char>, EvaluationContextFieldValue>) -> Map<
    Seq<char>,
    FieldView,
> {
    fields.map_values(|value: EvaluationContextFieldValue| value@)
}

impl View for EvaluationContext {
    type V = EvaluationContextView;

    open spec fn view(&self) -> EvaluationContextView {
        EvaluationContextView {
            targeting_key: optional_text(self.targeting_key),
            custom_fields: field_views(self.custom_fields@),
        }
    }
}

impl Default for EvaluationContext {
    /// A context without a targeting key and without fields.
    fn default() -> (context: Self)
        ensures
            context@ == (EvaluationContextView {
                targeting_key: None,
                custom_fields: Map::empty(),
            }),
    {
        let context = EvaluationContext { targeting_key: None, custom_fields: TextMap::new() };
        assert(context@.custom_fields =~= Map::empty());
        context
    }
}

impl EvaluationContext {
    /// Sets the targeting key.
    pub fn with_targeting_key(self, targeting_key: String) -> (context: Self)
        ensures
            context@ == (EvaluationContextView { targeting_key: Some(targeting_key@), ..self@ }),
    {
        EvaluationContext {
            targeting_key: Some(targeting_key),
            custom_fields: self.custom_fields,
        }
    }

    /// Puts a custom field in, in place of one of the same name.
    pub fn with_custom_field(
        self,
        key: String,
        value: EvaluationContextFieldValue,
    ) -> (context: Self)
        ensures
            context@ == (EvaluationContextView {
                custom_fields: self@.custom_fields.insert(key@, value@),
                ..self@
            }),
    {
        let mut custom_fields = self.custom_fields;
        custom_fields.insert(key, value);
        let context = EvaluationContext { targeting_key: self.targeting_key, custom_fields };
        assert(context@.custom_fields =~= self@.custom_fields.insert(key@, value@));
        context
    }
}

/// What Unleash decides by.
#[derive(Debug)]
pub struct UnleashContext {
    pub user_id: Option<String>,
    pub session_id: Option<String>,
    pub remote_address: Option<unleash_api_client::context::IPAddress>,
    pub properties: TextMap<String>,
    pub app_name: String,
    pub environment: String,
    pub current_time: Option<UtcTime>,
}

/// The model of [`UnleashContext`].
#[verifier::ext_equal]
pub struct UnleashContextView {
    pub user_id: Option<Seq<char>>,
    pub session_id: Option<Seq<char>>,
    pub remote_address: Option<unleash_api_client::context::IPAddress>,
    pub properties: Map<Seq<char>, Seq<char>>,
    pub app_name: Seq<char>,
    pub environment: Seq<char>,
    pub current_time: Option<UtcTime>,
}

/// The texts in a map of strings.
pub open spec fn text_values(map: Map<Seq<char>, String>) -> Map<Seq<char>, Seq<char>> {
    map.map_values(|text: String| text@)
}

impl View for UnleashContext {
    type V = UnleashContextView;

    open spec fn view(&self) -> UnleashContextView {
        UnleashContextView {
            user_id: optional_text(self.user_id),
            session_id: optional_text(self.session_id),
            remote_address: self.remote_address,
            properties: text_values(self.properties@),
            app_name: self.app_name@,
            environment: self.environment@,
            current_time: self.current_time,
        }
    }
}

/// The context in which nothing is set.
pub open spec fn blank_context() -> UnleashContextView {
    UnleashContextView {
        user_id: None,
        session_id: None,
        remote_address: None,
        properties: Map::empty(),
        app_name: Seq::empty(),
        environment: Seq::empty(),
        current_time: None,
    }
}

impl Default for UnleashContext {
    /// A context in which nothing is set.
    fn default() -> (context: Self)
        ensures
            context@ == blank_context(),
    {
        let context = UnleashContext {
            user_id: None,
            session_id: None,
            remote_address: None,
            properties: TextMap::new(),
            app_name: String::new(),
            environment: String::new(),
            current_time: None,
        };
        assert(context@ =~= blank_context());
        context
    }
}

/// The text of a field as a property. A structure has none.
pub open spec fn property_text(value: FieldView) -> Option<Seq<char>> {
    match value {
        FieldView::Bool(value) => Some(bool_word(value)),
        FieldView::Int(value) => Some(decimal(value as int)),
        FieldView::Float(text) => Some(text),
        FieldView::String(text) => Some(text),
        FieldView::DateTime(value) => Some(date_time_text(value)),
        FieldView::Struct => None,
    }
}

/// The fields that Unleash has a place of its own for.
pub open spec fn is_base_key(key: Seq<char>) -> bool {
    ||| key == "currentTime"@
    ||| key == "userId"@
    ||| key == "sessionId"@
    ||| key == "remoteAddress"@
    ||| key == "environment"@
    ||| key == "appName"@
}

/// The address in a field: a string that denotes one.
pub open spec fn field_address(value: FieldView) -> Option<
    unleash_api_client::context::IPAddress,
> {
    match value {
        FieldView::String(text) => ip_address(text),
        _ => None,
    }
}

/// The instant in a field: a date and time that the calendar has.
pub open spec fn field_time(value: FieldView) -> Option<UtcTime> {
    match value {
        FieldView::DateTime(value) => utc_time(
            date_time_seconds(value),
            date_time_nanoseconds(value),
        ),
        _ => None,
    }
}

/// The text, or the empty text in its absence.
pub open spec fn text_or_empty(text: Option<Seq<char>>) -> Seq<char> {
    match text {
        Some(text) => text,
        None => Seq::empty(),
    }
}

/// The context with the field `key` put in its own place. A field that is no address or no time
/// leaves the address or the time as it is.
pub open spec fn with_base_value(
    context: UnleashContextView,
    key: Seq<char>,
    value: FieldView,
) -> UnleashContextView {
    if key == "userId"@ {
        UnleashContextView { user_id: property_text(value), ..context }
    } else if key == "sessionId"@ {
        UnleashContextView { session_id: property_text(value), ..context }
    } else if key == "environment"@ {
        UnleashContextView { environment: text_or_empty(property_text(value)), ..context }
    } else if key == "appName"@ {
        UnleashContextView { app_name: text_or_empty(property_text(value)), ..context }
    } else if key == "remoteAddress"@ {
        match field_address(value) {
            Some(address) => UnleashContextView { remote_address: Some(address), ..context },
            None => context,
        }
    } else if key == "currentTime"@ {
        match field_time(value) {
            Some(time) => UnleashContextView { current_time: Some(time), ..context },
            None => context,
        }
    } else {
        context
    }
}

/// The text of the field `key`, where there is such a field and it has one.
pub open spec fn field_text(fields: Map<Seq<char>, FieldView>, key: Seq<char>) -> Option<
    Seq<char>,
> {
    if fields.contains_key(key) {
        property_text(fields[key])
    } else {
        None
    }
}

/// The properties among the fields: those without a place of their own that have a text.
pub open spec fn properties_of(fields: Map<Seq<char>, FieldView>) -> Map<Seq<char>, Seq<char>> {
    Map::new(
        |key: Seq<char>|
            fields.contains_key(key) && !is_base_key(key) && property_text(fields[key]) is Some,
        |key: Seq<char>| property_text(fields[key])->0,
    )
}

/// The Unleash context of an evaluation context.
pub open spec fn unleash_context(context: EvaluationContextView) -> UnleashContextView {
    let fields = context.custom_fields;
    UnleashContextView {
        user_id: match context.targeting_key {
            Some(targeting_key) => Some(targeting_key),
            None => field_text(fields, "userId"@),
        },
        session_id: field_text(fields, "sessionId"@),
        remote_address: if fields.contains_key("remoteAddress"@) {
            field_address(fields["remoteAddress"@])
        } else {
            None
        },
        properties: properties_of(fields),
        app_name: text_or_empty(field_text(fields, "appName"@)),
        environment: text_or_empty(field_text(fields, "environment"@)),
        current_time: if fields.contains_key("currentTime"@) {
            field_time(fields["currentTime"@])
        } else {
            None
        },
    }
}

/// The text of a field as a property. A structure has none.
pub fn string_property_value(value: &EvaluationContextFieldValue) -> (text: Option<String>)
    ensures
        optional_text(text) == property_text(value@),
{
    match value {
        EvaluationContextFieldValue::Bool(value) => Some(bool_text(*value)),
        EvaluationContextFieldValue::Int(value) => Some(decimal_text(*value)),
        EvaluationContextFieldValue::Float(text) => Some(text.clone()),
        EvaluationContextFieldValue::String(text) => Some(text.clone()),
        EvaluationContextFieldValue::DateTime(value) => Some(format_date_time(value)),
        EvaluationContextFieldValue::Struct => None,
    }
}

/// Whether Unleash has a place of its own for a field.
pub fn is_base_context_key(key: &str) -> (base: bool)
    ensures
        base == is_base_key(key@),
{
    same_text(key, "currentTime") || same_text(key, "userId") || same_text(key, "sessionId")
        || same_text(key, "remoteAddress") || same_text(key, "environment") || same_text(
        key,
        "appName",
    )
}

fn string_or_empty(text: Option<String>) -> (string: String)
    ensures
        string@ == text_or_empty(optional_text(text)),
{
    match text {
        Some(text) => text,
        None => String::new(),
    }
}

/// Sets the address to one that was parsed. Without one, the context stays as it is.
pub fn set_remote_address(
    context: &mut UnleashContext,
    parsed: Option<unleash_api_client::context::IPAddress>,
)
    ensures
        final(context)@ == (match parsed {
            Some(address) => UnleashContextView { remote_address: Some(address), ..old(context)@ },
            None => old(context)@,
        }),
{
    if let Some(remote_address) = parsed {
        context.remote_address = Some(remote_address);
    }
}

/// Sets the time to that of a timestamp. Outside the calendar, the context stays as it is.
pub fn set_current_time(context: &mut UnleashContext, seconds: i64, nanoseconds: u32)
    ensures
        final(context)@ == (match utc_time(seconds, nanoseconds) {
            Some(time) => UnleashContextView { current_time: Some(time), ..old(context)@ },
            None => old(context)@,
        }),
{
    if let Some(current_time) = utc_from_timestamp(seconds, nanoseconds) {
        context.current_time = Some(current_time);
    }
}

/// Puts a field that Unleash has a place of its own for in its place.
pub fn set_base_context_value(
    context: &mut UnleashContext,
    key: &str,
    value: &EvaluationContextFieldValue,
)
    ensures
        final(context)@ == with_base_value(old(context)@, key@, value@),
{
    if same_text(key, "userId") {
        context.user_id = string_property_value(value);
    } else if same_text(key, "sessionId") {
        context.session_id = string_property_value(value);
    } else if same_text(key, "environment") {
        context.environment = string_or_empty(string_property_value(value));
    } else if same_text(key, "appName") {
        context.app_name = string_or_empty(string_property_value(value));
    } else if same_text(key, "remoteAddress") {
        if let EvaluationContextFieldValue::String(text) = value {
            set_remote_address(context, parse_ip_address(text.as_str()));
        }
    } else if same_text(key, "currentTime") {
        if let EvaluationContextFieldValue::DateTime(value) = value {
            set_current_time(context, unix_timestamp(value), nanosecond(value));
        }
    }
}

/// The names of the fields with a place of their own differ from each other.
pub(crate) proof fn lemma_base_keys_differ()
    ensures
        "currentTime"@ != "userId"@,
        "currentTime"@ != "sessionId"@,
        "currentTime"@ != "remoteAddress"@,
        "currentTime"@ != "environment"@,
        "currentTime"@ != "appName"@,
        "userId"@ != "sessionId"@,
        "userId"@ != "remoteAddress"@,
        "userId"@ != "environment"@,
        "userId"@ != "appName"@,
        "sessionId"@ != "remoteAddress"@,
        "sessionId"@ != "environment"@,
        "sessionId"@ != "appName"@,
        "remoteAddress"@ != "environment"@,
        "remoteAddress"@ != "appName"@,
        "environment"@ != "appName"@,
{
    reveal_strlit("currentTime");
    reveal_strlit("userId");
    reveal_strlit("sessionId");
    reveal_strlit("remoteAddress");
    reveal_strlit("environment");
    reveal_strlit("appName");
    assert("currentTime"@[0] == 'c');
    assert("userId"@[0] == 'u');
    assert("sessionId"@[0] == 's');
    assert("remoteAddress"@[0] == 'r');
    assert("environment"@[0] == 'e');
    assert("appName"@[0] == 'a');
}

/// The context with one more field taken into account.
pub open spec fn with_field(
    context: UnleashContextView,
    key: Seq<char>,
    value: FieldView,
) -> UnleashContextView {
    if is_base_key(key) {
        with_base_value(context, key, value)
    } else {
        match property_text(value) {
            Some(text) => UnleashContextView {
                properties: context.properties.insert(key, text),
                ..context
            },
            None => context,
        }
    }
}

/// One field more among the custom fields is one field more taken into account.
proof fn lemma_field_added(fields: Map<Seq<char>, FieldView>, key: Seq<char>, value: FieldView)
    requires
        !fields.contains_key(key),
    ensures
        unleash_context(
            EvaluationContextView {
                targeting_key: None,
                custom_fields: fields.insert(key, value),
            },
        ) == with_field(
            unleash_context(EvaluationContextView { targeting_key: None, custom_fields: fields }),
            key,
            value,
        ),
{
    lemma_base_keys_differ();
    let before = unleash_context(
        EvaluationContextView { targeting_key: None, custom_fields: fields },
    );
    let after = unleash_context(
        EvaluationContextView { targeting_key: None, custom_fields: fields.insert(key, value) },
    );
    assert(after.properties =~= with_field(before, key, value).properties);
}

/// Turns an evaluation context into an Unleash context.
pub fn to_unleash_context(evaluation_context: &EvaluationContext) -> (context: UnleashContext)
    ensures
        context@ == unleash_context(evaluation_context@),
{
    let mut context = UnleashContext::default();
    let entries = evaluation_context.custom_fields.entries();
    proof {
        assert(field_views(entries_map(entries@.take(0))) =~= Map::empty());
        assert(properties_of(Map::empty()) =~= Map::empty());
    }
    let mut i: usize = 0;
    while i < entries.len()
        invariant
            i <= entries@.len(),
            crate::text_map::distinct_keys(entries@),
            context@ == unleash_context(
                EvaluationContextView {
                    targeting_key: None,
                    custom_fields: field_views(entries_map(entries@.take(i as int))),
                },
            ),
        decreases entries@.len() - i,
    {
        let ghost known = entries@.take(i as int);
        let ghost more = entries@.take(i as int + 1);
        let key = entries[i].0.as_str();
        let value = &entries[i].1;
        proof {
            assert(more =~= known.push(entries@[i as int]));
            assert forall|j: int| !crate::text_map::key_at(known, key@, j) by {}
            lemma_entry_added(known, more);
            assert(!entries_map(known).contains_key(key@));
            assert(field_views(entries_map(more)) =~= field_views(entries_map(known)).insert(
                key@,
                value@,
            ));
            lemma_field_added(field_views(entries_map(known)), key@, value@);
        }
        let ghost before = context@;
        if is_base_context_key(key) {
            set_base_context_value(&mut context, key, value);
        } else if let Some(text) = string_property_value(value) {
            context.properties.insert(entries[i].0.clone(), text);
            assert(context@ =~= with_field(before, key@, value@));
        }
        i += 1;
    }
    proof {
        assert(entries@.take(i as int) =~= entries@);
    }
    if let Some(targeting_key) = &evaluation_context.targeting_key {
        context.user_id = Some(targeting_key.clone());
    }
    context
}

} // verus!
