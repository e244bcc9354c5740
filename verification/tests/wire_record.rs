use record_exchange::client::{step, Action, Event};
use record_exchange::fetch_json::TargetData;
use record_exchange::json::{JsonValue, Member};
use record_exchange::routes::return_json_data::{return_json_data, TargetData as ServerRecord};

fn member(key: &str, value: JsonValue) -> Member {
    Member { key: key.to_owned(), value }
}

fn text(value: &str) -> JsonValue {
    JsonValue::Text(value.to_owned())
}

fn client_record(field_one: &str, field_two: i32, field_three: &str) -> TargetData {
    TargetData {
        field_one: field_one.to_owned(),
        field_two,
        field_three: field_three.to_owned(),
    }
}

fn round_trip(field_one: &str, field_two: i32, field_three: &str) {
    let sent = ServerRecord {
        field_one: field_one.to_owned(),
        field_two,
        field_three: field_three.to_owned(),
    };
    let expected = Some(client_record(field_one, field_two, field_three));
    assert_eq!(TargetData::from_members(&sent.to_members()), expected);
    assert_eq!(TargetData::from_json(&sent.to_json()), expected);
}

#[test]
fn fixed_record_survives_the_round_trip() {
    let body = return_json_data().to_json();
    assert_eq!(TargetData::from_json(&body), Some(client_record("Field One", 1, "Field Three")));
}

#[test]
fn any_record_survives_the_round_trip() {
    round_trip("", 0, "");
    round_trip("plain", -1, "text");
    round_trip("quote \" backslash \\ slash /", i32::MAX, "tab\tnewline\ncontrol\u{1}");
    round_trip("snowman \u{2603} and beyond \u{1F600}", i32::MIN, "{\"field_one\":\"nested\"}");
    round_trip("field_two", 42, "field_one");
}

#[test]
fn from_json_reads_a_spaced_object_in_any_order() {
    let body = " {\n \"field_three\" : \"c\",\n \"field_two\" : -7,\n \"field_one\" : \"a\"\n } ";
    assert_eq!(TargetData::from_json(body), Some(client_record("a", -7, "c")));
}

#[test]
fn from_json_ignores_members_with_other_keys() {
    let body = r#"{"extra":[1,{"field_one":"x"}],"field_one":"a","field_two":2,"more":null,"field_three":"c"}"#;
    assert_eq!(TargetData::from_json(body), Some(client_record("a", 2, "c")));
}

#[test]
fn from_json_reads_escapes_in_strings() {
    let body = r#"{"field_one":"aA\n","field_two":0,"field_three":"\"\\"}"#;
    assert_eq!(TargetData::from_json(body), Some(client_record("aA\n", 0, "\"\\")));
}

#[test]
fn from_json_takes_the_last_value_of_a_repeated_key() {
    let body = r#"{"field_one":"a","field_one":"b","field_two":1,"field_two":2,"field_three":"c"}"#;
    assert_eq!(TargetData::from_json(body), Some(client_record("b", 2, "c")));
    let good_then_bad = r#"{"field_one":"a","field_one":7,"field_two":1,"field_three":"c"}"#;
    assert_eq!(TargetData::from_json(good_then_bad), None);
    let bad_then_good = r#"{"field_one":7,"field_one":"b","field_two":1,"field_three":"c"}"#;
    assert_eq!(TargetData::from_json(bad_then_good), Some(client_record("b", 1, "c")));
}

#[test]
fn repeated_key_in_a_body_does_not_abort_the_client() {
    let body = r#"{"field_one":"a","field_one":"b","field_two":1,"field_three":"c"}"#.to_owned();
    let transition = step(None, Event::Fetched(body));
    assert_eq!(transition.action, Action::Render);
    assert_eq!(transition.state_data, Some(client_record("b", 1, "c")));
}

#[test]
fn from_json_rejects_text_that_is_no_json_object() {
    assert_eq!(TargetData::from_json(""), None);
    assert_eq!(TargetData::from_json("You're using axum. Try this endpoint: '/return-json-data'"), None);
    assert_eq!(TargetData::from_json("null"), None);
    assert_eq!(TargetData::from_json("[\"Field One\",1,\"Field Three\"]"), None);
    assert_eq!(TargetData::from_json("\"field_one\""), None);
    assert_eq!(TargetData::from_json(r#"{"field_one":"a","field_two":1,"field_three":"c""#), None);
    assert_eq!(TargetData::from_json(r#"{"field_one":"a","field_two":1,"field_three":"c"} x"#), None);
    assert_eq!(TargetData::from_json(r#"{'field_one':'a','field_two':1,'field_three':'c'}"#), None);
}

#[test]
fn from_json_rejects_a_missing_field() {
    assert_eq!(TargetData::from_json("{}"), None);
    assert_eq!(TargetData::from_json(r#"{"field_two":1,"field_three":"c"}"#), None);
    assert_eq!(TargetData::from_json(r#"{"field_one":"a","field_three":"c"}"#), None);
    assert_eq!(TargetData::from_json(r#"{"field_one":"a","field_two":1}"#), None);
    assert_eq!(TargetData::from_json(r#"{"Field_One":"a","field_two":1,"field_three":"c"}"#), None);
}

#[test]
fn from_json_rejects_a_field_of_the_wrong_type() {
    assert_eq!(TargetData::from_json(r#"{"field_one":1,"field_two":1,"field_three":"c"}"#), None);
    assert_eq!(TargetData::from_json(r#"{"field_one":"a","field_two":"1","field_three":"c"}"#), None);
    assert_eq!(TargetData::from_json(r#"{"field_one":"a","field_two":1,"field_three":null}"#), None);
    assert_eq!(TargetData::from_json(r#"{"field_one":"a","field_two":true,"field_three":"c"}"#), None);
    assert_eq!(TargetData::from_json(r#"{"field_one":"a","field_two":1.0,"field_three":"c"}"#), None);
    assert_eq!(TargetData::from_json(r#"{"field_one":"a","field_two":1.5,"field_three":"c"}"#), None);
    assert_eq!(TargetData::from_json(r#"{"field_one":"a","field_two":1e2,"field_three":"c"}"#), None);
    assert_eq!(TargetData::from_json(r#"{"field_one":["a"],"field_two":1,"field_three":"c"}"#), None);
    assert_eq!(TargetData::from_json(r#"{"field_one":"a","field_two":{},"field_three":"c"}"#), None);
}

#[test]
fn from_json_holds_field_two_to_the_range_of_i32() {
    let body = |number: &str| format!(r#"{{"field_one":"a","field_two":{},"field_three":"c"}}"#, number);
    assert_eq!(TargetData::from_json(&body("2147483647")), Some(client_record("a", i32::MAX, "c")));
    assert_eq!(TargetData::from_json(&body("-2147483648")), Some(client_record("a", i32::MIN, "c")));
    assert_eq!(TargetData::from_json(&body("2147483648")), None);
    assert_eq!(TargetData::from_json(&body("-2147483649")), None);
    assert_eq!(TargetData::from_json(&body("9223372036854775807")), None);
    assert_eq!(TargetData::from_json(&body("9223372036854775808")), None);
    assert_eq!(TargetData::from_json(&body("18446744073709551616")), None);
}

#[test]
fn from_members_reads_the_three_fields() {
    let members = vec![
        member("field_two", JsonValue::Integer(5)),
        member("unknown", JsonValue::Other),
        member("field_three", text("c")),
        member("field_one", text("a")),
    ];
    assert_eq!(TargetData::from_members(&members), Some(client_record("a", 5, "c")));
}

#[test]
fn from_members_takes_the_first_member_with_a_key() {
    let members = vec![
        member("field_one", text("first")),
        member("field_one", text("second")),
        member("field_two", JsonValue::Integer(1)),
        member("field_two", JsonValue::Other),
        member("field_three", text("c")),
    ];
    assert_eq!(TargetData::from_members(&members), Some(client_record("first", 1, "c")));
    let shadowed = vec![
        member("field_one", JsonValue::Other),
        member("field_one", text("second")),
        member("field_two", JsonValue::Integer(1)),
        member("field_three", text("c")),
    ];
    assert_eq!(TargetData::from_members(&shadowed), None);
}

#[test]
fn from_members_rejects_what_does_not_fit_the_schema() {
    assert_eq!(TargetData::from_members(&Vec::new()), None);
    let full = |one: JsonValue, two: JsonValue, three: JsonValue| {
        vec![member("field_one", one), member("field_two", two), member("field_three", three)]
    };
    assert_eq!(TargetData::from_members(&full(JsonValue::Integer(1), JsonValue::Integer(1), text("c"))), None);
    assert_eq!(TargetData::from_members(&full(text("a"), text("1"), text("c"))), None);
    assert_eq!(TargetData::from_members(&full(text("a"), JsonValue::Integer(1), JsonValue::Other)), None);
    assert_eq!(TargetData::from_members(&full(text("a"), JsonValue::Integer(2147483648), text("c"))), None);
    assert_eq!(TargetData::from_members(&full(text("a"), JsonValue::Integer(-2147483649), text("c"))), None);
    assert_eq!(TargetData::from_members(&full(text("a"), JsonValue::Integer(i64::MAX), text("c"))), None);
    assert_eq!(
        TargetData::from_members(&full(text("a"), JsonValue::Integer(-2147483648), text("c"))),
        Some(client_record("a", i32::MIN, "c"))
    );
    let two_of_three = vec![member("field_one", text("a")), member("field_two", JsonValue::Integer(1))];
    assert_eq!(TargetData::from_members(&two_of_three), None);
}
