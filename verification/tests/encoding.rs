use graph_gateway::encoder::{encode_chunk, encode_outcomes};
use graph_gateway::json::{json_to_string, JsonValue};
use graph_gateway::response::{serialize_response, GraphQLError, GraphQLResponse};

fn object(fields: Vec<(&str, JsonValue)>) -> JsonValue {
    JsonValue::Object(
        fields
            .into_iter()
            .map(|(k, v)| (String::from(k), v))
            .collect(),
    )
}

#[test]
fn response() {
    let expected_data = {
        let mut m = serde_json::Map::new();
        m.insert(
            String::from("response"),
            serde_json::Value::String(String::from("yay")),
        );
        serde_json::Value::Object(m)
    };
    let event = GraphQLResponse {
        data: Some(object(vec![("response", JsonValue::Str(String::from("yay")))])),
        errors: vec![],
    };
    let serialized = serialize_response(&event);
    let chunk = encode_chunk(0, Ok(serialized.clone()));
    assert_eq!(chunk, serialized, "the encoder must not touch a good event");
    let decoded: serde_json::Value =
        serde_json::from_str(&chunk).expect("unexpected response");
    let expected = {
        let mut m = serde_json::Map::new();
        m.insert(String::from("data"), expected_data);
        serde_json::Value::Object(m)
    };
    assert_eq!(decoded, expected);
}

#[test]
fn response_failure() {
    let event = GraphQLResponse {
        data: Some(JsonValue::Null),
        errors: vec![GraphQLError {
            message: String::from("service 'Mock service' failed: Mock error"),
        }],
    };
    let serialized = serialize_response(&event);
    let chunk = encode_chunk(0, Ok(serialized.clone()));
    assert_eq!(chunk, serialized, "a good error event must pass through verbatim");
    let decoded: serde_json::Value = serde_json::from_str(&chunk).unwrap();
    let expected = {
        let mut error = serde_json::Map::new();
        error.insert(
            String::from("message"),
            serde_json::Value::String(String::from("service 'Mock service' failed: Mock error")),
        );
        let mut m = serde_json::Map::new();
        m.insert(String::from("data"), serde_json::Value::Null);
        m.insert(
            String::from("errors"),
            serde_json::Value::Array(vec![serde_json::Value::Object(error)]),
        );
        serde_json::Value::Object(m)
    };
    assert_eq!(decoded, expected);
}

#[test]
fn substitution_is_shaped_by_position() {
    let first = encode_chunk(0, Err(String::from("boom")));
    let later = encode_chunk(3, Err(String::from("boom")));
    assert_eq!(
        first,
        "{\"data\":null,\"errors\":[{\"message\":\"malformed response: boom\"}]}"
    );
    assert_eq!(
        later,
        "{\"errors\":[{\"message\":\"malformed response: boom\"}]}"
    );
    assert_ne!(first, later);
    // Both substitutes must still parse as JSON for streaming clients.
    let _: serde_json::Value = serde_json::from_str(&first).unwrap();
    let _: serde_json::Value = serde_json::from_str(&later).unwrap();
}

#[test]
fn encoding_keeps_stream_order() {
    let outcomes = vec![
        Ok(String::from("alpha")),
        Err(String::from("x")),
        Ok(String::from("omega")),
    ];
    let chunks = encode_outcomes(&outcomes);
    assert_eq!(chunks.len(), 3);
    assert_eq!(chunks[0], "alpha");
    assert_eq!(
        chunks[1],
        "{\"errors\":[{\"message\":\"malformed response: x\"}]}"
    );
    assert_eq!(chunks[2], "omega");
}

#[test]
fn json_writer_renders_exactly() {
    assert_eq!(json_to_string(&JsonValue::Null), "null");
    assert_eq!(json_to_string(&JsonValue::Bool(true)), "true");
    assert_eq!(json_to_string(&JsonValue::Bool(false)), "false");
    assert_eq!(json_to_string(&JsonValue::Int(0)), "0");
    assert_eq!(json_to_string(&JsonValue::Int(-123)), "-123");
    assert_eq!(
        json_to_string(&JsonValue::Int(i64::MIN)),
        "-9223372036854775808"
    );
    assert_eq!(
        json_to_string(&JsonValue::Int(i64::MAX)),
        "9223372036854775807"
    );
    let nested = object(vec![
        ("label", JsonValue::Str(String::from("a\"b\\c\nd"))),
        (
            "items",
            JsonValue::Array(vec![JsonValue::Int(1), JsonValue::Null]),
        ),
    ]);
    assert_eq!(
        json_to_string(&nested),
        "{\"label\":\"a\\\"b\\\\c\\nd\",\"items\":[1,null]}"
    );
}

#[test]
fn json_escapes_agree_with_a_real_parser() {
    let tricky = String::from("a\"b\\c\nd\re\tf\u{1}g\u{1f}h\u{7f}\u{263a}");
    let text = json_to_string(&JsonValue::Str(tricky.clone()));
    let decoded: serde_json::Value = serde_json::from_str(&text).unwrap();
    assert_eq!(decoded, serde_json::Value::String(tricky));
}

#[test]
fn empty_event_serializes_to_an_empty_object() {
    let event = GraphQLResponse { data: None, errors: vec![] };
    assert_eq!(serialize_response(&event), "{}");
}

#[test]
fn errors_only_event_has_no_data_member() {
    let event = GraphQLResponse {
        data: None,
        errors: vec![
            GraphQLError { message: String::from("first") },
            GraphQLError { message: String::from("second") },
        ],
    };
    assert_eq!(
        serialize_response(&event),
        "{\"errors\":[{\"message\":\"first\"},{\"message\":\"second\"}]}"
    );
}
