use jsonrpc_response::{Builder, Error, Json, Response};

#[test]
fn standard_error_constants_serialize_to_their_documented_code_and_message() {
    let cases: Vec<(Error, i64, &str)> = vec![
        (Error::parse_error(), -32700, "Parse error"),
        (Error::invalid_request(), -32600, "Invalid Request"),
        (Error::method_not_found(), -32601, "Method not found"),
        (Error::invalid_params(), -32602, "Invalid params"),
        (Error::internal_error(), -32603, "Internal error"),
    ];
    for (error, code, message) in cases {
        let res_str = Response::new_error(Some(1), error).serialize();
        let parsed: serde_json::Value = serde_json::from_str(res_str.as_str()).unwrap();
        let error_object = parsed.get("error").unwrap();
        assert_eq!(error_object.get("code").unwrap().as_i64().unwrap(), code);
        assert_eq!(error_object.get("message").unwrap().as_str().unwrap(), message);
        assert!(error_object.get("data").is_none());
    }
}

#[test]
fn custom_error_carries_code_message_and_data() {
    let error = Error::custom(7, String::from("boom"), Some(Json::of_bool(true)));
    let reply = Builder::new(Some(2)).error(error);
    assert_eq!(
        reply.body,
        "{\"jsonrpc\":\"2.0\",\"id\":2,\"error\":{\"code\":7,\"message\":\"boom\",\"data\":true}}"
    );
}

#[test]
fn custom_error_without_data_omits_the_data_key() {
    let error = Error::custom(-1, String::from("plain"), None);
    let reply = Builder::new(None).error(error);
    let parsed: serde_json::Value = serde_json::from_str(reply.body.as_str()).unwrap();
    let error_object = parsed.get("error").unwrap().as_object().unwrap();
    assert!(!error_object.contains_key("data"));
    assert_eq!(error_object.get("code").unwrap().as_i64().unwrap(), -1);
}

#[test]
fn string_payload_escaping_round_trips_through_a_json_parser() {
    let text = "a\"b\\c\nd\te\u{8}f\u{c}g\rh\u{1}i\u{1f}j snowman \u{2603}";
    let reply = Builder::new(Some(4)).success(Json::of_str(text));
    let parsed: serde_json::Value = serde_json::from_str(reply.body.as_str()).unwrap();
    assert_eq!(parsed.get("result").unwrap().as_str().unwrap(), text);
}

#[test]
fn control_characters_use_their_json_escapes() {
    let reply = Builder::new(None).success(Json::of_str("\u{1}\u{1f}\n"));
    assert_eq!(reply.body, "{\"jsonrpc\":\"2.0\",\"result\":\"\\u0001\\u001f\\n\"}");
}

#[test]
fn escaped_message_round_trips_through_a_json_parser() {
    let message = "bad \"value\"\nsee logs";
    let error = Error::custom(10, String::from(message), None);
    let res_str = Response::new_error(Some(8), error).serialize();
    let parsed: serde_json::Value = serde_json::from_str(res_str.as_str()).unwrap();
    let error_object = parsed.get("error").unwrap();
    assert_eq!(error_object.get("message").unwrap().as_str().unwrap(), message);
}

#[test]
fn unsigned_number_payloads_cover_the_edges() {
    let zero = Builder::new(Some(0)).success(Json::of_u64(0));
    assert_eq!(zero.body, "{\"jsonrpc\":\"2.0\",\"id\":0,\"result\":0}");

    let max = Builder::new(Some(u64::MAX)).success(Json::of_u64(u64::MAX));
    let parsed: serde_json::Value = serde_json::from_str(max.body.as_str()).unwrap();
    assert_eq!(parsed.get("id").unwrap().as_u64().unwrap(), u64::MAX);
    assert_eq!(parsed.get("result").unwrap().as_u64().unwrap(), u64::MAX);
}

#[test]
fn signed_number_payloads_cover_the_edges() {
    let min = Builder::new(None).success(Json::of_i64(i64::MIN));
    assert_eq!(min.body, "{\"jsonrpc\":\"2.0\",\"result\":-9223372036854775808}");

    let max = Builder::new(None).success(Json::of_i64(i64::MAX));
    let parsed: serde_json::Value = serde_json::from_str(max.body.as_str()).unwrap();
    assert_eq!(parsed.get("result").unwrap().as_i64().unwrap(), i64::MAX);
}

#[test]
fn false_payload_serializes_exactly() {
    let reply = Builder::new(Some(6)).success(Json::of_bool(false));
    assert_eq!(reply.body, "{\"jsonrpc\":\"2.0\",\"id\":6,\"result\":false}");
}

#[test]
fn empty_string_payload_serializes_exactly() {
    let reply = Builder::new(Some(11)).success(Json::of_str(""));
    assert_eq!(reply.body, "{\"jsonrpc\":\"2.0\",\"id\":11,\"result\":\"\"}");
}
