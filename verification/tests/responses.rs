use jsonrpc_response::{Builder, Error, Json, Response};

#[test]
fn serialize_response() {
    let res = Response::new_success(Some(42), Json::of_str("The answer"));
    let res_str = res.serialize();
    let deserialized: serde_json::Value = serde_json::from_str(res_str.as_str()).unwrap();

    assert_eq!(deserialized.get("jsonrpc").unwrap().as_str().unwrap(), "2.0");
    assert_eq!(deserialized.get("result").unwrap().as_str().unwrap(), "The answer");
    assert_eq!(deserialized.get("id").unwrap().as_u64().unwrap(), 42);
}

#[test]
fn serialize_err_response() {
    let res = Response::new_error(Some(42), Error::invalid_params());
    let res_str = res.serialize();
    let deserialized: serde_json::Value = serde_json::from_str(res_str.as_str()).unwrap();

    assert_eq!(deserialized.get("jsonrpc").unwrap().as_str().unwrap(), "2.0");
    assert_eq!(deserialized.get("id").unwrap().as_u64().unwrap(), 42);
    let error = deserialized.get("error").unwrap();
    assert_eq!(error.get("code").unwrap().as_i64().unwrap(), -32602);
    assert_eq!(error.get("message").unwrap().as_str().unwrap(), "Invalid params");
}

#[test]
fn serialize_no_id_response_shoud_not_contain_id_field() {
    let res = Response::new_success(None, Json::of_u64(42));
    let res_str = res.serialize();

    assert!(!res_str.contains("id"));
}

#[test]
fn builder_success_with_id_exact_wire_text() {
    let reply = Builder::new(Some(42)).success(Json::of_str("The answer"));

    assert_eq!(reply.status, 200);
    assert_eq!(reply.content_type, "application/json");
    assert_eq!(reply.body, "{\"jsonrpc\":\"2.0\",\"id\":42,\"result\":\"The answer\"}");
}

#[test]
fn builder_error_with_id_exact_wire_text() {
    let reply = Builder::new(Some(42)).error(Error::invalid_params());

    assert_eq!(reply.status, 200);
    assert_eq!(reply.content_type, "application/json");
    assert_eq!(
        reply.body,
        "{\"jsonrpc\":\"2.0\",\"id\":42,\"error\":{\"code\":-32602,\"message\":\"Invalid params\"}}"
    );
}

#[test]
fn builder_success_without_id_omits_id_key() {
    let reply = Builder::new(None).success(Json::of_u64(42));

    let parsed: serde_json::Value = serde_json::from_str(reply.body.as_str()).unwrap();
    let object = parsed.as_object().unwrap();
    assert!(!object.contains_key("id"));
    assert_eq!(object.get("result").unwrap().as_u64().unwrap(), 42);
}

#[test]
fn result_dispatches_on_the_outcome() {
    let ok_reply = Builder::new(Some(1)).result(Ok(Json::of_bool(true)));
    assert_eq!(ok_reply.body, "{\"jsonrpc\":\"2.0\",\"id\":1,\"result\":true}");

    let err_reply = Builder::new(Some(1)).result(Err(Error::method_not_found()));
    assert_eq!(
        err_reply.body,
        "{\"jsonrpc\":\"2.0\",\"id\":1,\"error\":{\"code\":-32601,\"message\":\"Method not found\"}}"
    );
}

#[test]
fn result_and_error_keys_are_mutually_exclusive() {
    let success = Builder::new(Some(3)).success(Json::null());
    let parsed: serde_json::Value = serde_json::from_str(success.body.as_str()).unwrap();
    let object = parsed.as_object().unwrap();
    assert!(object.contains_key("result"));
    assert!(!object.contains_key("error"));

    let failure = Builder::new(Some(3)).error(Error::internal_error());
    let parsed: serde_json::Value = serde_json::from_str(failure.body.as_str()).unwrap();
    let object = parsed.as_object().unwrap();
    assert!(object.contains_key("error"));
    assert!(!object.contains_key("result"));
}

#[test]
fn null_payload_round_trips() {
    let reply = Builder::new(Some(9)).success(Json::null());
    let parsed: serde_json::Value = serde_json::from_str(reply.body.as_str()).unwrap();
    let object = parsed.as_object().unwrap();
    assert!(object.contains_key("result"));
    assert!(object.get("result").unwrap().is_null());
}

#[test]
fn compound_payload_round_trips() {
    let payload = Json::from_text(String::from("{\"a\":[1,2,3]}"));
    let reply = Builder::new(Some(5)).success(payload);
    let parsed: serde_json::Value = serde_json::from_str(reply.body.as_str()).unwrap();
    let expected: serde_json::Value = serde_json::from_str("{\"a\":[1,2,3]}").unwrap();
    assert_eq!(parsed.get("result").unwrap(), &expected);
}
