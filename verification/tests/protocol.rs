//! End-to-end checks of the envelope protocol: the error taxonomy's wire
//! shape, the uniform envelope encoding, dispatch routing, and the
//! release of the shared editor lock.

use editor_protocol::{
    dispatch, ConnRespStruct, ConnectRequest, EditorState, Method, Request, RequestInput,
    Response, ResponseErr, ResponseOk, SharedEditorState,
};
use editor_protocol::wire::{JsonObject, JsonScalar};
use serde_json::Value;

fn fresh_state() -> SharedEditorState {
    SharedEditorState::new(EditorState { doc: 0 })
}

/// Parse the rendered envelope with a real JSON parser.
fn parse(text: &str) -> Value {
    serde_json::from_str(text).expect("rendered envelope must be valid JSON")
}

/// Decode raw wire input into the dispatcher's input model, the way a
/// transport front end would.
fn decode_input(text: &str) -> RequestInput {
    let v: Value = match serde_json::from_str(text) {
        Result::Ok(v) => v,
        Result::Err(_) => return RequestInput::Malformed,
    };
    let obj = match v.as_object() {
        Option::Some(o) => o,
        Option::None => return RequestInput::Malformed,
    };
    let method = obj.get("method").and_then(Value::as_str).map(str::to_owned);
    let client_id = obj.get("clientId").and_then(Value::as_str).map(str::to_owned);
    RequestInput::Fields { method, client_id }
}

const ALL_KINDS: [ResponseErr; 5] = [
    ResponseErr::MalformedInput,
    ResponseErr::InvalidMethod,
    ResponseErr::MissingMethod,
    ResponseErr::TestError,
    ResponseErr::DeserializationError,
];

#[test]
fn error_kinds_have_exact_code_message_shape() {
    for kind in ALL_KINDS {
        let text = Response(Err(kind)).to_json();
        let v = parse(&text);
        let payload = v.get("payload").unwrap().as_object().unwrap();
        assert_eq!(payload.len(), 2);
        assert!(payload.contains_key("code"));
        assert!(payload.contains_key("message"));
        let code = payload.get("code").unwrap().as_i64().unwrap();
        assert!(code >= 0);
        let message = payload.get("message").unwrap().as_str().unwrap();
        assert!(!message.is_empty());
    }
}

#[test]
fn error_codes_are_distinct_and_stable() {
    let codes: Vec<i32> = ALL_KINDS.iter().map(|k| k.code()).collect();
    assert_eq!(codes, vec![0, 1, 2, 3, 4]);
    for kind in ALL_KINDS {
        assert_eq!(kind.code(), kind.code());
        assert_eq!(kind.message(), kind.message());
    }
}

#[test]
fn error_messages_are_the_published_texts() {
    assert_eq!(ResponseErr::MalformedInput.message(), "malformed input");
    assert_eq!(ResponseErr::InvalidMethod.message(), "invalid method");
    assert_eq!(ResponseErr::MissingMethod.message(), "missing method");
    assert_eq!(ResponseErr::TestError.message(), "test error");
    assert_eq!(ResponseErr::DeserializationError.message(), "deserialization error");
}

#[test]
fn envelope_has_exactly_error_and_payload() {
    let cases = vec![
        Response(Ok(ResponseOk::Empty)),
        Response(Ok(ResponseOk::ConnectResponse(ConnRespStruct { test_field: 1 }))),
        Response(Err(ResponseErr::TestError)),
    ];
    for response in cases {
        let is_err = response.0.is_err();
        let v = parse(&response.to_json());
        let obj = v.as_object().unwrap();
        assert_eq!(obj.len(), 2);
        assert!(obj.contains_key("error"));
        assert!(obj.contains_key("payload"));
        assert_eq!(obj.get("error").unwrap().as_bool().unwrap(), is_err);
    }
}

#[test]
fn generic_success_payload_is_empty_object_not_null() {
    let text = Response(Ok(ResponseOk::Empty)).to_json();
    assert_eq!(text, "{\"error\":false,\"payload\":{}}");
    let v = parse(&text);
    let payload = v.get("payload").unwrap();
    assert!(!payload.is_null());
    assert!(payload.is_object());
    assert_eq!(payload.as_object().unwrap().len(), 0);
}

#[test]
fn connect_payload_carries_test_field_verbatim() {
    let response = Response(Ok(ResponseOk::ConnectResponse(ConnRespStruct { test_field: 974 })));
    let v = parse(&response.to_json());
    let payload = v.get("payload").unwrap().as_object().unwrap();
    assert_eq!(payload.len(), 1);
    assert_eq!(payload.get("test_field").unwrap().as_i64().unwrap(), 974);
}

#[test]
fn negative_test_field_renders_as_json_integer() {
    let response = Response(Ok(ResponseOk::ConnectResponse(ConnRespStruct { test_field: -42 })));
    let text = response.to_json();
    assert_eq!(text, "{\"error\":false,\"payload\":{\"test_field\":-42}}");
    let v = parse(&text);
    assert_eq!(v.get("payload").unwrap().get("test_field").unwrap().as_i64().unwrap(), -42);
}

#[test]
fn extreme_test_field_values_render_exactly() {
    let low = Response(Ok(ResponseOk::ConnectResponse(ConnRespStruct { test_field: i32::MIN })));
    let v = parse(&low.to_json());
    assert_eq!(
        v.get("payload").unwrap().get("test_field").unwrap().as_i64().unwrap(),
        i64::from(i32::MIN)
    );
    let zero = Response(Ok(ResponseOk::ConnectResponse(ConnRespStruct { test_field: 0 })));
    assert_eq!(zero.to_json(), "{\"error\":false,\"payload\":{\"test_field\":0}}");
}

#[test]
fn connect_scenario_yields_success_envelope() {
    let state = fresh_state();
    let input = decode_input("{\"method\": \"connect\", \"clientId\": \"abc\"}");
    let response = dispatch(input, &state);
    assert_eq!(response.to_json(), "{\"error\":false,\"payload\":{\"test_field\":974}}");
}

#[test]
fn unknown_method_scenario_yields_invalid_method() {
    let state = fresh_state();
    let input = decode_input("{\"method\": \"unknown\"}");
    let response = dispatch(input, &state);
    assert!(matches!(response.0, Err(ResponseErr::InvalidMethod)));
    let v = parse(&response.to_json());
    assert_eq!(v.get("error").unwrap().as_bool().unwrap(), true);
    let payload = v.get("payload").unwrap();
    assert_eq!(
        payload.get("code").unwrap().as_i64().unwrap(),
        i64::from(ResponseErr::InvalidMethod.code())
    );
    assert_eq!(payload.get("message").unwrap().as_str().unwrap(), "invalid method");
}

#[test]
fn missing_method_scenario_yields_missing_method() {
    let state = fresh_state();
    let input = decode_input("{\"clientId\": \"abc\"}");
    let response = dispatch(input, &state);
    assert!(matches!(response.0, Err(ResponseErr::MissingMethod)));
}

#[test]
fn malformed_input_yields_malformed_input_error() {
    let state = fresh_state();
    let response = dispatch(decode_input("not json at all"), &state);
    assert!(matches!(response.0, Err(ResponseErr::MalformedInput)));
    let response = dispatch(decode_input("[1, 2, 3]"), &state);
    assert!(matches!(response.0, Err(ResponseErr::MalformedInput)));
}

#[test]
fn connect_without_client_id_fails_deserialization() {
    let state = fresh_state();
    let response = dispatch(decode_input("{\"method\": \"connect\"}"), &state);
    assert!(matches!(response.0, Err(ResponseErr::DeserializationError)));
    let response = dispatch(decode_input("{\"method\": \"connect\", \"clientId\": \"\"}"), &state);
    assert!(matches!(response.0, Err(ResponseErr::DeserializationError)));
}

#[test]
fn method_wire_names_round_trip() {
    assert_eq!(Method::Connect.wire_name(), "connect");
    assert_eq!(Method::from_wire_name(&"connect".to_owned()), Some(Method::Connect));
    assert_eq!(Method::from_wire_name(&"disconnect".to_owned()), None);
    assert_eq!(Method::from_wire_name(&"".to_owned()), None);
}

#[test]
fn lock_is_released_after_each_execution() {
    let state = fresh_state();
    let cmd = ConnectRequest { client_id: "abc".to_owned(), method: Method::Connect };
    let first = cmd.exec(&state);
    // A second command can acquire the lock at once: the first execution
    // released it on its way out.
    let again = ConnectRequest { client_id: "def".to_owned(), method: Method::Connect };
    let second = again.exec(&state);
    for response in [first, second] {
        match response.0 {
            Ok(ResponseOk::ConnectResponse(c)) => assert_eq!(c.test_field, 974),
            _ => panic!("connect must succeed"),
        }
    }
    // And the dispatcher can still reach the same shared state afterwards.
    let third = dispatch(decode_input("{\"method\": \"connect\", \"clientId\": \"ghi\"}"), &state);
    assert!(matches!(third.0, Ok(ResponseOk::ConnectResponse(_))));
}

#[test]
fn batched_commands_all_succeed_in_sequence() {
    let state = fresh_state();
    let cmds: Vec<ConnectRequest> = (0..8)
        .map(|i| ConnectRequest { client_id: format!("client-{i}"), method: Method::Connect })
        .collect();
    let responses = editor_protocol::requests::exec_all(&cmds, &state);
    assert_eq!(responses.len(), cmds.len());
    for response in responses {
        match response.0 {
            Ok(ResponseOk::ConnectResponse(c)) => assert_eq!(c.test_field, 974),
            _ => panic!("every batched connect must succeed"),
        }
    }
}

#[test]
fn renderer_handles_string_and_bool_fields() {
    let object = JsonObject {
        entries: vec![
            ("a".to_owned(), JsonScalar::Str("v".to_owned())),
            ("b".to_owned(), JsonScalar::Bool(true)),
            ("c".to_owned(), JsonScalar::Bool(false)),
            ("d".to_owned(), JsonScalar::Int(-1)),
        ],
    };
    let text = object.render();
    assert_eq!(text, "{\"a\":\"v\",\"b\":true,\"c\":false,\"d\":-1}");
    let v: serde_json::Value = serde_json::from_str(&text).unwrap();
    assert_eq!(v.as_object().unwrap().len(), 4);
    assert_eq!(v.get("a").unwrap().as_str().unwrap(), "v");
}
