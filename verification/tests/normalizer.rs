use ghub::http::GhubError;
use ghub::json::JsonValue;
use ghub::util::provider_error_message;
use ghub::util::result_from_server_response;

fn error_body(message: &str) -> JsonValue {
    JsonValue::Obj(vec![(
        String::from("errors"),
        JsonValue::Arr(vec![JsonValue::Obj(vec![(
            String::from("message"),
            JsonValue::Str(String::from(message)),
        )])]),
    )])
}

#[test]
fn success_returns_body_unchanged() {
    let body = JsonValue::Obj(vec![(String::from("a"), JsonValue::Num(String::from("1")))]);
    let expected = JsonValue::Obj(vec![(String::from("a"), JsonValue::Num(String::from("1")))]);
    let result = result_from_server_response(200, body).unwrap();
    assert_eq!(result, expected);
}

#[test]
fn success_covers_whole_2xx_class() {
    assert!(result_from_server_response(204, JsonValue::Null).is_ok());
    assert!(result_from_server_response(299, JsonValue::Null).is_ok());
    assert!(result_from_server_response(199, JsonValue::Null).is_err());
    assert!(result_from_server_response(300, JsonValue::Null).is_err());
}

#[test]
fn error_with_provider_message_surfaces_it() {
    let err = result_from_server_response(422, error_body("Validation failed")).unwrap_err();
    match err {
        GhubError::Api(m) => assert_eq!(m, "Validation failed"),
        _ => panic!("expected a provider error"),
    }
}

#[test]
fn error_without_message_embeds_raw_body() {
    let err = result_from_server_response(500, JsonValue::Obj(vec![])).unwrap_err();
    match err {
        GhubError::MalformedErrorBody(m) => {
            assert_eq!(m, "Could not read github error message. Response body {}");
            assert!(m.contains("{}"));
        }
        _ => panic!("expected a malformed-body error"),
    }
}

#[test]
fn error_with_non_string_message_is_malformed() {
    let body = JsonValue::Obj(vec![(
        String::from("errors"),
        JsonValue::Arr(vec![JsonValue::Obj(vec![(
            String::from("message"),
            JsonValue::Num(String::from("3")),
        )])]),
    )]);
    let err = result_from_server_response(400, body).unwrap_err();
    match err {
        GhubError::MalformedErrorBody(m) => {
            assert!(m.contains("{\"errors\":[{\"message\":3}]}"));
        }
        _ => panic!("expected a malformed-body error"),
    }
}

#[test]
fn error_with_empty_errors_array_is_malformed() {
    let body = JsonValue::Obj(vec![(String::from("errors"), JsonValue::Arr(vec![]))]);
    let err = result_from_server_response(502, body).unwrap_err();
    assert!(matches!(err, GhubError::MalformedErrorBody(_)));
}

#[test]
fn provider_error_message_reads_errors_0_message() {
    assert_eq!(
        provider_error_message(&error_body("boom")),
        Some(String::from("boom"))
    );
    assert_eq!(provider_error_message(&JsonValue::Null), None);
    assert_eq!(provider_error_message(&JsonValue::Obj(vec![])), None);
}

#[test]
fn error_messages_carry_their_text() {
    assert_eq!(
        GhubError::Api(String::from("boom")).message(),
        "boom"
    );
    assert_eq!(
        GhubError::Transport(String::from("reset")).message(),
        "reset"
    );
    assert_eq!(
        GhubError::Decode(String::from("bad json")).message(),
        "bad json"
    );
    assert_eq!(
        GhubError::Construction(String::from("no client")).message(),
        "no client"
    );
    assert_eq!(
        GhubError::MalformedErrorBody(String::from("raw")).message(),
        "raw"
    );
    assert_eq!(
        GhubError::UnexpectedStatus(404).message(),
        "unexpected response status 404"
    );
}
