use openai_responses::client::{read_reply, Client, ClientBuilder, CreateError, ReplyError, ServiceError};
use openai_responses::json::{find_field, DecodeError, JsonValue};
use openai_responses::request::{Input, Model, Request};

#[test]
fn builder_without_api_key_fails() {
    let err = Client::builder().build().unwrap_err();
    assert!(matches!(err, CreateError::ApiKeyNotFound));
}

#[test]
fn builder_rejects_invalid_header_values() {
    let result = Client::builder()
        .api_key("sk-test")
        .organization("org\nnewline")
        .build();
    assert!(matches!(result.unwrap_err(), CreateError::InvalidApiKey));
}

#[test]
fn builder_collects_all_headers_in_order() {
    let client = ClientBuilder::new()
        .api_key("sk-test")
        .organization("my-org")
        .project("my-proj")
        .build()
        .unwrap();
    let expected = vec![
        ("authorization".to_string(), "Bearer sk-test".to_string()),
        ("openai-organization".to_string(), "my-org".to_string()),
        ("openai-project".to_string(), "my-proj".to_string()),
    ];
    assert_eq!(client.headers(), &expected);
}

#[test]
fn new_client_sends_only_authorization() {
    let client = Client::new("sk-abc").unwrap();
    assert_eq!(client.headers().len(), 1);
    assert_eq!(client.headers()[0].1, "Bearer sk-abc");
}

#[test]
fn api_key_with_control_character_is_rejected() {
    assert_eq!(Client::new("sk-\u{7f}").unwrap_err(), CreateError::InvalidApiKey);
    assert_eq!(
        Client::builder().api_key("sk").project("p\r").build().unwrap_err(),
        CreateError::InvalidApiKey
    );
}

#[test]
fn tab_and_non_ascii_header_values_are_accepted() {
    assert!(Client::new("sk-\ttab").is_ok());
    assert!(Client::builder().api_key("sk").organization("caf\u{e9}").build().is_ok());
}

fn stream_flag(doc: &JsonValue) -> Option<&JsonValue> {
    match doc {
        JsonValue::Object(entries) => find_field(entries, "stream").map(|i| &entries[i].1),
        _ => None,
    }
}

fn has_field(doc: &JsonValue, key: &str) -> bool {
    match doc {
        JsonValue::Object(entries) => find_field(entries, key).is_some(),
        _ => false,
    }
}

#[test]
fn buffered_entry_point_sends_stream_false() {
    let client = Client::new("sk").unwrap();
    let mut request = Request::default();
    request.stream = Some(true);
    let body = client.create_body(request);
    assert_eq!(stream_flag(&body), Some(&JsonValue::Bool(false)));
}

#[test]
fn streaming_entry_point_sends_stream_true() {
    let client = Client::new("sk").unwrap();
    let mut request = Request::default();
    request.stream = Some(false);
    let body = client.stream_body(request);
    assert_eq!(stream_flag(&body), Some(&JsonValue::Bool(true)));
    let unset = client.stream_body(Request::default());
    assert_eq!(stream_flag(&unset), Some(&JsonValue::Bool(true)));
}

#[test]
fn request_leaves_out_unset_fields() {
    let request = Request {
        model: Model::from("o1-mini".to_string()),
        input: Input::from("hello".to_string()),
        instructions: Some("be brief".to_string()),
        ..Request::default()
    };
    let body = request.into_json();
    assert!(has_field(&body, "model"));
    assert!(has_field(&body, "input"));
    assert!(has_field(&body, "instructions"));
    assert!(!has_field(&body, "stream"));
    assert!(!has_field(&body, "temperature"));
    assert!(!has_field(&body, "tools"));
    match body {
        JsonValue::Object(entries) => {
            let i = find_field(&entries, "model").unwrap();
            assert_eq!(entries[i].1, JsonValue::Str("o1-mini".to_string()));
            assert_eq!(entries.len(), 3);
        }
        _ => panic!("a request encodes to an object"),
    }
}

#[test]
fn bad_request_reply_is_a_service_error_value() {
    let body = r#"{"error":{"message":"Invalid model","type":"invalid_request_error","param":"model","code":null}}"#;
    let reply = read_reply(400, body).unwrap();
    let err = reply.unwrap_err();
    assert_eq!(
        err,
        ServiceError {
            kind: Some("invalid_request_error".to_string()),
            message: "Invalid model".to_string(),
            param: Some("model".to_string()),
            code: None,
        }
    );
}

#[test]
fn other_error_statuses_are_failures() {
    let body = r#"{"error":{"message":"x"}}"#;
    assert_eq!(read_reply(500, body).unwrap_err(), ReplyError::Status(500));
    assert_eq!(read_reply(404, body).unwrap_err(), ReplyError::Status(404));
    assert_eq!(read_reply(401, "not json").unwrap_err(), ReplyError::Status(401));
}

#[test]
fn success_reply_gives_the_document() {
    let reply = read_reply(200, r#"{"id":"resp_1"}"#).unwrap().unwrap();
    assert_eq!(
        reply,
        JsonValue::Object(vec![("id".to_string(), JsonValue::Str("resp_1".to_string()))])
    );
    assert_eq!(read_reply(200, "{").unwrap_err(), ReplyError::Body(DecodeError::Syntax));
}

#[test]
fn bad_request_without_message_fails_to_decode() {
    let err = read_reply(400, r#"{"error":{"type":"x"}}"#).unwrap_err();
    assert_eq!(err, ReplyError::Body(DecodeError::MissingField("message")));
}

#[test]
fn redirect_and_informational_statuses_are_failures() {
    let body = r#"{"id":"resp_1"}"#;
    assert_eq!(read_reply(302, body).unwrap_err(), ReplyError::Status(302));
    assert_eq!(read_reply(101, body).unwrap_err(), ReplyError::Status(101));
    assert!(read_reply(204, body).is_ok());
}

#[test]
fn default_request_sets_no_optional_field() {
    let r = Request::default();
    assert_eq!(r.model, Model::GPT4o);
    assert!(matches!(&r.input, Input::Text(s) if s.is_empty()));
    assert!(r.included.is_none() && r.instructions.is_none() && r.max_output_tokens.is_none());
    assert!(r.metadata.is_none() && r.parallel_tool_calls.is_none() && r.previous_response_id.is_none());
    assert!(r.reasoning.is_none() && r.service_tier.is_none() && r.store.is_none() && r.stream.is_none());
    assert!(r.temperature.is_none() && r.text.is_none() && r.tool_choice.is_none() && r.tools.is_none());
    assert!(r.top_p.is_none() && r.truncation.is_none() && r.user.is_none());
    let body = r.into_json();
    match body {
        JsonValue::Object(entries) => assert_eq!(entries.len(), 2),
        _ => panic!("a request encodes to an object"),
    }
}

#[test]
fn buffered_body_keeps_every_caller_field() {
    let client = Client::new("sk").unwrap();
    let request = Request {
        model: Model::from("o3-mini".to_string()),
        input: Input::from("hi".to_string()),
        user: Some("u1".to_string()),
        store: Some(true),
        max_output_tokens: Some(64),
        metadata: Some(vec![("k".to_string(), "v".to_string())]),
        stream: Some(true),
        ..Request::default()
    };
    let body = client.create_body(request);
    let entries = match body {
        JsonValue::Object(entries) => entries,
        _ => panic!("a request encodes to an object"),
    };
    let get = |k: &str| find_field(&entries, k).map(|i| &entries[i].1);
    assert_eq!(get("model"), Some(&JsonValue::Str("o3-mini".to_string())));
    assert_eq!(get("input"), Some(&JsonValue::Str("hi".to_string())));
    assert_eq!(get("user"), Some(&JsonValue::Str("u1".to_string())));
    assert_eq!(get("store"), Some(&JsonValue::Bool(true)));
    assert_eq!(get("stream"), Some(&JsonValue::Bool(false)));
    assert_eq!(
        get("metadata"),
        Some(&JsonValue::Object(vec![("k".to_string(), JsonValue::Str("v".to_string()))]))
    );
    assert!(get("instructions").is_none());
    assert_eq!(entries.len(), 7);
}
