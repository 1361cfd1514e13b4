use openai_responses::event::Event;
use openai_responses::json::{DecodeError, JsonNumber, JsonValue};
use openai_responses::stream::{run_script, EventStream, Notice, StreamError, TransportFailure};

fn delta(i: u64, text: &str) -> String {
    format!(
        r#"{{"type":"response.output_text.delta","content_index":0,"delta":"{}","item_id":"msg_1","output_index":{}}}"#,
        text, i
    )
}

fn delta_event(i: u64, text: &str) -> Event {
    Event::OutputTextDelta {
        content_index: 0,
        delta: text.to_string(),
        item_id: "msg_1".to_string(),
        output_index: i,
    }
}

#[test]
fn three_messages_then_end_yield_three_events() {
    let notices = vec![
        Notice::Open,
        Notice::Message(delta(0, "a")),
        Notice::Message(delta(1, "b")),
        Notice::Message(delta(2, "c")),
        Notice::Ended,
        Notice::Message(delta(3, "after the end")),
    ];
    let out = run_script(notices);
    assert_eq!(out.len(), 3);
    assert_eq!(out[0], Ok(delta_event(0, "a")));
    assert_eq!(out[1], Ok(delta_event(1, "b")));
    assert_eq!(out[2], Ok(delta_event(2, "c")));
}

#[test]
fn malformed_message_between_two_valid_ones() {
    let notices = vec![
        Notice::Message(delta(0, "a")),
        Notice::Message("{not json".to_string()),
        Notice::Message(delta(1, "b")),
    ];
    let out = run_script(notices);
    assert_eq!(out.len(), 3);
    assert_eq!(out[0], Ok(delta_event(0, "a")));
    assert_eq!(out[1], Err(StreamError::Parsing(DecodeError::Syntax)));
    assert_eq!(out[2], Ok(delta_event(1, "b")));
}

#[test]
fn fatal_failure_ends_the_stream() {
    let failure = TransportFailure { message: "connection reset".to_string() };
    let notices = vec![
        Notice::Message(delta(0, "a")),
        Notice::Failed(failure.clone()),
        Notice::Message(delta(1, "b")),
        Notice::Ended,
    ];
    let out = run_script(notices);
    assert_eq!(out.len(), 2);
    assert_eq!(out[0], Ok(delta_event(0, "a")));
    assert_eq!(out[1], Err(StreamError::Stream(failure)));
}

#[test]
fn open_yields_nothing_and_stream_stays_open() {
    let mut stream = EventStream::new();
    assert_eq!(stream.on_notice(Notice::Open), None);
    assert!(!stream.ended());
    assert_eq!(stream.on_notice(Notice::Ended), None);
    assert!(stream.ended());
    assert_eq!(stream.on_notice(Notice::Message(delta(0, "x"))), None);
}

#[test]
fn unknown_event_type_is_a_parsing_error() {
    let out = run_script(vec![Notice::Message(r#"{"type":"response.unknown"}"#.to_string())]);
    match &out[0] {
        Err(StreamError::Parsing(DecodeError::UnknownVariant { found, .. })) => {
            assert_eq!(found, "response.unknown")
        }
        other => panic!("unexpected {:?}", other),
    }
}

#[test]
fn event_with_missing_field_is_a_parsing_error() {
    let out = run_script(vec![Notice::Message(
        r#"{"type":"response.output_item.added","item":{}}"#.to_string(),
    )]);
    assert_eq!(out, vec![Err(StreamError::Parsing(DecodeError::MissingField("output_index")))]);
}

#[test]
fn error_event_decodes_with_optional_fields() {
    let e = Event::from_json(r#"{"type":"error","code":null,"message":"boom"}"#).unwrap();
    assert_eq!(e, Event::Error { code: None, message: "boom".to_string(), param: None });
    let e = Event::from_json(r#"{"type":"error","code":"rate","message":"slow","param":"p"}"#).unwrap();
    assert_eq!(
        e,
        Event::Error {
            code: Some("rate".to_string()),
            message: "slow".to_string(),
            param: Some("p".to_string())
        }
    );
}

#[test]
fn response_and_item_payloads_are_carried() {
    let e = Event::from_json(r#"{"type":"response.created","response":{"id":"r1"}}"#).unwrap();
    assert_eq!(
        e,
        Event::ResponseCreated {
            response: JsonValue::Object(vec![("id".to_string(), JsonValue::Str("r1".to_string()))])
        }
    );
    let e = Event::from_json(r#"{"type":"response.output_item.done","item":[1],"output_index":4}"#).unwrap();
    assert_eq!(
        e,
        Event::OutputItemDone {
            item: JsonValue::Array(vec![JsonValue::Number(JsonNumber::Unsigned(1))]),
            output_index: 4
        }
    );
}

#[test]
fn search_phase_events_decode() {
    let e = Event::from_json(r#"{"type":"response.web_search_call.searching","item_id":"ws","output_index":2}"#)
        .unwrap();
    assert_eq!(e, Event::WebSearchCallSearching { item_id: "ws".to_string(), output_index: 2 });
    let e = Event::from_json(r#"{"type":"response.file_search_call.completed","item_id":"fs","output_index":1}"#)
        .unwrap();
    assert_eq!(e, Event::FileSearchCallCompleted { item_id: "fs".to_string(), output_index: 1 });
}

#[test]
fn negative_index_is_a_type_error() {
    let err = Event::from_json(
        r#"{"type":"response.function_call_arguments.done","arguments":"{}","item_id":"c","output_index":-1}"#,
    )
    .unwrap_err();
    assert_eq!(err, DecodeError::InvalidType { expected: "u64" });
}

fn sample_events() -> Vec<Event> {
    vec![
        delta_event(7, "hi"),
        Event::Error { code: None, message: "m".to_string(), param: Some("p".to_string()) },
        Event::ResponseCompleted { response: JsonValue::Null },
        Event::OutputTextAnnotationAdded {
            annotation: JsonValue::Bool(true),
            annotation_index: 1,
            content_index: 2,
            item_id: "i".to_string(),
            output_index: 3,
        },
        Event::FunctionCallArgumentsDelta { delta: "{".to_string(), item_id: "c".to_string(), output_index: 0 },
        Event::RefusalDone { content_index: 1, item_id: "x".to_string(), output_index: 2, refusal: "no".to_string() },
        Event::WebSearchCallInitiated { item_id: "w".to_string(), output_index: 5 },
    ]
}

#[test]
fn events_round_trip_through_their_wire_form() {
    for (e, expected) in sample_events().into_iter().zip(sample_events()) {
        assert_eq!(Event::decode(e.into_json()).unwrap(), expected);
    }
}
