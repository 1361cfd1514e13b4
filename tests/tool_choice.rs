use openai_responses::json::{DecodeError, JsonValue};
use openai_responses::tool_choice::{ToolChoice, CHOICE_TAGS, CHOICE_WORDS};

fn s(t: &str) -> JsonValue {
    JsonValue::Str(t.to_string())
}

#[test]
fn bare_words_decode() {
    assert_eq!(ToolChoice::from_json("\"auto\"").unwrap(), ToolChoice::Auto);
    assert_eq!(ToolChoice::from_json("\"none\"").unwrap(), ToolChoice::NoTool);
    assert_eq!(ToolChoice::from_json("\"required\"").unwrap(), ToolChoice::Required);
}

#[test]
fn function_object_decodes() {
    let choice = ToolChoice::from_json(r#"{"type":"function","name":"f"}"#).unwrap();
    assert_eq!(choice, ToolChoice::Function("f".to_string()));
}

#[test]
fn tool_objects_decode() {
    assert_eq!(ToolChoice::from_json(r#"{"type":"file_search"}"#).unwrap(), ToolChoice::FileSearch);
    assert_eq!(
        ToolChoice::from_json(r#"{"type":"web_search_preview"}"#).unwrap(),
        ToolChoice::WebSearchPreview
    );
    assert_eq!(
        ToolChoice::from_json(r#"{"type":"computer_use_preview"}"#).unwrap(),
        ToolChoice::ComputerUsePreview
    );
}

#[test]
fn every_choice_round_trips() {
    let all = vec![
        ToolChoice::NoTool,
        ToolChoice::Auto,
        ToolChoice::Required,
        ToolChoice::FileSearch,
        ToolChoice::WebSearchPreview,
        ToolChoice::ComputerUsePreview,
        ToolChoice::Function("lookup".to_string()),
    ];
    for choice in all {
        let back = ToolChoice::decode(choice.encode()).unwrap();
        assert_eq!(back, choice);
    }
}

#[test]
fn encodings_have_the_wire_shape() {
    assert_eq!(ToolChoice::Auto.encode(), s("auto"));
    assert_eq!(
        ToolChoice::FileSearch.encode(),
        JsonValue::Object(vec![("type".to_string(), s("file_search"))])
    );
    assert_eq!(
        ToolChoice::Function("f".to_string()).encode(),
        JsonValue::Object(vec![("name".to_string(), s("f")), ("type".to_string(), s("function"))])
    );
}

#[test]
fn unknown_object_tag_is_an_unknown_variant() {
    let err = ToolChoice::from_json(r#"{"type":"bogus"}"#).unwrap_err();
    assert_eq!(
        err,
        DecodeError::UnknownVariant { found: "bogus".to_string(), expected: CHOICE_TAGS }
    );
}

#[test]
fn unknown_word_is_an_unknown_variant() {
    let err = ToolChoice::from_json("\"sometimes\"").unwrap_err();
    assert_eq!(
        err,
        DecodeError::UnknownVariant { found: "sometimes".to_string(), expected: CHOICE_WORDS }
    );
}

#[test]
fn function_without_name_is_a_missing_field() {
    let err = ToolChoice::from_json(r#"{"type":"function"}"#).unwrap_err();
    assert_eq!(err, DecodeError::MissingField("name"));
}

#[test]
fn object_without_type_is_a_missing_field() {
    let err = ToolChoice::from_json(r#"{"name":"f"}"#).unwrap_err();
    assert_eq!(err, DecodeError::MissingField("type"));
}

#[test]
fn other_shapes_are_type_errors() {
    assert_eq!(ToolChoice::from_json("3").unwrap_err(), DecodeError::InvalidType { expected: "string or struct" });
    assert!(matches!(ToolChoice::from_json("[]").unwrap_err(), DecodeError::InvalidType { .. }));
    assert!(matches!(ToolChoice::from_json("null").unwrap_err(), DecodeError::InvalidType { .. }));
    assert!(matches!(
        ToolChoice::from_json(r#"{"type":"function","name":3}"#).unwrap_err(),
        DecodeError::InvalidType { .. }
    ));
    assert_eq!(ToolChoice::from_json("{").unwrap_err(), DecodeError::Syntax);
}
