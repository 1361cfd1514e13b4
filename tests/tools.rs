use openai_responses::json::{DecodeError, JsonNumber, JsonValue};
use openai_responses::tools::{
    ComparisonFilter, ComparisonFilterType, ComparisonFilterValue, CompoundFilter, CompoundFilterType,
    Environment, FileSearchFilters, RankingOptions, SearchContextSize, Tool, TOOL_TAGS,
};

/// Moves a serde_json document into the library's tree.
fn doc(v: serde_json::Value) -> JsonValue {
    match v {
        serde_json::Value::Null => JsonValue::Null,
        serde_json::Value::Bool(b) => JsonValue::Bool(b),
        serde_json::Value::Number(n) => JsonValue::Number(match (n.as_u64(), n.as_i64()) {
            (Some(u), _) => JsonNumber::Unsigned(u),
            (None, Some(i)) => JsonNumber::Negative(i),
            (None, None) => JsonNumber::Decimal(n.to_string()),
        }),
        serde_json::Value::String(s) => JsonValue::Str(s),
        serde_json::Value::Array(a) => JsonValue::Array(a.into_iter().map(doc).collect()),
        serde_json::Value::Object(m) => JsonValue::Object(m.into_iter().map(|(k, x)| (k, doc(x))).collect()),
    }
}

fn json(text: &str) -> JsonValue {
    doc(serde_json::from_str(text).unwrap())
}

#[test]
fn function_tool_decodes() {
    let v = json(r#"{"type":"function","name":"lookup","parameters":{"type":"object"},"strict":true}"#);
    match Tool::decode(v).unwrap() {
        Tool::Function { name, parameters, strict, description } => {
            assert_eq!(name, "lookup");
            assert!(matches!(parameters, JsonValue::Object(_)));
            assert!(strict);
            assert_eq!(description, None);
        }
        other => panic!("unexpected {:?}", other),
    }
}

#[test]
fn computer_use_tool_decodes() {
    let v = json(
        r#"{"type":"computer_use_preview","display_height":768,"display_width":1024,"environment":"browser"}"#,
    );
    match Tool::decode(v).unwrap() {
        Tool::ComputerUse { display_height, display_width, environment } => {
            assert_eq!(display_height, 768);
            assert_eq!(display_width, 1024);
            assert_eq!(environment, Environment::Browser);
        }
        other => panic!("unexpected {:?}", other),
    }
}

#[test]
fn unknown_tool_tag_is_an_unknown_variant() {
    let err = Tool::decode(json(r#"{"type":"code_interpreter"}"#)).unwrap_err();
    assert_eq!(
        err,
        DecodeError::UnknownVariant { found: "code_interpreter".to_string(), expected: TOOL_TAGS }
    );
}

#[test]
fn file_search_tool_round_trips() {
    let make = || Tool::FileSearch {
        vector_store_ids: vec!["vs_1".to_string(), "vs_2".to_string()],
        filters: FileSearchFilters::Compound(
            CompoundFilter::new(
                vec![
                    FileSearchFilters::Single(ComparisonFilter {
                        key: "lang".to_string(),
                        kind: ComparisonFilterType::Equals,
                        value: ComparisonFilterValue::String("en".to_string()),
                    }),
                    FileSearchFilters::Single(ComparisonFilter {
                        key: "draft".to_string(),
                        kind: ComparisonFilterType::NotEqual,
                        value: ComparisonFilterValue::Boolean(true),
                    }),
                ],
                CompoundFilterType::And,
            )
            .unwrap(),
        ),
        max_num_results: 20,
        ranking_options: RankingOptions {
            ranker: "auto".to_string(),
            score_threshold: JsonNumber::Decimal("0.25".to_string()),
        },
    };
    let back = Tool::decode(make().into_json()).unwrap();
    match back {
        Tool::FileSearch { vector_store_ids, filters, max_num_results, ranking_options } => {
            assert_eq!(vector_store_ids, vec!["vs_1".to_string(), "vs_2".to_string()]);
            assert_eq!(max_num_results, 20);
            assert_eq!(ranking_options.ranker, "auto");
            match filters {
                FileSearchFilters::Compound(c) => {
                    assert_eq!(c.kind, CompoundFilterType::And);
                    assert_eq!(c.filters.len(), 2);
                    match &c.filters[1] {
                        FileSearchFilters::Single(f) => {
                            assert_eq!(f.key, "draft");
                            assert!(matches!(f.value, ComparisonFilterValue::Boolean(true)));
                        }
                        other => panic!("unexpected {:?}", other),
                    }
                }
                other => panic!("unexpected {:?}", other),
            }
        }
        other => panic!("unexpected {:?}", other),
    }
}

#[test]
fn web_search_tool_round_trips() {
    let tool = Tool::WebSearch { search_context_size: SearchContextSize::High, user_location: None };
    match Tool::decode(tool.into_json()).unwrap() {
        Tool::WebSearch { search_context_size, user_location } => {
            assert_eq!(search_context_size, SearchContextSize::High);
            assert!(user_location.is_none());
        }
        other => panic!("unexpected {:?}", other),
    }
}

#[test]
fn filter_that_is_neither_shape_fails() {
    assert!(FileSearchFilters::decode(json(r#"{"key":"a","type":"eq"}"#)).is_err());
    assert!(FileSearchFilters::decode(json(r#"{"filters":[{"key":"a","type":"zz","value":1}],"type":"or"}"#)).is_err());
    assert!(FileSearchFilters::decode(json(r#"{"filters":[],"type":"or"}"#)).is_ok());
}

#[test]
fn too_many_results_is_a_type_error() {
    let v = json(
        r#"{"type":"file_search","vector_store_ids":[],"filters":{"key":"a","type":"eq","value":1},"max_num_results":300,"ranking_options":{"ranker":"auto","score_threshold":0.5}}"#,
    );
    assert_eq!(Tool::decode(v).unwrap_err(), DecodeError::InvalidType { expected: "u8" });
}
