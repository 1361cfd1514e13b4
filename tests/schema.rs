use openai_responses::config::{
    ReasoningConfig, ReasoningEffort, ServiceTier, SummaryConfig, TextConfig, TextFormat, Truncation,
};
use openai_responses::json::{find_field, DecodeError, JsonNumber, JsonValue};
use openai_responses::request::{ImageDetail, Include, MessageStatus, Model, Role, ROLE_WORDS};
use openai_responses::tools::{
    ComparisonFilter, ComparisonFilterType, ComparisonFilterValue, CompoundFilter, CompoundFilterType,
    Environment, FileSearchFilters, RankingOptions, SearchContextSize, Tool, UserLocation, UserLocationType,
};

#[test]
fn word_enums_round_trip() {
    for r in [Role::User, Role::System, Role::Assistant, Role::Developer] {
        assert_eq!(Role::from_wire(r.as_str()), Some(r));
    }
    for t in [Truncation::Auto, Truncation::Disabled] {
        assert_eq!(Truncation::from_wire(t.as_str()), Some(t));
    }
    for c in [ComparisonFilterType::Equals, ComparisonFilterType::LessThanOrEqual] {
        assert_eq!(ComparisonFilterType::from_wire(c.as_str()), Some(c));
    }
    assert_eq!(Include::FileSearchResults.as_str(), "file_search_call.results");
    assert_eq!(Include::from_wire("message.input_image.image_url"), Some(Include::InputImageURLs));
    assert_eq!(MessageStatus::from_wire("in_progress"), Some(MessageStatus::InProgress));
    assert_eq!(ImageDetail::from_wire("huge"), None);
    assert_eq!(Environment::Browser.as_str(), "browser");
    assert_eq!(ServiceTier::from_wire("flex"), Some(ServiceTier::Flex));
    assert_eq!(ReasoningEffort::High.as_str(), "high");
    assert_eq!(SummaryConfig::from_wire("concise"), Some(SummaryConfig::Concise));
}

#[test]
fn defaults_match_the_schema() {
    assert_eq!(Truncation::default(), Truncation::Disabled);
    assert_eq!(ServiceTier::default(), ServiceTier::Auto);
    assert_eq!(ImageDetail::default(), ImageDetail::Auto);
    assert_eq!(SearchContextSize::default(), SearchContextSize::Medium);
    assert_eq!(UserLocationType::default(), UserLocationType::Approximate);
}

#[test]
fn model_names_map_both_ways() {
    assert_eq!(Model::from("gpt-4o".to_string()), Model::GPT4o);
    assert_eq!(Model::from("gpt-3.5-turbo".to_string()), Model::GPT3_5Turbo);
    assert_eq!(Model::from("my-model".to_string()), Model::Other("my-model".to_string()));
    assert_eq!(Model::GPT4_5Preview.encode(), JsonValue::Str("gpt-4.5-preview".to_string()));
    assert_eq!(Model::Other("x".to_string()).encode(), JsonValue::Str("x".to_string()));
}

#[test]
fn reasoning_config_leaves_out_unset_fields() {
    let c = ReasoningConfig { effort: Some(ReasoningEffort::Low), generate_summary: None };
    assert_eq!(
        c.into_json(),
        JsonValue::Object(vec![("effort".to_string(), JsonValue::Str("low".to_string()))])
    );
}

#[test]
fn compound_filter_needs_filters() {
    assert!(CompoundFilter::new(vec![], CompoundFilterType::And).is_none());
    let single = FileSearchFilters::Single(ComparisonFilter {
        key: "lang".to_string(),
        kind: ComparisonFilterType::Equals,
        value: ComparisonFilterValue::String("en".to_string()),
    });
    let compound = CompoundFilter::new(vec![single], CompoundFilterType::Or).unwrap();
    let doc = FileSearchFilters::Compound(compound).into_json();
    match doc {
        JsonValue::Object(entries) => {
            let i = find_field(&entries, "type").unwrap();
            assert_eq!(entries[i].1, JsonValue::Str("or".to_string()));
            let j = find_field(&entries, "filters").unwrap();
            match &entries[j].1 {
                JsonValue::Array(items) => assert_eq!(items.len(), 1),
                _ => panic!("filters is an array"),
            }
        }
        _ => panic!("a filter encodes to an object"),
    }
}

#[test]
fn web_search_tool_is_tagged() {
    let tool = Tool::WebSearch {
        search_context_size: SearchContextSize::Low,
        user_location: Some(UserLocation { city: Some("Paris".to_string()), ..UserLocation::default() }),
    };
    match tool.into_json() {
        JsonValue::Object(entries) => {
            let i = find_field(&entries, "type").unwrap();
            assert_eq!(entries[i].1, JsonValue::Str("web_search_preview".to_string()));
            let j = find_field(&entries, "user_location").unwrap();
            match &entries[j].1 {
                JsonValue::Object(loc) => {
                    assert!(find_field(loc, "country").is_none());
                    let k = find_field(loc, "type").unwrap();
                    assert_eq!(loc[k].1, JsonValue::Str("approximate".to_string()));
                }
                _ => panic!("a location encodes to an object"),
            }
        }
        _ => panic!("a tool encodes to an object"),
    }
}

#[test]
fn word_enum_decoding_names_the_unknown_word() {
    assert_eq!(Role::decode(JsonValue::Str("assistant".to_string())), Ok(Role::Assistant));
    assert_eq!(
        Role::decode(JsonValue::Str("robot".to_string())),
        Err(DecodeError::UnknownVariant { found: "robot".to_string(), expected: ROLE_WORDS })
    );
    assert_eq!(Role::decode(JsonValue::Null), Err(DecodeError::InvalidType { expected: "a string" }));
    assert_eq!(Truncation::decode(Truncation::Auto.encode()), Ok(Truncation::Auto));
}

#[test]
fn config_and_filters_round_trip() {
    let rc = || ReasoningConfig { effort: Some(ReasoningEffort::Medium), generate_summary: Some(SummaryConfig::Detailed) };
    let back = ReasoningConfig::decode(rc().into_json()).unwrap();
    assert_eq!(back.effort, Some(ReasoningEffort::Medium));
    assert_eq!(back.generate_summary, Some(SummaryConfig::Detailed));

    let tc = TextConfig {
        format: TextFormat::JsonSchema {
            schema: JsonValue::Object(vec![]),
            description: "d".to_string(),
            name: "n".to_string(),
            strict: Some(true),
        },
    };
    match TextConfig::decode(tc.into_json()).unwrap().format {
        TextFormat::JsonSchema { schema, description, name, strict } => {
            assert_eq!(schema, JsonValue::Object(vec![]));
            assert_eq!(description, "d");
            assert_eq!(name, "n");
            assert_eq!(strict, Some(true));
        }
        other => panic!("unexpected {:?}", other),
    }

    let loc = UserLocation { timezone: Some("Europe/Paris".to_string()), ..UserLocation::default() };
    let back = UserLocation::decode(loc.into_json()).unwrap();
    assert_eq!(back.timezone.as_deref(), Some("Europe/Paris"));
    assert_eq!(back.city, None);

    let cf = ComparisonFilter {
        key: "year".to_string(),
        kind: ComparisonFilterType::GreaterThan,
        value: ComparisonFilterValue::Number(JsonNumber::Unsigned(2020)),
    };
    let back = ComparisonFilter::decode(cf.into_json()).unwrap();
    assert_eq!(back.key, "year");
    assert_eq!(back.kind, ComparisonFilterType::GreaterThan);
    assert!(matches!(back.value, ComparisonFilterValue::Number(JsonNumber::Unsigned(2020))));

    let ro = RankingOptions { ranker: "auto".to_string(), score_threshold: JsonNumber::Decimal("0.5".to_string()) };
    let back = RankingOptions::decode(ro.into_json()).unwrap();
    assert_eq!(back.score_threshold, JsonNumber::Decimal("0.5".to_string()));
}
