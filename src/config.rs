//! Configuration of a response: truncation, text format, reasoning and
//! service tier.

use crate::json::{
    field_of, find_field, is_text, push_field, same_text, take_fields, take_text, text_value, want_text,
    DecodeError, JsonValue,
};
use vstd::prelude::*;

verus! {

/// The truncation strategy to use for the model response.
#[derive(Debug, Clone, Copy, PartialEq, Eq, Structural)]
pub enum Truncation {
    /// Drop input items in the middle of the conversation to fit the context window.
    Auto,
    /// Fail the request when the context window would be exceeded.
    Disabled,
}

impl Default for Truncation {
    fn default() -> (r: Truncation)
        ensures
            r == Truncation::Disabled,
    {
        Truncation::Disabled
    }
}

impl Truncation {
    /// The name of this value on the wire.
    pub open spec fn wire(self) -> Seq<char> {
        match self {
            Truncation::Auto => "auto"@,
            Truncation::Disabled => "disabled"@,
        }
    }

    /// The value that a wire name names, if any.
    pub open spec fn named(s: Seq<char>) -> Option<Truncation> {
        if s == "auto"@ {
            Some(Truncation::Auto)
        } else if s == "disabled"@ {
            Some(Truncation::Disabled)
        } else {
            None
        }
    }

    /// The name of this value on the wire.
    pub fn as_str(&self) -> (r: &'static str)
        ensures
            r@ == self.wire(),
    {
        match self {
            Truncation::Auto => "auto",
            Truncation::Disabled => "disabled",
        }
    }

    /// The wire form of this value: its name as a string.
    pub fn encode(&self) -> (r: JsonValue)
        ensures
            is_text(r, self.wire()),
            Truncation::decoding(r) == Ok::<Truncation, DecodeError>(*self),
    {
        proof {
            lemma_truncation_round_trip(*self);
        }
        text_value(self.as_str())
    }

    /// The value that a wire name names, if any.
    pub fn from_wire(s: &str) -> (r: Option<Truncation>)
        ensures
            r == Truncation::named(s@),
    {
        if same_text(s, "auto") {
            Some(Truncation::Auto)
        } else if same_text(s, "disabled") {
            Some(Truncation::Disabled)
        } else {
            None
        }
    }
}

/// Reading back the wire name of a `Truncation` gives the same value.
pub proof fn lemma_truncation_round_trip(x: Truncation)
    ensures
        Truncation::named(x.wire()) == Some(x),
{
    reveal_strlit("auto");
    reveal_strlit("disabled");
    assert("auto"@.len() != "disabled"@.len());
}

/// Constrains effort on reasoning for reasoning models.
#[derive(Debug, Clone, Copy, PartialEq, Eq, Structural)]
pub enum ReasoningEffort {
    Low,
    High,
    Medium,
}

impl ReasoningEffort {
    /// The name of this value on the wire.
    pub open spec fn wire(self) -> Seq<char> {
        match self {
            ReasoningEffort::Low => "low"@,
            ReasoningEffort::High => "high"@,
            ReasoningEffort::Medium => "medium"@,
        }
    }

    /// The value that a wire name names, if any.
    pub open spec fn named(s: Seq<char>) -> Option<ReasoningEffort> {
        if s == "low"@ {
            Some(ReasoningEffort::Low)
        } else if s == "high"@ {
            Some(ReasoningEffort::High)
        } else if s == "medium"@ {
            Some(ReasoningEffort::Medium)
        } else {
            None
        }
    }

    /// The name of this value on the wire.
    pub fn as_str(&self) -> (r: &'static str)
        ensures
            r@ == self.wire(),
    {
        match self {
            ReasoningEffort::Low => "low",
            ReasoningEffort::High => "high",
            ReasoningEffort::Medium => "medium",
        }
    }

    /// The wire form of this value: its name as a string.
    pub fn encode(&self) -> (r: JsonValue)
        ensures
            is_text(r, self.wire()),
            ReasoningEffort::decoding(r) == Ok::<ReasoningEffort, DecodeError>(*self),
    {
        proof {
            lemma_reasoning_effort_round_trip(*self);
        }
        text_value(self.as_str())
    }

    /// The value that a wire name names, if any.
    pub fn from_wire(s: &str) -> (r: Option<ReasoningEffort>)
        ensures
            r == ReasoningEffort::named(s@),
    {
        if same_text(s, "low") {
            Some(ReasoningEffort::Low)
        } else if same_text(s, "high") {
            Some(ReasoningEffort::High)
        } else if same_text(s, "medium") {
            Some(ReasoningEffort::Medium)
        } else {
            None
        }
    }
}

/// Reading back the wire name of a `ReasoningEffort` gives the same value.
pub proof fn lemma_reasoning_effort_round_trip(x: ReasoningEffort)
    ensures
        ReasoningEffort::named(x.wire()) == Some(x),
{
    reveal_strlit("low");
    reveal_strlit("high");
    reveal_strlit("medium");
    assert("low"@.len() != "high"@.len());
    assert("low"@.len() != "medium"@.len());
    assert("high"@.len() != "medium"@.len());
}

/// How detailed a summary of the model's reasoning should be.
#[derive(Debug, Clone, Copy, PartialEq, Eq, Structural)]
pub enum SummaryConfig {
    Concise,
    Detailed,
}

impl SummaryConfig {
    /// The name of this value on the wire.
    pub open spec fn wire(self) -> Seq<char> {
        match self {
            SummaryConfig::Concise => "concise"@,
            SummaryConfig::Detailed => "detailed"@,
        }
    }

    /// The value that a wire name names, if any.
    pub open spec fn named(s: Seq<char>) -> Option<SummaryConfig> {
        if s == "concise"@ {
            Some(SummaryConfig::Concise)
        } else if s == "detailed"@ {
            Some(SummaryConfig::Detailed)
        } else {
            None
        }
    }

    /// The name of this value on the wire.
    pub fn as_str(&self) -> (r: &'static str)
        ensures
            r@ == self.wire(),
    {
        match self {
            SummaryConfig::Concise => "concise",
            SummaryConfig::Detailed => "detailed",
        }
    }

    /// The wire form of this value: its name as a string.
    pub fn encode(&self) -> (r: JsonValue)
        ensures
            is_text(r, self.wire()),
            SummaryConfig::decoding(r) == Ok::<SummaryConfig, DecodeError>(*self),
    {
        proof {
            lemma_summary_config_round_trip(*self);
        }
        text_value(self.as_str())
    }

    /// The value that a wire name names, if any.
    pub fn from_wire(s: &str) -> (r: Option<SummaryConfig>)
        ensures
            r == SummaryConfig::named(s@),
    {
        if same_text(s, "concise") {
            Some(SummaryConfig::Concise)
        } else if same_text(s, "detailed") {
            Some(SummaryConfig::Detailed)
        } else {
            None
        }
    }
}

/// Reading back the wire name of a `SummaryConfig` gives the same value.
pub proof fn lemma_summary_config_round_trip(x: SummaryConfig)
    ensures
        SummaryConfig::named(x.wire()) == Some(x),
{
    reveal_strlit("concise");
    reveal_strlit("detailed");
    assert("concise"@.len() != "detailed"@.len());
}

/// The latency tier to use for processing the request.
#[derive(Debug, Clone, Copy, PartialEq, Eq, Structural)]
pub enum ServiceTier {
    Auto,
    Flex,
    Default,
}

impl Default for ServiceTier {
    fn default() -> (r: ServiceTier)
        ensures
            r == ServiceTier::Auto,
    {
        ServiceTier::Auto
    }
}

impl ServiceTier {
    /// The name of this value on the wire.
    pub open spec fn wire(self) -> Seq<char> {
        match self {
            ServiceTier::Auto => "auto"@,
            ServiceTier::Flex => "flex"@,
            ServiceTier::Default => "default"@,
        }
    }

    /// The value that a wire name names, if any.
    pub open spec fn named(s: Seq<char>) -> Option<ServiceTier> {
        if s == "auto"@ {
            Some(ServiceTier::Auto)
        } else if s == "flex"@ {
            Some(ServiceTier::Flex)
        } else if s == "default"@ {
            Some(ServiceTier::Default)
        } else {
            None
        }
    }

    /// The name of this value on the wire.
    pub fn as_str(&self) -> (r: &'static str)
        ensures
            r@ == self.wire(),
    {
        match self {
            ServiceTier::Auto => "auto",
            ServiceTier::Flex => "flex",
            ServiceTier::Default => "default",
        }
    }

    /// The wire form of this value: its name as a string.
    pub fn encode(&self) -> (r: JsonValue)
        ensures
            is_text(r, self.wire()),
            ServiceTier::decoding(r) == Ok::<ServiceTier, DecodeError>(*self),
    {
        proof {
            lemma_service_tier_round_trip(*self);
        }
        text_value(self.as_str())
    }

    /// The value that a wire name names, if any.
    pub fn from_wire(s: &str) -> (r: Option<ServiceTier>)
        ensures
            r == ServiceTier::named(s@),
    {
        if same_text(s, "auto") {
            Some(ServiceTier::Auto)
        } else if same_text(s, "flex") {
            Some(ServiceTier::Flex)
        } else if same_text(s, "default") {
            Some(ServiceTier::Default)
        } else {
            None
        }
    }
}

/// Reading back the wire name of a `ServiceTier` gives the same value.
pub proof fn lemma_service_tier_round_trip(x: ServiceTier)
    ensures
        ServiceTier::named(x.wire()) == Some(x),
{
    reveal_strlit("auto");
    reveal_strlit("flex");
    reveal_strlit("default");
    assert("auto"@[0] != "flex"@[0]);
    assert("auto"@.len() != "default"@.len());
    assert("flex"@.len() != "default"@.len());
}

/// Configuration options for reasoning models.
#[derive(Debug, Clone, Default)]
pub struct ReasoningConfig {
    /// How much effort the model spends on reasoning.
    pub effort: Option<ReasoningEffort>,
    /// A summary of the reasoning performed by the model.
    pub generate_summary: Option<SummaryConfig>,
}

impl ReasoningConfig {
    /// The wire form: an object with the fields that are set, and no others.
    pub fn into_json(self) -> (r: JsonValue)
        ensures
            r is Object,
            (field_of(r->Object_0@, "effort"@) is Some) == (self.effort is Some),
            (field_of(r->Object_0@, "generate_summary"@) is Some) == (self.generate_summary is Some),
            ReasoningConfig::decoding(r) == Ok::<ReasoningConfig, DecodeError>(self),
    {
        let mut entries: Vec<(String, JsonValue)> = Vec::new();
        if let Some(e) = self.effort {
            push_field(&mut entries, "effort", e.encode());
        }
        proof {
            reveal_strlit("effort");
            reveal_strlit("generate_summary");
            assert("effort"@.len() != "generate_summary"@.len());
        }
        if let Some(s) = self.generate_summary {
            push_field(&mut entries, "generate_summary", s.encode());
        }
        JsonValue::Object(entries)
    }
}

/// The format that the model must output.
#[derive(Debug)]
pub enum TextFormat {
    /// Plain text.
    Text,
    /// Structured output that follows a JSON schema.
    JsonSchema {
        /// The schema, as a JSON Schema document.
        schema: JsonValue,
        /// What the format is for.
        description: String,
        /// The name of the format.
        name: String,
        /// Whether the schema is enforced strictly.
        strict: Option<bool>,
    },
    /// Any JSON object.
    JsonObject,
}

impl Default for TextFormat {
    fn default() -> (r: TextFormat)
        ensures
            r is Text,
    {
        TextFormat::Text
    }
}

impl TextFormat {
    /// The wire tag of this format.
    pub open spec fn tag(self) -> Seq<char> {
        match self {
            TextFormat::Text => "text"@,
            TextFormat::JsonSchema { .. } => "json_schema"@,
            TextFormat::JsonObject => "json_object"@,
        }
    }

    /// The wire form: an object tagged by `"type"`.
    pub fn into_json(self) -> (r: JsonValue)
        ensures
            r is Object,
            field_of(r->Object_0@, "type"@) is Some,
            is_text(field_of(r->Object_0@, "type"@)->Some_0, self.tag()),
            TextFormat::decoding(r) == Ok::<TextFormat, DecodeError>(self),
    {
        proof {
            lemma_format_words_differ();
        }
        let mut entries: Vec<(String, JsonValue)> = Vec::new();
        let tag = match self {
            TextFormat::Text => "text",
            TextFormat::JsonSchema { schema, description, name, strict } => {
                push_field(&mut entries, "schema", schema);
                push_field(&mut entries, "description", JsonValue::Str(description));
                push_field(&mut entries, "name", JsonValue::Str(name));
                if let Some(s) = strict {
                    push_field(&mut entries, "strict", JsonValue::Bool(s));
                }
                "json_schema"
            },
            TextFormat::JsonObject => "json_object",
        };
        push_field(&mut entries, "type", text_value(tag));
        JsonValue::Object(entries)
    }
}

/// Configuration of a text response: plain text or structured JSON data.
#[derive(Debug, Default)]
pub struct TextConfig {
    /// The format that the model must output.
    pub format: TextFormat,
}

impl TextConfig {
    /// The wire form: an object holding the format.
    pub fn into_json(self) -> (r: JsonValue)
        ensures
            r is Object,
            field_of(r->Object_0@, "format"@) is Some,
            TextConfig::decoding(r) == Ok::<TextConfig, DecodeError>(self),
    {
        let mut entries: Vec<(String, JsonValue)> = Vec::new();
        push_field(&mut entries, "format", self.format.into_json());
        JsonValue::Object(entries)
    }
}

/// The words that a `Truncation` may be.
pub const TRUNCATION_WORDS: &'static str = "auto, disabled";

impl Truncation {
    /// The value that a document holds, or why it holds none.
    pub open spec fn decoding(v: JsonValue) -> Result<Truncation, DecodeError> {
        match v {
            JsonValue::Str(s) => match Truncation::named(s@) {
                Some(x) => Ok(x),
                None => Err(DecodeError::UnknownVariant { found: s, expected: TRUNCATION_WORDS }),
            },
            _ => Err(DecodeError::InvalidType { expected: "a string" }),
        }
    }

    /// Decodes a value from its wire name.
    pub fn decode(v: JsonValue) -> (r: Result<Truncation, DecodeError>)
        ensures
            r == Truncation::decoding(v),
    {
        match v {
            JsonValue::Str(s) => match Truncation::from_wire(s.as_str()) {
                Some(x) => Ok(x),
                None => Err(DecodeError::UnknownVariant { found: s, expected: TRUNCATION_WORDS }),
            },
            _ => Err(DecodeError::InvalidType { expected: "a string" }),
        }
    }
}

/// The words that a `ReasoningEffort` may be.
pub const REASONING_EFFORT_WORDS: &'static str = "low, high, medium";

impl ReasoningEffort {
    /// The value that a document holds, or why it holds none.
    pub open spec fn decoding(v: JsonValue) -> Result<ReasoningEffort, DecodeError> {
        match v {
            JsonValue::Str(s) => match ReasoningEffort::named(s@) {
                Some(x) => Ok(x),
                None => Err(DecodeError::UnknownVariant { found: s, expected: REASONING_EFFORT_WORDS }),
            },
            _ => Err(DecodeError::InvalidType { expected: "a string" }),
        }
    }

    /// Decodes a value from its wire name.
    pub fn decode(v: JsonValue) -> (r: Result<ReasoningEffort, DecodeError>)
        ensures
            r == ReasoningEffort::decoding(v),
    {
        match v {
            JsonValue::Str(s) => match ReasoningEffort::from_wire(s.as_str()) {
                Some(x) => Ok(x),
                None => Err(DecodeError::UnknownVariant { found: s, expected: REASONING_EFFORT_WORDS }),
            },
            _ => Err(DecodeError::InvalidType { expected: "a string" }),
        }
    }
}

/// The words that a `SummaryConfig` may be.
pub const SUMMARY_CONFIG_WORDS: &'static str = "concise, detailed";

impl SummaryConfig {
    /// The value that a document holds, or why it holds none.
    pub open spec fn decoding(v: JsonValue) -> Result<SummaryConfig, DecodeError> {
        match v {
            JsonValue::Str(s) => match SummaryConfig::named(s@) {
                Some(x) => Ok(x),
                None => Err(DecodeError::UnknownVariant { found: s, expected: SUMMARY_CONFIG_WORDS }),
            },
            _ => Err(DecodeError::InvalidType { expected: "a string" }),
        }
    }

    /// Decodes a value from its wire name.
    pub fn decode(v: JsonValue) -> (r: Result<SummaryConfig, DecodeError>)
        ensures
            r == SummaryConfig::decoding(v),
    {
        match v {
            JsonValue::Str(s) => match SummaryConfig::from_wire(s.as_str()) {
                Some(x) => Ok(x),
                None => Err(DecodeError::UnknownVariant { found: s, expected: SUMMARY_CONFIG_WORDS }),
            },
            _ => Err(DecodeError::InvalidType { expected: "a string" }),
        }
    }
}

/// The words that a `ServiceTier` may be.
pub const SERVICE_TIER_WORDS: &'static str = "auto, flex, default";

impl ServiceTier {
    /// The value that a document holds, or why it holds none.
    pub open spec fn decoding(v: JsonValue) -> Result<ServiceTier, DecodeError> {
        match v {
            JsonValue::Str(s) => match ServiceTier::named(s@) {
                Some(x) => Ok(x),
                None => Err(DecodeError::UnknownVariant { found: s, expected: SERVICE_TIER_WORDS }),
            },
            _ => Err(DecodeError::InvalidType { expected: "a string" }),
        }
    }

    /// Decodes a value from its wire name.
    pub fn decode(v: JsonValue) -> (r: Result<ServiceTier, DecodeError>)
        ensures
            r == ServiceTier::decoding(v),
    {
        match v {
            JsonValue::Str(s) => match ServiceTier::from_wire(s.as_str()) {
                Some(x) => Ok(x),
                None => Err(DecodeError::UnknownVariant { found: s, expected: SERVICE_TIER_WORDS }),
            },
            _ => Err(DecodeError::InvalidType { expected: "a string" }),
        }
    }
}
/// The `ReasoningEffort` under an optional field: absent and `null` both give `None`.
pub open spec fn want_effort(f: Option<JsonValue>) -> Result<Option<ReasoningEffort>, DecodeError> {
    match f {
        None => Ok(None),
        Some(JsonValue::Null) => Ok(None),
        Some(v) => match ReasoningEffort::decoding(v) {
            Ok(x) => Ok(Some(x)),
            Err(e) => Err(e),
        },
    }
}

/// The `ReasoningEffort` under an optional field: absent and `null` both give `None`.
fn take_effort(f: Option<JsonValue>) -> (r: Result<Option<ReasoningEffort>, DecodeError>)
    ensures
        r == want_effort(f),
{
    match f {
        None => Ok(None),
        Some(JsonValue::Null) => Ok(None),
        Some(v) => match ReasoningEffort::decode(v) {
            Ok(x) => Ok(Some(x)),
            Err(e) => Err(e),
        },
    }
}

/// The `SummaryConfig` under an optional field: absent and `null` both give `None`.
pub open spec fn want_summary(f: Option<JsonValue>) -> Result<Option<SummaryConfig>, DecodeError> {
    match f {
        None => Ok(None),
        Some(JsonValue::Null) => Ok(None),
        Some(v) => match SummaryConfig::decoding(v) {
            Ok(x) => Ok(Some(x)),
            Err(e) => Err(e),
        },
    }
}

/// The `SummaryConfig` under an optional field: absent and `null` both give `None`.
fn take_summary(f: Option<JsonValue>) -> (r: Result<Option<SummaryConfig>, DecodeError>)
    ensures
        r == want_summary(f),
{
    match f {
        None => Ok(None),
        Some(JsonValue::Null) => Ok(None),
        Some(v) => match SummaryConfig::decode(v) {
            Ok(x) => Ok(Some(x)),
            Err(e) => Err(e),
        },
    }
}

impl ReasoningConfig {
    /// The reasoning configuration that a document holds, or why it holds none.
    pub open spec fn decoding(v: JsonValue) -> Result<ReasoningConfig, DecodeError> {
        match v {
            JsonValue::Object(entries) => match want_effort(field_of(entries@, "effort"@)) {
                Err(e) => Err(e),
                Ok(effort) => match want_summary(field_of(entries@, "generate_summary"@)) {
                    Err(e) => Err(e),
                    Ok(generate_summary) => Ok(ReasoningConfig { effort, generate_summary }),
                },
            },
            _ => Err(DecodeError::InvalidType { expected: "an object" }),
        }
    }

    /// Decodes a reasoning configuration.
    pub fn decode(v: JsonValue) -> (r: Result<ReasoningConfig, DecodeError>)
        ensures
            r == ReasoningConfig::decoding(v),
    {
        let entries = match v {
            JsonValue::Object(entries) => entries,
            _ => return Err(DecodeError::InvalidType { expected: "an object" }),
        };
        proof {
            reveal_strlit("effort");
            reveal_strlit("generate_summary");
            assert("effort"@.len() != "generate_summary"@.len());
        }
        let mut keys: Vec<&str> = Vec::new();
        keys.push("effort");
        keys.push("generate_summary");
        let mut found = take_fields(entries, &keys);
        let summary_found = found.pop().unwrap();
        let effort_found = found.pop().unwrap();
        let effort = match take_effort(effort_found) {
            Ok(x) => x,
            Err(e) => return Err(e),
        };
        let generate_summary = match take_summary(summary_found) {
            Ok(x) => x,
            Err(e) => return Err(e),
        };
        Ok(ReasoningConfig { effort, generate_summary })
    }
}

/// The boolean under an optional field: absent and `null` both give `None`.
pub open spec fn want_optional_bool(f: Option<JsonValue>) -> Result<Option<bool>, DecodeError> {
    match f {
        None => Ok(None),
        Some(JsonValue::Null) => Ok(None),
        Some(JsonValue::Bool(b)) => Ok(Some(b)),
        Some(_) => Err(DecodeError::InvalidType { expected: "a boolean" }),
    }
}

/// The boolean under an optional field: absent and `null` both give `None`.
fn take_optional_bool(f: Option<JsonValue>) -> (r: Result<Option<bool>, DecodeError>)
    ensures
        r == want_optional_bool(f),
{
    match f {
        None => Ok(None),
        Some(JsonValue::Null) => Ok(None),
        Some(JsonValue::Bool(b)) => Ok(Some(b)),
        Some(_) => Err(DecodeError::InvalidType { expected: "a boolean" }),
    }
}

/// The tags that a text format may carry.
pub const FORMAT_TAGS: &'static str = "text, json_schema, json_object";

/// The field names and tags of a text format are pairwise different.
proof fn lemma_format_words_differ()
    ensures
        "schema"@ != "description"@,
        "schema"@ != "name"@,
        "schema"@ != "strict"@,
        "schema"@ != "type"@,
        "description"@ != "name"@,
        "description"@ != "strict"@,
        "description"@ != "type"@,
        "name"@ != "strict"@,
        "name"@ != "type"@,
        "strict"@ != "type"@,
        "text"@ != "json_schema"@,
        "text"@ != "json_object"@,
        "json_schema"@ != "json_object"@,
{
    reveal_strlit("schema");
    reveal_strlit("description");
    reveal_strlit("name");
    reveal_strlit("strict");
    reveal_strlit("type");
    reveal_strlit("text");
    reveal_strlit("json_schema");
    reveal_strlit("json_object");
    assert("schema"@.len() != "description"@.len());
    assert("schema"@.len() != "name"@.len());
    assert("schema"@[1] != "strict"@[1]);
    assert("schema"@.len() != "type"@.len());
    assert("description"@.len() != "name"@.len());
    assert("description"@.len() != "strict"@.len());
    assert("description"@.len() != "type"@.len());
    assert("name"@.len() != "strict"@.len());
    assert("name"@[0] != "type"@[0]);
    assert("strict"@.len() != "type"@.len());
    assert("text"@.len() != "json_schema"@.len());
    assert("text"@.len() != "json_object"@.len());
    assert("json_schema"@[5] != "json_object"@[5]);
}

impl TextFormat {
    /// The text format that a document holds, or why it holds none.
    pub open spec fn decoding(v: JsonValue) -> Result<TextFormat, DecodeError> {
        match v {
            JsonValue::Object(e) => match field_of(e@, "type"@) {
                None => Err(DecodeError::MissingField("type")),
                Some(JsonValue::Str(tag)) => if tag@ == "text"@ {
                    Ok(TextFormat::Text)
                } else if tag@ == "json_object"@ {
                    Ok(TextFormat::JsonObject)
                } else if tag@ == "json_schema"@ {
                    match field_of(e@, "schema"@) {
                        None => Err(DecodeError::MissingField("schema")),
                        Some(schema) => match want_text(field_of(e@, "description"@), "description") {
                            Err(x) => Err(x),
                            Ok(description) => match want_text(field_of(e@, "name"@), "name") {
                                Err(x) => Err(x),
                                Ok(name) => match want_optional_bool(field_of(e@, "strict"@)) {
                                    Err(x) => Err(x),
                                    Ok(strict) => Ok(TextFormat::JsonSchema { schema, description, name, strict }),
                                },
                            },
                        },
                    }
                } else {
                    Err(DecodeError::UnknownVariant { found: tag, expected: FORMAT_TAGS })
                },
                Some(_) => Err(DecodeError::InvalidType { expected: "a string" }),
            },
            _ => Err(DecodeError::InvalidType { expected: "an object" }),
        }
    }

    /// Decodes a text format.
    pub fn decode(v: JsonValue) -> (r: Result<TextFormat, DecodeError>)
        ensures
            r == TextFormat::decoding(v),
    {
        proof {
            lemma_format_words_differ();
        }
        let entries = match v {
            JsonValue::Object(entries) => entries,
            _ => return Err(DecodeError::InvalidType { expected: "an object" }),
        };
        let at = match find_field(&entries, "type") {
            Some(i) => i,
            None => return Err(DecodeError::MissingField("type")),
        };
        let tag = match &entries[at].1 {
            JsonValue::Str(t) => t.as_str(),
            _ => return Err(DecodeError::InvalidType { expected: "a string" }),
        };
        if same_text(tag, "text") {
            Ok(TextFormat::Text)
        } else if same_text(tag, "json_object") {
            Ok(TextFormat::JsonObject)
        } else if same_text(tag, "json_schema") {
            let mut keys: Vec<&str> = Vec::new();
            keys.push("schema");
            keys.push("description");
            keys.push("name");
            keys.push("strict");
            let mut found = take_fields(entries, &keys);
            let strict_found = found.pop().unwrap();
            let name_found = found.pop().unwrap();
            let description_found = found.pop().unwrap();
            let schema = match found.pop().unwrap() {
                None => return Err(DecodeError::MissingField("schema")),
                Some(s) => s,
            };
            let description = match take_text(description_found, "description") {
                Ok(x) => x,
                Err(e) => return Err(e),
            };
            let name = match take_text(name_found, "name") {
                Ok(x) => x,
                Err(e) => return Err(e),
            };
            let strict = match take_optional_bool(strict_found) {
                Ok(x) => x,
                Err(e) => return Err(e),
            };
            Ok(TextFormat::JsonSchema { schema, description, name, strict })
        } else {
            let mut keys: Vec<&str> = Vec::new();
            keys.push("type");
            let mut found = take_fields(entries, &keys);
            match found.pop().unwrap() {
                Some(JsonValue::Str(t)) => Err(DecodeError::UnknownVariant { found: t, expected: FORMAT_TAGS }),
                _ => Err(DecodeError::MissingField("type")),
            }
        }
    }
}

impl TextConfig {
    /// The text configuration that a document holds, or why it holds none.
    pub open spec fn decoding(v: JsonValue) -> Result<TextConfig, DecodeError> {
        match v {
            JsonValue::Object(e) => match field_of(e@, "format"@) {
                None => Err(DecodeError::MissingField("format")),
                Some(f) => match TextFormat::decoding(f) {
                    Ok(format) => Ok(TextConfig { format }),
                    Err(x) => Err(x),
                },
            },
            _ => Err(DecodeError::InvalidType { expected: "an object" }),
        }
    }

    /// Decodes a text configuration.
    pub fn decode(v: JsonValue) -> (r: Result<TextConfig, DecodeError>)
        ensures
            r == TextConfig::decoding(v),
    {
        let entries = match v {
            JsonValue::Object(entries) => entries,
            _ => return Err(DecodeError::InvalidType { expected: "an object" }),
        };
        let mut keys: Vec<&str> = Vec::new();
        keys.push("format");
        let mut found = take_fields(entries, &keys);
        match found.pop().unwrap() {
            None => Err(DecodeError::MissingField("format")),
            Some(f) => match TextFormat::decode(f) {
                Ok(format) => Ok(TextConfig { format }),
                Err(x) => Err(x),
            },
        }
    }
}

} // verus!
