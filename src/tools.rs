//! The tools a model may call, and the filters of file search.

use crate::json::{
    field_of, find_field, is_text, optional_text, push_field, same_text, take_fields, take_optional_text, take_text,
    text_value, want_count, want_optional_text, want_text, take_count, DecodeError, JsonNumber, JsonValue,
};
use vstd::prelude::*;

verus! {

/// The kind of location approximation.
#[derive(Debug, Clone, Copy, PartialEq, Eq, Structural)]
pub enum UserLocationType {
    Approximate,
}

impl Default for UserLocationType {
    fn default() -> (r: UserLocationType)
        ensures
            r == UserLocationType::Approximate,
    {
        UserLocationType::Approximate
    }
}

impl UserLocationType {
    /// The name of this value on the wire.
    pub open spec fn wire(self) -> Seq<char> {
        match self {
            UserLocationType::Approximate => "approximate"@,
        }
    }

    /// The value that a wire name names, if any.
    pub open spec fn named(s: Seq<char>) -> Option<UserLocationType> {
        if s == "approximate"@ {
            Some(UserLocationType::Approximate)
        } else {
            None
        }
    }

    /// The name of this value on the wire.
    pub fn as_str(&self) -> (r: &'static str)
        ensures
            r@ == self.wire(),
    {
        match self {
            UserLocationType::Approximate => "approximate",
        }
    }

    /// The wire form of this value: its name as a string.
    pub fn encode(&self) -> (r: JsonValue)
        ensures
            is_text(r, self.wire()),
            UserLocationType::decoding(r) == Ok::<UserLocationType, DecodeError>(*self),
    {
        proof {
            lemma_user_location_type_round_trip(*self);
        }
        text_value(self.as_str())
    }

    /// The value that a wire name names, if any.
    pub fn from_wire(s: &str) -> (r: Option<UserLocationType>)
        ensures
            r == UserLocationType::named(s@),
    {
        if same_text(s, "approximate") {
            Some(UserLocationType::Approximate)
        } else {
            None
        }
    }
}

/// Reading back the wire name of a `UserLocationType` gives the same value.
pub proof fn lemma_user_location_type_round_trip(x: UserLocationType)
    ensures
        UserLocationType::named(x.wire()) == Some(x),
{
    reveal_strlit("approximate");
}

/// How much context window space a web search may use.
#[derive(Debug, Clone, Copy, PartialEq, Eq, Structural)]
pub enum SearchContextSize {
    Low,
    High,
    Medium,
}

impl Default for SearchContextSize {
    fn default() -> (r: SearchContextSize)
        ensures
            r == SearchContextSize::Medium,
    {
        SearchContextSize::Medium
    }
}

impl SearchContextSize {
    /// The name of this value on the wire.
    pub open spec fn wire(self) -> Seq<char> {
        match self {
            SearchContextSize::Low => "low"@,
            SearchContextSize::High => "high"@,
            SearchContextSize::Medium => "medium"@,
        }
    }

    /// The value that a wire name names, if any.
    pub open spec fn named(s: Seq<char>) -> Option<SearchContextSize> {
        if s == "low"@ {
            Some(SearchContextSize::Low)
        } else if s == "high"@ {
            Some(SearchContextSize::High)
        } else if s == "medium"@ {
            Some(SearchContextSize::Medium)
        } else {
            None
        }
    }

    /// The name of this value on the wire.
    pub fn as_str(&self) -> (r: &'static str)
        ensures
            r@ == self.wire(),
    {
        match self {
            SearchContextSize::Low => "low",
            SearchContextSize::High => "high",
            SearchContextSize::Medium => "medium",
        }
    }

    /// The wire form of this value: its name as a string.
    pub fn encode(&self) -> (r: JsonValue)
        ensures
            is_text(r, self.wire()),
            SearchContextSize::decoding(r) == Ok::<SearchContextSize, DecodeError>(*self),
    {
        proof {
            lemma_search_context_size_round_trip(*self);
        }
        text_value(self.as_str())
    }

    /// The value that a wire name names, if any.
    pub fn from_wire(s: &str) -> (r: Option<SearchContextSize>)
        ensures
            r == SearchContextSize::named(s@),
    {
        if same_text(s, "low") {
            Some(SearchContextSize::Low)
        } else if same_text(s, "high") {
            Some(SearchContextSize::High)
        } else if same_text(s, "medium") {
            Some(SearchContextSize::Medium)
        } else {
            None
        }
    }
}

/// Reading back the wire name of a `SearchContextSize` gives the same value.
pub proof fn lemma_search_context_size_round_trip(x: SearchContextSize)
    ensures
        SearchContextSize::named(x.wire()) == Some(x),
{
    reveal_strlit("low");
    reveal_strlit("high");
    reveal_strlit("medium");
    assert("low"@.len() != "high"@.len());
    assert("low"@.len() != "medium"@.len());
    assert("high"@.len() != "medium"@.len());
}

/// The kind of computer environment to control.
#[non_exhaustive]
#[derive(Debug, Clone, Copy, PartialEq, Eq, Structural)]
pub enum Environment {
    Mac,
    Ubuntu,
    Browser,
    Windows,
}

impl Environment {
    /// The name of this value on the wire.
    pub open spec fn wire(self) -> Seq<char> {
        match self {
            Environment::Mac => "mac"@,
            Environment::Ubuntu => "ubuntu"@,
            Environment::Browser => "browser"@,
            Environment::Windows => "windows"@,
        }
    }

    /// The value that a wire name names, if any.
    pub open spec fn named(s: Seq<char>) -> Option<Environment> {
        if s == "mac"@ {
            Some(Environment::Mac)
        } else if s == "ubuntu"@ {
            Some(Environment::Ubuntu)
        } else if s == "browser"@ {
            Some(Environment::Browser)
        } else if s == "windows"@ {
            Some(Environment::Windows)
        } else {
            None
        }
    }

    /// The name of this value on the wire.
    pub fn as_str(&self) -> (r: &'static str)
        ensures
            r@ == self.wire(),
    {
        match self {
            Environment::Mac => "mac",
            Environment::Ubuntu => "ubuntu",
            Environment::Browser => "browser",
            Environment::Windows => "windows",
        }
    }

    /// The wire form of this value: its name as a string.
    pub fn encode(&self) -> (r: JsonValue)
        ensures
            is_text(r, self.wire()),
            Environment::decoding(r) == Ok::<Environment, DecodeError>(*self),
    {
        proof {
            lemma_environment_round_trip(*self);
        }
        text_value(self.as_str())
    }

    /// The value that a wire name names, if any.
    pub fn from_wire(s: &str) -> (r: Option<Environment>)
        ensures
            r == Environment::named(s@),
    {
        if same_text(s, "mac") {
            Some(Environment::Mac)
        } else if same_text(s, "ubuntu") {
            Some(Environment::Ubuntu)
        } else if same_text(s, "browser") {
            Some(Environment::Browser)
        } else if same_text(s, "windows") {
            Some(Environment::Windows)
        } else {
            None
        }
    }
}

/// Reading back the wire name of a `Environment` gives the same value.
pub proof fn lemma_environment_round_trip(x: Environment)
    ensures
        Environment::named(x.wire()) == Some(x),
{
    reveal_strlit("mac");
    reveal_strlit("ubuntu");
    reveal_strlit("browser");
    reveal_strlit("windows");
    assert("mac"@.len() != "ubuntu"@.len());
    assert("mac"@.len() != "browser"@.len());
    assert("mac"@.len() != "windows"@.len());
    assert("ubuntu"@.len() != "browser"@.len());
    assert("ubuntu"@.len() != "windows"@.len());
    assert("browser"@[0] != "windows"@[0]);
}

/// The comparison that a filter makes.
#[derive(Debug, Clone, Copy, PartialEq, Eq, Structural)]
pub enum ComparisonFilterType {
    Equals,
    NotEqual,
    GreaterThan,
    GreaterThanOrEqual,
    LessThan,
    LessThanOrEqual,
}

impl ComparisonFilterType {
    /// The name of this value on the wire.
    pub open spec fn wire(self) -> Seq<char> {
        match self {
            ComparisonFilterType::Equals => "eq"@,
            ComparisonFilterType::NotEqual => "ne"@,
            ComparisonFilterType::GreaterThan => "gt"@,
            ComparisonFilterType::GreaterThanOrEqual => "gte"@,
            ComparisonFilterType::LessThan => "lt"@,
            ComparisonFilterType::LessThanOrEqual => "lte"@,
        }
    }

    /// The value that a wire name names, if any.
    pub open spec fn named(s: Seq<char>) -> Option<ComparisonFilterType> {
        if s == "eq"@ {
            Some(ComparisonFilterType::Equals)
        } else if s == "ne"@ {
            Some(ComparisonFilterType::NotEqual)
        } else if s == "gt"@ {
            Some(ComparisonFilterType::GreaterThan)
        } else if s == "gte"@ {
            Some(ComparisonFilterType::GreaterThanOrEqual)
        } else if s == "lt"@ {
            Some(ComparisonFilterType::LessThan)
        } else if s == "lte"@ {
            Some(ComparisonFilterType::LessThanOrEqual)
        } else {
            None
        }
    }

    /// The name of this value on the wire.
    pub fn as_str(&self) -> (r: &'static str)
        ensures
            r@ == self.wire(),
    {
        match self {
            ComparisonFilterType::Equals => "eq",
            ComparisonFilterType::NotEqual => "ne",
            ComparisonFilterType::GreaterThan => "gt",
            ComparisonFilterType::GreaterThanOrEqual => "gte",
            ComparisonFilterType::LessThan => "lt",
            ComparisonFilterType::LessThanOrEqual => "lte",
        }
    }

    /// The wire form of this value: its name as a string.
    pub fn encode(&self) -> (r: JsonValue)
        ensures
            is_text(r, self.wire()),
            ComparisonFilterType::decoding(r) == Ok::<ComparisonFilterType, DecodeError>(*self),
    {
        proof {
            lemma_comparison_filter_type_round_trip(*self);
        }
        text_value(self.as_str())
    }

    /// The value that a wire name names, if any.
    pub fn from_wire(s: &str) -> (r: Option<ComparisonFilterType>)
        ensures
            r == ComparisonFilterType::named(s@),
    {
        if same_text(s, "eq") {
            Some(ComparisonFilterType::Equals)
        } else if same_text(s, "ne") {
            Some(ComparisonFilterType::NotEqual)
        } else if same_text(s, "gt") {
            Some(ComparisonFilterType::GreaterThan)
        } else if same_text(s, "gte") {
            Some(ComparisonFilterType::GreaterThanOrEqual)
        } else if same_text(s, "lt") {
            Some(ComparisonFilterType::LessThan)
        } else if same_text(s, "lte") {
            Some(ComparisonFilterType::LessThanOrEqual)
        } else {
            None
        }
    }
}

/// Reading back the wire name of a `ComparisonFilterType` gives the same value.
pub proof fn lemma_comparison_filter_type_round_trip(x: ComparisonFilterType)
    ensures
        ComparisonFilterType::named(x.wire()) == Some(x),
{
    reveal_strlit("eq");
    reveal_strlit("ne");
    reveal_strlit("gt");
    reveal_strlit("gte");
    reveal_strlit("lt");
    reveal_strlit("lte");
    assert("eq"@[0] != "ne"@[0]);
    assert("eq"@[0] != "gt"@[0]);
    assert("eq"@.len() != "gte"@.len());
    assert("eq"@[0] != "lt"@[0]);
    assert("eq"@.len() != "lte"@.len());
    assert("ne"@[0] != "gt"@[0]);
    assert("ne"@.len() != "gte"@.len());
    assert("ne"@[0] != "lt"@[0]);
    assert("ne"@.len() != "lte"@.len());
    assert("gt"@.len() != "gte"@.len());
    assert("gt"@[0] != "lt"@[0]);
    assert("gt"@.len() != "lte"@.len());
    assert("gte"@.len() != "lt"@.len());
    assert("gte"@[0] != "lte"@[0]);
    assert("lt"@.len() != "lte"@.len());
}

/// How a compound filter combines its filters.
#[derive(Debug, Clone, Copy, PartialEq, Eq, Structural)]
pub enum CompoundFilterType {
    And,
    Or,
}

impl CompoundFilterType {
    /// The name of this value on the wire.
    pub open spec fn wire(self) -> Seq<char> {
        match self {
            CompoundFilterType::And => "and"@,
            CompoundFilterType::Or => "or"@,
        }
    }

    /// The value that a wire name names, if any.
    pub open spec fn named(s: Seq<char>) -> Option<CompoundFilterType> {
        if s == "and"@ {
            Some(CompoundFilterType::And)
        } else if s == "or"@ {
            Some(CompoundFilterType::Or)
        } else {
            None
        }
    }

    /// The name of this value on the wire.
    pub fn as_str(&self) -> (r: &'static str)
        ensures
            r@ == self.wire(),
    {
        match self {
            CompoundFilterType::And => "and",
            CompoundFilterType::Or => "or",
        }
    }

    /// The wire form of this value: its name as a string.
    pub fn encode(&self) -> (r: JsonValue)
        ensures
            is_text(r, self.wire()),
            CompoundFilterType::decoding(r) == Ok::<CompoundFilterType, DecodeError>(*self),
    {
        proof {
            lemma_compound_filter_type_round_trip(*self);
        }
        text_value(self.as_str())
    }

    /// The value that a wire name names, if any.
    pub fn from_wire(s: &str) -> (r: Option<CompoundFilterType>)
        ensures
            r == CompoundFilterType::named(s@),
    {
        if same_text(s, "and") {
            Some(CompoundFilterType::And)
        } else if same_text(s, "or") {
            Some(CompoundFilterType::Or)
        } else {
            None
        }
    }
}

/// Reading back the wire name of a `CompoundFilterType` gives the same value.
pub proof fn lemma_compound_filter_type_round_trip(x: CompoundFilterType)
    ensures
        CompoundFilterType::named(x.wire()) == Some(x),
{
    reveal_strlit("and");
    reveal_strlit("or");
    assert("and"@.len() != "or"@.len());
}

/// Approximate location parameters for a web search.
#[derive(Debug, Clone, Default)]
pub struct UserLocation {
    /// The kind of location approximation (`"type"` on the wire).
    pub kind: UserLocationType,
    /// Free text for the user's city.
    pub city: Option<String>,
    /// The two-letter ISO country code of the user.
    pub country: Option<String>,
    /// Free text for the user's region.
    pub region: Option<String>,
    /// The IANA time zone of the user.
    pub timezone: Option<String>,
}

/// Appends `key` holding `s`, where `s` is set.
fn push_optional_text(entries: &mut Vec<(String, JsonValue)>, key: &str, s: Option<String>)
    ensures
        forall|k: Seq<char>|
            #[trigger] field_of(final(entries)@, k) == if k == key@ && s is Some {
                optional_text(s)
            } else {
                field_of(old(entries)@, k)
            },
{
    if let Some(s) = s {
        push_field(entries, key, JsonValue::Str(s));
    }
}

impl UserLocation {
    /// The wire form: an object with the fields that are set, and no others.
    pub fn into_json(self) -> (r: JsonValue)
        ensures
            r is Object,
            is_text(field_of(r->Object_0@, "type"@)->Some_0, self.kind.wire()),
            field_of(r->Object_0@, "city"@) == optional_text(self.city),
            field_of(r->Object_0@, "country"@) == optional_text(self.country),
            field_of(r->Object_0@, "region"@) == optional_text(self.region),
            field_of(r->Object_0@, "timezone"@) == optional_text(self.timezone),
            UserLocation::decoding(r) == Ok::<UserLocation, DecodeError>(self),
    {
        proof {
            lemma_location_keys_differ();
        }
        let mut entries: Vec<(String, JsonValue)> = Vec::new();
        push_field(&mut entries, "type", self.kind.encode());
        push_optional_text(&mut entries, "city", self.city);
        push_optional_text(&mut entries, "country", self.country);
        push_optional_text(&mut entries, "region", self.region);
        push_optional_text(&mut entries, "timezone", self.timezone);
        JsonValue::Object(entries)
    }
}

/// The field names of a location are pairwise different.
proof fn lemma_location_keys_differ()
    ensures
        "type"@ != "city"@,
        "type"@ != "country"@,
        "type"@ != "region"@,
        "type"@ != "timezone"@,
        "city"@ != "country"@,
        "city"@ != "region"@,
        "city"@ != "timezone"@,
        "country"@ != "region"@,
        "country"@ != "timezone"@,
        "region"@ != "timezone"@,
{
    reveal_strlit("type");
    reveal_strlit("city");
    reveal_strlit("country");
    reveal_strlit("region");
    reveal_strlit("timezone");
    assert("type"@[0] != "city"@[0]);
    assert("type"@[0] != "country"@[0]);
    assert("type"@[0] != "region"@[0]);
    assert("type"@[1] != "timezone"@[1]);
    assert("city"@[1] != "country"@[1]);
    assert("city"@[0] != "region"@[0]);
    assert("city"@[0] != "timezone"@[0]);
    assert("country"@[0] != "region"@[0]);
    assert("country"@[0] != "timezone"@[0]);
    assert("region"@[0] != "timezone"@[0]);
}

/// The value that a comparison filter compares against.
#[derive(Debug, Clone)]
pub enum ComparisonFilterValue {
    Number(JsonNumber),
    Boolean(bool),
    String(String),
}

impl ComparisonFilterValue {
    /// The wire form: the bare number, boolean or string.
    pub fn into_json(self) -> (r: JsonValue)
        ensures
            ComparisonFilterValue::decoding(r) == Ok::<ComparisonFilterValue, DecodeError>(self),
            r == match self {
                ComparisonFilterValue::Number(n) => JsonValue::Number(n),
                ComparisonFilterValue::Boolean(b) => JsonValue::Bool(b),
                ComparisonFilterValue::String(s) => JsonValue::Str(s),
            },
    {
        match self {
            ComparisonFilterValue::Number(n) => JsonValue::Number(n),
            ComparisonFilterValue::Boolean(b) => JsonValue::Bool(b),
            ComparisonFilterValue::String(s) => JsonValue::Str(s),
        }
    }
}

/// A filter that compares the attribute `key` with `value`.
#[derive(Debug, Clone)]
pub struct ComparisonFilter {
    /// The attribute to compare.
    pub key: String,
    /// The comparison (`"type"` on the wire).
    pub kind: ComparisonFilterType,
    /// The value to compare with.
    pub value: ComparisonFilterValue,
}

impl ComparisonFilter {
    /// The wire form: an object with `key`, `type` and `value`.
    pub fn into_json(self) -> (r: JsonValue)
        ensures
            r is Object,
            is_text(field_of(r->Object_0@, "type"@)->Some_0, self.kind.wire()),
            ComparisonFilter::decoding(r) == Ok::<ComparisonFilter, DecodeError>(self),
    {
        proof {
            lemma_comparison_keys_differ();
        }
        let mut entries: Vec<(String, JsonValue)> = Vec::new();
        push_field(&mut entries, "key", JsonValue::Str(self.key));
        push_field(&mut entries, "value", self.value.into_json());
        push_field(&mut entries, "type", self.kind.encode());
        JsonValue::Object(entries)
    }
}

/// A filter on file attributes: one comparison, or several combined.
#[derive(Debug)]
pub enum FileSearchFilters {
    /// One comparison.
    Single(ComparisonFilter),
    /// Several filters combined with and or or.
    Compound(CompoundFilter),
}

/// Several filters combined with and or or.
#[derive(Debug)]
pub struct CompoundFilter {
    /// The filters to combine; never empty when made by `new`.
    pub filters: Vec<FileSearchFilters>,
    /// How they combine (`"type"` on the wire).
    pub kind: CompoundFilterType,
}

impl CompoundFilter {
    /// A compound filter over `filters`, or `None` where there are none: a
    /// compound of nothing has no meaning.
    pub fn new(filters: Vec<FileSearchFilters>, kind: CompoundFilterType) -> (r: Option<CompoundFilter>)
        ensures
            r is Some <==> filters@.len() > 0,
            r is Some ==> r->Some_0.filters == filters && r->Some_0.kind == kind,
    {
        if filters.len() == 0 {
            None
        } else {
            Some(CompoundFilter { filters, kind })
        }
    }
}

impl FileSearchFilters {
    /// The wire form: the comparison's object, or an object holding the list
    /// of filters and how they combine. Decoding it gives back this filter.
    pub fn into_json(self) -> (r: JsonValue)
        ensures
            r is Object,
            self.decoded_from(r),
        decreases self,
    {
        let ghost whole_filter = self;
        match self {
            FileSearchFilters::Single(c) => c.into_json(),
            FileSearchFilters::Compound(c) => {
                assert(whole_filter is Compound && whole_filter->Compound_0 == c);
                let ghost whole = c.filters;
                let kind = c.kind;
                let mut rest = c.filters;
                let mut items: Vec<JsonValue> = Vec::new();
                while rest.len() > 0
                    invariant
                        rest@ == whole@.subrange(whole@.len() - rest@.len(), whole@.len() as int),
                        rest@.len() <= whole@.len(),
                        whole_filter is Compound,
                        whole_filter == self,
                        whole == whole_filter->Compound_0.filters,
                        items@.len() + rest@.len() == whole@.len(),
                        forall|i: int| 0 <= i < items@.len() ==> (#[trigger] whole@[i]).decoded_from(items@[i]),
                    decreases rest@.len(),
                {
                    let ghost at = whole@.len() - rest@.len();
                    let f = rest.remove(0);
                    proof {
                        assert(f == whole@[at]);
                        assert(decreases_to!(whole_filter => whole_filter->Compound_0));
                        assert(decreases_to!(whole_filter->Compound_0 => whole_filter->Compound_0.filters));
                        assert(decreases_to!(whole => whole@)) by {
                            vstd::std_specs::vec::axiom_vec_decreases_to_view(whole);
                        }
                        assert(decreases_to!(whole@ => whole@[at]));
                        assert(decreases_to!(whole_filter => f));
                    }
                    items.push(f.into_json());
                }
                proof {
                    lemma_comparison_keys_differ();
                    reveal_strlit("filters");
                    reveal_strlit("type");
                    reveal_strlit("key");
                    assert("filters"@.len() != "type"@.len());
                    assert("filters"@.len() != "key"@.len());
                    lemma_compound_filter_type_round_trip(kind);
                }
                let ghost list = items;
                let mut entries: Vec<(String, JsonValue)> = Vec::new();
                push_field(&mut entries, "filters", JsonValue::Array(items));
                push_field(&mut entries, "type", kind.encode());
                assert(field_of(entries@, "filters"@) == Some(JsonValue::Array(list)));
                JsonValue::Object(entries)
            },
        }
    }
}

/// Ranking options for file search.
#[derive(Debug, Clone)]
pub struct RankingOptions {
    /// The ranker to use.
    pub ranker: String,
    /// The score threshold, a number between 0 and 1.
    pub score_threshold: JsonNumber,
}

impl RankingOptions {
    /// The wire form: an object with `ranker` and `score_threshold`.
    pub fn into_json(self) -> (r: JsonValue)
        ensures
            r is Object,
            RankingOptions::decoding(r) == Ok::<RankingOptions, DecodeError>(self),
    {
        proof {
            reveal_strlit("ranker");
            reveal_strlit("score_threshold");
            assert("ranker"@.len() != "score_threshold"@.len());
        }
        let mut entries: Vec<(String, JsonValue)> = Vec::new();
        push_field(&mut entries, "ranker", JsonValue::Str(self.ranker));
        push_field(&mut entries, "score_threshold", JsonValue::Number(self.score_threshold));
        JsonValue::Object(entries)
    }
}

/// A tool the model may call while generating a response: a function of the
/// caller's own code, or one of the built-in tools.
#[derive(Debug)]
pub enum Tool {
    /// A function in the caller's own code.
    Function {
        /// The name of the function.
        name: String,
        /// A JSON Schema document describing the function's parameters.
        parameters: JsonValue,
        /// Whether to enforce strict parameter validation.
        strict: bool,
        /// What the function does.
        description: Option<String>,
    },
    /// Search of uploaded files.
    FileSearch {
        /// The IDs of the vector stores to search.
        vector_store_ids: Vec<String>,
        /// A filter on file attributes.
        filters: FileSearchFilters,
        /// The maximum number of results, between 1 and 50.
        max_num_results: u8,
        /// Ranking options for the search.
        ranking_options: RankingOptions,
    },
    /// Control of a computer interface.
    ComputerUse {
        /// The height of the display.
        display_height: u64,
        /// The width of the display.
        display_width: u64,
        /// The kind of computer environment.
        environment: Environment,
    },
    /// Search of the web.
    WebSearch {
        /// How much context window space the search may use.
        search_context_size: SearchContextSize,
        /// Approximate location of the user.
        user_location: Option<UserLocation>,
    },
}

/// A list of strings as a JSON array.
fn text_array(items: Vec<String>) -> (r: JsonValue)
    ensures
        r is Array,
        r->Array_0@.len() == items@.len(),
        forall|i: int| 0 <= i < items@.len() ==> r->Array_0@[i] == JsonValue::Str(#[trigger] items@[i]),
{
    let ghost whole = items@;
    let mut rest = items;
    let mut out: Vec<JsonValue> = Vec::new();
    while rest.len() > 0
        invariant
            out@.len() + rest@.len() == whole.len(),
            rest@ == whole.subrange(out@.len() as int, whole.len() as int),
            forall|i: int| 0 <= i < out@.len() ==> out@[i] == JsonValue::Str(#[trigger] whole[i]),
        decreases rest@.len(),
    {
        let ghost at = out@.len() as int;
        let s = rest.remove(0);
        assert(s == whole[at]);
        out.push(JsonValue::Str(s));
    }
    JsonValue::Array(out)
}

impl Tool {
    /// The wire tag of this tool.
    pub open spec fn tag(self) -> Seq<char> {
        match self {
            Tool::Function { .. } => "function"@,
            Tool::FileSearch { .. } => "file_search"@,
            Tool::ComputerUse { .. } => "computer_use_preview"@,
            Tool::WebSearch { .. } => "web_search_preview"@,
        }
    }

    /// The wire form: an object tagged by `"type"`, with the fields of its
    /// variant; a field that is not set is left out. Decoding it gives back
    /// this tool.
    pub fn into_json(self) -> (r: JsonValue)
        ensures
            r is Object,
            field_of(r->Object_0@, "type"@) is Some,
            is_text(field_of(r->Object_0@, "type"@)->Some_0, self.tag()),
            self.decoded_from(r),
    {
        proof {
            lemma_tool_words_differ();
        }
        let mut entries: Vec<(String, JsonValue)> = Vec::new();
        let tag = match self {
            Tool::Function { name, parameters, strict, description } => {
                push_field(&mut entries, "name", JsonValue::Str(name));
                push_field(&mut entries, "parameters", parameters);
                push_field(&mut entries, "strict", JsonValue::Bool(strict));
                push_optional_text(&mut entries, "description", description);
                "function"
            },
            Tool::FileSearch { vector_store_ids, filters, max_num_results, ranking_options } => {
                push_field(&mut entries, "vector_store_ids", text_array(vector_store_ids));
                push_field(&mut entries, "filters", filters.into_json());
                push_field(
                    &mut entries,
                    "max_num_results",
                    JsonValue::Number(JsonNumber::Unsigned(max_num_results as u64)),
                );
                push_field(&mut entries, "ranking_options", ranking_options.into_json());
                "file_search"
            },
            Tool::ComputerUse { display_height, display_width, environment } => {
                push_field(&mut entries, "display_height", JsonValue::Number(JsonNumber::Unsigned(display_height)));
                push_field(&mut entries, "display_width", JsonValue::Number(JsonNumber::Unsigned(display_width)));
                push_field(&mut entries, "environment", environment.encode());
                "computer_use_preview"
            },
            Tool::WebSearch { search_context_size, user_location } => {
                push_field(&mut entries, "search_context_size", search_context_size.encode());
                if let Some(l) = user_location {
                    push_field(&mut entries, "user_location", l.into_json());
                }
                "web_search_preview"
            },
        };
        push_field(&mut entries, "type", text_value(tag));
        JsonValue::Object(entries)
    }
}

/// The words that a `UserLocationType` may be.
pub const USER_LOCATION_TYPE_WORDS: &'static str = "approximate";

impl UserLocationType {
    /// The value that a document holds, or why it holds none.
    pub open spec fn decoding(v: JsonValue) -> Result<UserLocationType, DecodeError> {
        match v {
            JsonValue::Str(s) => match UserLocationType::named(s@) {
                Some(x) => Ok(x),
                None => Err(DecodeError::UnknownVariant { found: s, expected: USER_LOCATION_TYPE_WORDS }),
            },
            _ => Err(DecodeError::InvalidType { expected: "a string" }),
        }
    }

    /// Decodes a value from its wire name.
    pub fn decode(v: JsonValue) -> (r: Result<UserLocationType, DecodeError>)
        ensures
            r == UserLocationType::decoding(v),
    {
        match v {
            JsonValue::Str(s) => match UserLocationType::from_wire(s.as_str()) {
                Some(x) => Ok(x),
                None => Err(DecodeError::UnknownVariant { found: s, expected: USER_LOCATION_TYPE_WORDS }),
            },
            _ => Err(DecodeError::InvalidType { expected: "a string" }),
        }
    }
}

/// The words that a `SearchContextSize` may be.
pub const SEARCH_CONTEXT_SIZE_WORDS: &'static str = "low, high, medium";

impl SearchContextSize {
    /// The value that a document holds, or why it holds none.
    pub open spec fn decoding(v: JsonValue) -> Result<SearchContextSize, DecodeError> {
        match v {
            JsonValue::Str(s) => match SearchContextSize::named(s@) {
                Some(x) => Ok(x),
                None => Err(DecodeError::UnknownVariant { found: s, expected: SEARCH_CONTEXT_SIZE_WORDS }),
            },
            _ => Err(DecodeError::InvalidType { expected: "a string" }),
        }
    }

    /// Decodes a value from its wire name.
    pub fn decode(v: JsonValue) -> (r: Result<SearchContextSize, DecodeError>)
        ensures
            r == SearchContextSize::decoding(v),
    {
        match v {
            JsonValue::Str(s) => match SearchContextSize::from_wire(s.as_str()) {
                Some(x) => Ok(x),
                None => Err(DecodeError::UnknownVariant { found: s, expected: SEARCH_CONTEXT_SIZE_WORDS }),
            },
            _ => Err(DecodeError::InvalidType { expected: "a string" }),
        }
    }
}

/// The words that a `Environment` may be.
pub const ENVIRONMENT_WORDS: &'static str = "mac, ubuntu, browser, windows";

impl Environment {
    /// The value that a document holds, or why it holds none.
    pub open spec fn decoding(v: JsonValue) -> Result<Environment, DecodeError> {
        match v {
            JsonValue::Str(s) => match Environment::named(s@) {
                Some(x) => Ok(x),
                None => Err(DecodeError::UnknownVariant { found: s, expected: ENVIRONMENT_WORDS }),
            },
            _ => Err(DecodeError::InvalidType { expected: "a string" }),
        }
    }

    /// Decodes a value from its wire name.
    pub fn decode(v: JsonValue) -> (r: Result<Environment, DecodeError>)
        ensures
            r == Environment::decoding(v),
    {
        match v {
            JsonValue::Str(s) => match Environment::from_wire(s.as_str()) {
                Some(x) => Ok(x),
                None => Err(DecodeError::UnknownVariant { found: s, expected: ENVIRONMENT_WORDS }),
            },
            _ => Err(DecodeError::InvalidType { expected: "a string" }),
        }
    }
}

/// The words that a `ComparisonFilterType` may be.
pub const COMPARISON_FILTER_TYPE_WORDS: &'static str = "eq, ne, gt, gte, lt, lte";

impl ComparisonFilterType {
    /// The value that a document holds, or why it holds none.
    pub open spec fn decoding(v: JsonValue) -> Result<ComparisonFilterType, DecodeError> {
        match v {
            JsonValue::Str(s) => match ComparisonFilterType::named(s@) {
                Some(x) => Ok(x),
                None => Err(DecodeError::UnknownVariant { found: s, expected: COMPARISON_FILTER_TYPE_WORDS }),
            },
            _ => Err(DecodeError::InvalidType { expected: "a string" }),
        }
    }

    /// Decodes a value from its wire name.
    pub fn decode(v: JsonValue) -> (r: Result<ComparisonFilterType, DecodeError>)
        ensures
            r == ComparisonFilterType::decoding(v),
    {
        match v {
            JsonValue::Str(s) => match ComparisonFilterType::from_wire(s.as_str()) {
                Some(x) => Ok(x),
                None => Err(DecodeError::UnknownVariant { found: s, expected: COMPARISON_FILTER_TYPE_WORDS }),
            },
            _ => Err(DecodeError::InvalidType { expected: "a string" }),
        }
    }
}

/// The words that a `CompoundFilterType` may be.
pub const COMPOUND_FILTER_TYPE_WORDS: &'static str = "and, or";

impl CompoundFilterType {
    /// The value that a document holds, or why it holds none.
    pub open spec fn decoding(v: JsonValue) -> Result<CompoundFilterType, DecodeError> {
        match v {
            JsonValue::Str(s) => match CompoundFilterType::named(s@) {
                Some(x) => Ok(x),
                None => Err(DecodeError::UnknownVariant { found: s, expected: COMPOUND_FILTER_TYPE_WORDS }),
            },
            _ => Err(DecodeError::InvalidType { expected: "a string" }),
        }
    }

    /// Decodes a value from its wire name.
    pub fn decode(v: JsonValue) -> (r: Result<CompoundFilterType, DecodeError>)
        ensures
            r == CompoundFilterType::decoding(v),
    {
        match v {
            JsonValue::Str(s) => match CompoundFilterType::from_wire(s.as_str()) {
                Some(x) => Ok(x),
                None => Err(DecodeError::UnknownVariant { found: s, expected: COMPOUND_FILTER_TYPE_WORDS }),
            },
            _ => Err(DecodeError::InvalidType { expected: "a string" }),
        }
    }
}
/// The `UserLocationType` under a required field.
pub open spec fn want_location_type(f: Option<JsonValue>) -> Result<UserLocationType, DecodeError> {
    match f {
        None => Err(DecodeError::MissingField("type")),
        Some(v) => UserLocationType::decoding(v),
    }
}

/// The `UserLocationType` under a required field.
fn take_location_type(f: Option<JsonValue>) -> (r: Result<UserLocationType, DecodeError>)
    ensures
        r == want_location_type(f),
{
    match f {
        None => Err(DecodeError::MissingField("type")),
        Some(v) => UserLocationType::decode(v),
    }
}

/// The `ComparisonFilterType` under a required field.
pub open spec fn want_comparison(f: Option<JsonValue>) -> Result<ComparisonFilterType, DecodeError> {
    match f {
        None => Err(DecodeError::MissingField("type")),
        Some(v) => ComparisonFilterType::decoding(v),
    }
}

/// The `ComparisonFilterType` under a required field.
fn take_comparison(f: Option<JsonValue>) -> (r: Result<ComparisonFilterType, DecodeError>)
    ensures
        r == want_comparison(f),
{
    match f {
        None => Err(DecodeError::MissingField("type")),
        Some(v) => ComparisonFilterType::decode(v),
    }
}

impl UserLocation {
    /// The location that a document holds, or why it holds none.
    pub open spec fn decoding(v: JsonValue) -> Result<UserLocation, DecodeError> {
        match v {
            JsonValue::Object(e) => match want_location_type(field_of(e@, "type"@)) {
                Err(x) => Err(x),
                Ok(kind) => match want_optional_text(field_of(e@, "city"@)) {
                    Err(x) => Err(x),
                    Ok(city) => match want_optional_text(field_of(e@, "country"@)) {
                        Err(x) => Err(x),
                        Ok(country) => match want_optional_text(field_of(e@, "region"@)) {
                            Err(x) => Err(x),
                            Ok(region) => match want_optional_text(field_of(e@, "timezone"@)) {
                                Err(x) => Err(x),
                                Ok(timezone) => Ok(UserLocation { kind, city, country, region, timezone }),
                            },
                        },
                    },
                },
            },
            _ => Err(DecodeError::InvalidType { expected: "an object" }),
        }
    }

    /// Decodes a location.
    pub fn decode(v: JsonValue) -> (r: Result<UserLocation, DecodeError>)
        ensures
            r == UserLocation::decoding(v),
    {
        let entries = match v {
            JsonValue::Object(entries) => entries,
            _ => return Err(DecodeError::InvalidType { expected: "an object" }),
        };
        proof {
            lemma_location_keys_differ();
        }
        let mut keys: Vec<&str> = Vec::new();
        keys.push("type");
        keys.push("city");
        keys.push("country");
        keys.push("region");
        keys.push("timezone");
        let mut found = take_fields(entries, &keys);
        let timezone_found = found.pop().unwrap();
        let region_found = found.pop().unwrap();
        let country_found = found.pop().unwrap();
        let city_found = found.pop().unwrap();
        let kind_found = found.pop().unwrap();
        let kind = match take_location_type(kind_found) {
            Ok(x) => x,
            Err(e) => return Err(e),
        };
        let city = match take_optional_text(city_found) {
            Ok(x) => x,
            Err(e) => return Err(e),
        };
        let country = match take_optional_text(country_found) {
            Ok(x) => x,
            Err(e) => return Err(e),
        };
        let region = match take_optional_text(region_found) {
            Ok(x) => x,
            Err(e) => return Err(e),
        };
        let timezone = match take_optional_text(timezone_found) {
            Ok(x) => x,
            Err(e) => return Err(e),
        };
        Ok(UserLocation { kind, city, country, region, timezone })
    }
}

impl ComparisonFilterValue {
    /// The value that a document holds: a number, a boolean or a string.
    pub open spec fn decoding(v: JsonValue) -> Result<ComparisonFilterValue, DecodeError> {
        match v {
            JsonValue::Number(n) => Ok(ComparisonFilterValue::Number(n)),
            JsonValue::Bool(b) => Ok(ComparisonFilterValue::Boolean(b)),
            JsonValue::Str(s) => Ok(ComparisonFilterValue::String(s)),
            _ => Err(DecodeError::InvalidType { expected: "a number, a boolean or a string" }),
        }
    }

    /// Decodes the value of a comparison.
    pub fn decode(v: JsonValue) -> (r: Result<ComparisonFilterValue, DecodeError>)
        ensures
            r == ComparisonFilterValue::decoding(v),
    {
        match v {
            JsonValue::Number(n) => Ok(ComparisonFilterValue::Number(n)),
            JsonValue::Bool(b) => Ok(ComparisonFilterValue::Boolean(b)),
            JsonValue::Str(s) => Ok(ComparisonFilterValue::String(s)),
            _ => Err(DecodeError::InvalidType { expected: "a number, a boolean or a string" }),
        }
    }
}

/// The field names of a comparison filter are pairwise different.
proof fn lemma_comparison_keys_differ()
    ensures
        "key"@ != "type"@,
        "key"@ != "value"@,
        "type"@ != "value"@,
{
    reveal_strlit("key");
    reveal_strlit("type");
    reveal_strlit("value");
    assert("key"@.len() != "type"@.len());
    assert("key"@.len() != "value"@.len());
    assert("type"@.len() != "value"@.len());
}

impl ComparisonFilter {
    /// The comparison that a document holds, or why it holds none.
    pub open spec fn decoding(v: JsonValue) -> Result<ComparisonFilter, DecodeError> {
        match v {
            JsonValue::Object(e) => match want_text(field_of(e@, "key"@), "key") {
                Err(x) => Err(x),
                Ok(key) => match want_comparison(field_of(e@, "type"@)) {
                    Err(x) => Err(x),
                    Ok(kind) => match field_of(e@, "value"@) {
                        None => Err(DecodeError::MissingField("value")),
                        Some(w) => match ComparisonFilterValue::decoding(w) {
                            Err(x) => Err(x),
                            Ok(value) => Ok(ComparisonFilter { key, kind, value }),
                        },
                    },
                },
            },
            _ => Err(DecodeError::InvalidType { expected: "an object" }),
        }
    }

    /// Decodes a comparison filter.
    pub fn decode(v: JsonValue) -> (r: Result<ComparisonFilter, DecodeError>)
        ensures
            r == ComparisonFilter::decoding(v),
    {
        let entries = match v {
            JsonValue::Object(entries) => entries,
            _ => return Err(DecodeError::InvalidType { expected: "an object" }),
        };
        proof {
            lemma_comparison_keys_differ();
        }
        let mut keys: Vec<&str> = Vec::new();
        keys.push("key");
        keys.push("type");
        keys.push("value");
        let mut found = take_fields(entries, &keys);
        let value_found = found.pop().unwrap();
        let kind_found = found.pop().unwrap();
        let key_found = found.pop().unwrap();
        let key = match take_text(key_found, "key") {
            Ok(x) => x,
            Err(e) => return Err(e),
        };
        let kind = match take_comparison(kind_found) {
            Ok(x) => x,
            Err(e) => return Err(e),
        };
        let value = match value_found {
            None => return Err(DecodeError::MissingField("value")),
            Some(w) => match ComparisonFilterValue::decode(w) {
                Ok(x) => x,
                Err(e) => return Err(e),
            },
        };
        Ok(ComparisonFilter { key, kind, value })
    }
}

impl RankingOptions {
    /// The ranking options that a document holds, or why it holds none.
    pub open spec fn decoding(v: JsonValue) -> Result<RankingOptions, DecodeError> {
        match v {
            JsonValue::Object(e) => match want_text(field_of(e@, "ranker"@), "ranker") {
                Err(x) => Err(x),
                Ok(ranker) => match field_of(e@, "score_threshold"@) {
                    None => Err(DecodeError::MissingField("score_threshold")),
                    Some(JsonValue::Number(score_threshold)) => Ok(RankingOptions { ranker, score_threshold }),
                    Some(_) => Err(DecodeError::InvalidType { expected: "a number" }),
                },
            },
            _ => Err(DecodeError::InvalidType { expected: "an object" }),
        }
    }

    /// Decodes ranking options.
    pub fn decode(v: JsonValue) -> (r: Result<RankingOptions, DecodeError>)
        ensures
            r == RankingOptions::decoding(v),
    {
        let entries = match v {
            JsonValue::Object(entries) => entries,
            _ => return Err(DecodeError::InvalidType { expected: "an object" }),
        };
        proof {
            reveal_strlit("ranker");
            reveal_strlit("score_threshold");
            assert("ranker"@.len() != "score_threshold"@.len());
        }
        let mut keys: Vec<&str> = Vec::new();
        keys.push("ranker");
        keys.push("score_threshold");
        let mut found = take_fields(entries, &keys);
        let score_found = found.pop().unwrap();
        let ranker_found = found.pop().unwrap();
        let ranker = match take_text(ranker_found, "ranker") {
            Ok(x) => x,
            Err(e) => return Err(e),
        };
        match score_found {
            None => Err(DecodeError::MissingField("score_threshold")),
            Some(JsonValue::Number(score_threshold)) => Ok(RankingOptions { ranker, score_threshold }),
            Some(_) => Err(DecodeError::InvalidType { expected: "a number" }),
        }
    }
}

/// The `CompoundFilterType` under a required field.
pub open spec fn want_combination(f: Option<JsonValue>) -> Result<CompoundFilterType, DecodeError> {
    match f {
        None => Err(DecodeError::MissingField("type")),
        Some(v) => CompoundFilterType::decoding(v),
    }
}

/// The `CompoundFilterType` under a required field.
fn take_combination(f: Option<JsonValue>) -> (r: Result<CompoundFilterType, DecodeError>)
    ensures
        r == want_combination(f),
{
    match f {
        None => Err(DecodeError::MissingField("type")),
        Some(v) => CompoundFilterType::decode(v),
    }
}

/// Whether a document is a comparison filter, read by reference.
fn comparison_fits(v: &JsonValue) -> (r: bool)
    ensures
        r == ComparisonFilter::decoding(*v) is Ok,
{
    proof {
        lemma_comparison_keys_differ();
    }
    match v {
        JsonValue::Object(entries) => {
            let key_ok = match find_field(entries, "key") {
                Some(i) => match &entries[i].1 {
                    JsonValue::Str(_) => true,
                    _ => false,
                },
                None => false,
            };
            let kind_ok = match find_field(entries, "type") {
                Some(i) => match &entries[i].1 {
                    JsonValue::Str(s) => ComparisonFilterType::from_wire(s.as_str()).is_some(),
                    _ => false,
                },
                None => false,
            };
            let value_ok = match find_field(entries, "value") {
                Some(i) => match &entries[i].1 {
                    JsonValue::Number(_) => true,
                    JsonValue::Bool(_) => true,
                    JsonValue::Str(_) => true,
                    _ => false,
                },
                None => false,
            };
            key_ok && kind_ok && value_ok
        },
        _ => false,
    }
}

impl FileSearchFilters {
    /// Whether this filter is what `v` decodes to: a comparison where `v` is
    /// one, and otherwise a compound whose `filters` list decodes element by
    /// element to its filters and whose `type` names how they combine.
    pub open spec fn decoded_from(self, v: JsonValue) -> bool
        decreases self,
    {
        match self {
            FileSearchFilters::Single(c) => ComparisonFilter::decoding(v) == Ok::<ComparisonFilter, DecodeError>(c),
            FileSearchFilters::Compound(cf) => {
                &&& ComparisonFilter::decoding(v) is Err
                &&& v is Object
                &&& field_of(v->Object_0@, "filters"@) is Some
                &&& field_of(v->Object_0@, "filters"@)->Some_0 is Array
                &&& cf.filters@.len() == field_of(v->Object_0@, "filters"@)->Some_0->Array_0@.len()
                &&& forall|i: int|
                    0 <= i < cf.filters@.len() ==> (#[trigger] cf.filters@[i]).decoded_from(
                        field_of(v->Object_0@, "filters"@)->Some_0->Array_0@[i],
                    )
                &&& want_combination(field_of(v->Object_0@, "type"@)) == Ok::<CompoundFilterType, DecodeError>(cf.kind)
            },
        }
    }

    /// Decodes a filter: a comparison where the document is one, else a
    /// compound. Fails exactly where no filter is what the document decodes to.
    pub fn decode(v: JsonValue) -> (r: Result<FileSearchFilters, DecodeError>)
        ensures
            r is Ok ==> r->Ok_0.decoded_from(v),
            r is Err ==> forall|x: FileSearchFilters| !x.decoded_from(v),
        decreases v,
    {
        if comparison_fits(&v) {
            return match ComparisonFilter::decode(v) {
                Ok(c) => Ok(FileSearchFilters::Single(c)),
                Err(e) => Err(e),
            };
        }
        let ghost whole = v;
        let entries = match v {
            JsonValue::Object(entries) => entries,
            _ => return Err(DecodeError::InvalidType { expected: "a comparison or a compound filter" }),
        };
        let at = find_field(&entries, "filters");
        proof {
            reveal_strlit("filters");
            reveal_strlit("type");
            assert("filters"@.len() != "type"@.len());
        }
        let mut keys: Vec<&str> = Vec::new();
        keys.push("filters");
        keys.push("type");
        let ghost entries_seq = entries@;
        let ghost entries_vec = entries;
        let mut found = take_fields(entries, &keys);
        let kind_found = found.pop().unwrap();
        let list = match found.pop().unwrap() {
            Some(JsonValue::Array(items)) => items,
            None => return Err(DecodeError::MissingField("filters")),
            Some(_) => return Err(DecodeError::InvalidType { expected: "a list" }),
        };
        let ghost list_vec = list;
        let ghost n = list@.len();
        let ghost j = at->Some_0 as int;
        proof {
            assert(decreases_to!(whole => whole->Object_0));
            assert(decreases_to!(entries_vec => entries_vec@)) by {
                vstd::std_specs::vec::axiom_vec_decreases_to_view(entries_vec);
            }
            assert(decreases_to!(entries_vec@ => entries_vec@[j]));
            assert(decreases_to!(entries_vec@[j] => entries_vec@[j].1));
            assert(entries_vec@[j].1 == JsonValue::Array(list_vec));
            assert(decreases_to!(entries_vec@[j].1 => entries_vec@[j].1->Array_0));
            assert(decreases_to!(list_vec => list_vec@)) by {
                vstd::std_specs::vec::axiom_vec_decreases_to_view(list_vec);
            }
        }
        let mut rest = list;
        let mut filters: Vec<FileSearchFilters> = Vec::new();
        while rest.len() > 0
            invariant
                whole == v,
                whole is Object && whole->Object_0 == entries_vec,
                field_of(whole->Object_0@, "filters"@) == Some(JsonValue::Array(list_vec)),
                ComparisonFilter::decoding(whole) is Err,
                at is Some && j == at->Some_0 && 0 <= j < entries_vec@.len(),
                entries_vec@[j].1 == JsonValue::Array(list_vec),
                decreases_to!(whole => list_vec@),
                n == list_vec@.len(),
                filters@.len() + rest@.len() == n,
                rest@ == list_vec@.subrange(filters@.len() as int, n as int),
                forall|i: int| 0 <= i < filters@.len() ==> (#[trigger] filters@[i]).decoded_from(list_vec@[i]),
            decreases rest@.len(),
        {
            let ghost before = rest@;
            let ghost k = filters@.len() as int;
            let x = rest.remove(0);
            assert(rest@ =~= before.drop_first());
            assert(x == list_vec@[k]);
            proof {
                assert(decreases_to!(list_vec@ => list_vec@[k]));
                assert(decreases_to!(whole => x));
            }
            match FileSearchFilters::decode(x) {
                Ok(f) => filters.push(f),
                Err(e) => {
                    assert forall|y: FileSearchFilters| !y.decoded_from(whole) by {
                        if y.decoded_from(whole) && y is Compound {
                            assert(y->Compound_0.filters@[k].decoded_from(list_vec@[k]));
                        }
                    }
                    return Err(e);
                },
            }
        }
        let kind = match take_combination(kind_found) {
            Ok(k) => k,
            Err(e) => return Err(e),
        };
        Ok(FileSearchFilters::Compound(CompoundFilter { filters, kind }))
    }
}

/// The `Environment` under a required field.
pub open spec fn want_environment(f: Option<JsonValue>) -> Result<Environment, DecodeError> {
    match f {
        None => Err(DecodeError::MissingField("environment")),
        Some(v) => Environment::decoding(v),
    }
}

/// The `Environment` under a required field.
fn take_environment(f: Option<JsonValue>) -> (r: Result<Environment, DecodeError>)
    ensures
        r == want_environment(f),
{
    match f {
        None => Err(DecodeError::MissingField("environment")),
        Some(v) => Environment::decode(v),
    }
}

/// The `SearchContextSize` under a required field.
pub open spec fn want_context_size(f: Option<JsonValue>) -> Result<SearchContextSize, DecodeError> {
    match f {
        None => Err(DecodeError::MissingField("search_context_size")),
        Some(v) => SearchContextSize::decoding(v),
    }
}

/// The `SearchContextSize` under a required field.
fn take_context_size(f: Option<JsonValue>) -> (r: Result<SearchContextSize, DecodeError>)
    ensures
        r == want_context_size(f),
{
    match f {
        None => Err(DecodeError::MissingField("search_context_size")),
        Some(v) => SearchContextSize::decode(v),
    }
}

/// The boolean under a required field.
pub open spec fn want_bool(f: Option<JsonValue>, key: &'static str) -> Result<bool, DecodeError> {
    match f {
        None => Err(DecodeError::MissingField(key)),
        Some(JsonValue::Bool(b)) => Ok(b),
        Some(_) => Err(DecodeError::InvalidType { expected: "a boolean" }),
    }
}

/// The boolean under a required field.
fn take_bool(f: Option<JsonValue>, key: &'static str) -> (r: Result<bool, DecodeError>)
    ensures
        r == want_bool(f, key),
{
    match f {
        None => Err(DecodeError::MissingField(key)),
        Some(JsonValue::Bool(b)) => Ok(b),
        Some(_) => Err(DecodeError::InvalidType { expected: "a boolean" }),
    }
}

/// The number of results under a required field: an integer up to 255.
pub open spec fn want_small(f: Option<JsonValue>) -> Result<u8, DecodeError> {
    match f {
        None => Err(DecodeError::MissingField("max_num_results")),
        Some(JsonValue::Number(JsonNumber::Unsigned(n))) => if n <= 255 {
            Ok(n as u8)
        } else {
            Err(DecodeError::InvalidType { expected: "u8" })
        },
        Some(_) => Err(DecodeError::InvalidType { expected: "u8" }),
    }
}

/// The number of results under a required field: an integer up to 255.
fn take_small(f: Option<JsonValue>) -> (r: Result<u8, DecodeError>)
    ensures
        r == want_small(f),
{
    match f {
        None => Err(DecodeError::MissingField("max_num_results")),
        Some(JsonValue::Number(JsonNumber::Unsigned(n))) => if n <= 255 {
            Ok(n as u8)
        } else {
            Err(DecodeError::InvalidType { expected: "u8" })
        },
        Some(_) => Err(DecodeError::InvalidType { expected: "u8" }),
    }
}

/// The location under an optional field: absent and `null` both give `None`.
pub open spec fn want_location(f: Option<JsonValue>) -> Result<Option<UserLocation>, DecodeError> {
    match f {
        None => Ok(None),
        Some(JsonValue::Null) => Ok(None),
        Some(v) => match UserLocation::decoding(v) {
            Ok(l) => Ok(Some(l)),
            Err(e) => Err(e),
        },
    }
}

/// The location under an optional field: absent and `null` both give `None`.
fn take_location(f: Option<JsonValue>) -> (r: Result<Option<UserLocation>, DecodeError>)
    ensures
        r == want_location(f),
{
    match f {
        None => Ok(None),
        Some(JsonValue::Null) => Ok(None),
        Some(v) => match UserLocation::decode(v) {
            Ok(l) => Ok(Some(l)),
            Err(e) => Err(e),
        },
    }
}

/// Whether `f` is a list of strings holding `ids`, in order.
pub open spec fn ids_from(f: Option<JsonValue>, ids: Vec<String>) -> bool {
    &&& f is Some
    &&& f->Some_0 is Array
    &&& f->Some_0->Array_0@.len() == ids@.len()
    &&& forall|i: int| 0 <= i < ids@.len() ==> f->Some_0->Array_0@[i] == JsonValue::Str(#[trigger] ids@[i])
}

/// The strings of a list of strings, where it is one.
fn take_ids(f: Option<JsonValue>) -> (r: Result<Vec<String>, DecodeError>)
    ensures
        r is Ok ==> ids_from(f, r->Ok_0),
        r is Err ==> forall|ids: Vec<String>| !ids_from(f, ids),
{
    let list = match f {
        None => return Err(DecodeError::MissingField("vector_store_ids")),
        Some(JsonValue::Array(list)) => list,
        Some(_) => return Err(DecodeError::InvalidType { expected: "a list" }),
    };
    let ghost whole = list@;
    let mut rest = list;
    let mut ids: Vec<String> = Vec::new();
    while rest.len() > 0
        invariant
            f == Some(JsonValue::Array(list)),
            list@ == whole,
            ids@.len() + rest@.len() == whole.len(),
            rest@ == whole.subrange(ids@.len() as int, whole.len() as int),
            forall|i: int| 0 <= i < ids@.len() ==> whole[i] == JsonValue::Str(#[trigger] ids@[i]),
        decreases rest@.len(),
    {
        let ghost before = rest@;
        let ghost k = ids@.len() as int;
        let x = rest.remove(0);
        assert(rest@ =~= before.drop_first());
        assert(x == whole[k]);
        match x {
            JsonValue::Str(s) => ids.push(s),
            _ => {
                assert forall|other: Vec<String>| !ids_from(f, other) by {
                    if ids_from(f, other) {
                        assert(whole[k] == JsonValue::Str(other@[k]));
                    }
                }
                return Err(DecodeError::InvalidType { expected: "a string" });
            },
        }
    }
    Ok(ids)
}

impl Tool {
    /// Whether this tool is what `v` decodes to: an object whose `"type"`
    /// names the variant and whose fields decode to the variant's fields.
    pub open spec fn decoded_from(self, v: JsonValue) -> bool {
        &&& v is Object
        &&& field_of(v->Object_0@, "type"@) is Some
        &&& is_text(field_of(v->Object_0@, "type"@)->Some_0, self.tag())
        &&& self.fields_from(v->Object_0@)
    }

    /// Whether the entries of an object decode to the fields of this tool.
    pub open spec fn fields_from(self, e: Seq<(String, JsonValue)>) -> bool {
        match self {
            Tool::Function { name, parameters, strict, description } => {
                &&& want_text(field_of(e, "name"@), "name") == Ok::<String, DecodeError>(name)
                &&& field_of(e, "parameters"@) == Some(parameters)
                &&& want_bool(field_of(e, "strict"@), "strict") == Ok::<bool, DecodeError>(strict)
                &&& want_optional_text(field_of(e, "description"@)) == Ok::<Option<String>, DecodeError>(
                    description,
                )
            },
            Tool::FileSearch { vector_store_ids, filters, max_num_results, ranking_options } => {
                &&& ids_from(field_of(e, "vector_store_ids"@), vector_store_ids)
                &&& field_of(e, "filters"@) is Some
                &&& filters.decoded_from(field_of(e, "filters"@)->Some_0)
                &&& want_small(field_of(e, "max_num_results"@)) == Ok::<u8, DecodeError>(max_num_results)
                &&& field_of(e, "ranking_options"@) is Some
                &&& RankingOptions::decoding(field_of(e, "ranking_options"@)->Some_0) == Ok::<
                    RankingOptions,
                    DecodeError,
                >(ranking_options)
            },
            Tool::ComputerUse { display_height, display_width, environment } => {
                &&& want_count(field_of(e, "display_height"@), "display_height") == Ok::<u64, DecodeError>(
                    display_height,
                )
                &&& want_count(field_of(e, "display_width"@), "display_width") == Ok::<u64, DecodeError>(
                    display_width,
                )
                &&& want_environment(field_of(e, "environment"@)) == Ok::<Environment, DecodeError>(environment)
            },
            Tool::WebSearch { search_context_size, user_location } => {
                &&& want_context_size(field_of(e, "search_context_size"@)) == Ok::<
                    SearchContextSize,
                    DecodeError,
                >(search_context_size)
                &&& want_location(field_of(e, "user_location"@)) == Ok::<Option<UserLocation>, DecodeError>(
                    user_location,
                )
            },
        }
    }
}

/// The field names and tags of tools are pairwise different, where they meet.
proof fn lemma_tool_words_differ()
    ensures
        "name"@ != "parameters"@,
        "name"@ != "strict"@,
        "name"@ != "description"@,
        "name"@ != "type"@,
        "parameters"@ != "strict"@,
        "parameters"@ != "description"@,
        "parameters"@ != "type"@,
        "strict"@ != "description"@,
        "strict"@ != "type"@,
        "description"@ != "type"@,
        "vector_store_ids"@ != "filters"@,
        "vector_store_ids"@ != "max_num_results"@,
        "vector_store_ids"@ != "ranking_options"@,
        "vector_store_ids"@ != "type"@,
        "filters"@ != "max_num_results"@,
        "filters"@ != "ranking_options"@,
        "filters"@ != "type"@,
        "max_num_results"@ != "ranking_options"@,
        "max_num_results"@ != "type"@,
        "ranking_options"@ != "type"@,
        "display_height"@ != "display_width"@,
        "display_height"@ != "environment"@,
        "display_height"@ != "type"@,
        "display_width"@ != "environment"@,
        "display_width"@ != "type"@,
        "environment"@ != "type"@,
        "search_context_size"@ != "user_location"@,
        "search_context_size"@ != "type"@,
        "user_location"@ != "type"@,
        "function"@ != "file_search"@,
        "function"@ != "computer_use_preview"@,
        "function"@ != "web_search_preview"@,
        "file_search"@ != "computer_use_preview"@,
        "file_search"@ != "web_search_preview"@,
        "computer_use_preview"@ != "web_search_preview"@,
{
    reveal_strlit("computer_use_preview");
    reveal_strlit("description");
    reveal_strlit("display_height");
    reveal_strlit("display_width");
    reveal_strlit("environment");
    reveal_strlit("file_search");
    reveal_strlit("filters");
    reveal_strlit("function");
    reveal_strlit("max_num_results");
    reveal_strlit("name");
    reveal_strlit("parameters");
    reveal_strlit("ranking_options");
    reveal_strlit("search_context_size");
    reveal_strlit("strict");
    reveal_strlit("type");
    reveal_strlit("user_location");
    reveal_strlit("vector_store_ids");
    reveal_strlit("web_search_preview");
    assert("name"@.len() != "parameters"@.len());
    assert("name"@.len() != "strict"@.len());
    assert("name"@.len() != "description"@.len());
    assert("name"@[0] != "type"@[0]);
    assert("parameters"@.len() != "strict"@.len());
    assert("parameters"@.len() != "description"@.len());
    assert("parameters"@.len() != "type"@.len());
    assert("strict"@.len() != "description"@.len());
    assert("strict"@.len() != "type"@.len());
    assert("description"@.len() != "type"@.len());
    assert("vector_store_ids"@.len() != "filters"@.len());
    assert("vector_store_ids"@.len() != "max_num_results"@.len());
    assert("vector_store_ids"@.len() != "ranking_options"@.len());
    assert("vector_store_ids"@.len() != "type"@.len());
    assert("filters"@.len() != "max_num_results"@.len());
    assert("filters"@.len() != "ranking_options"@.len());
    assert("filters"@.len() != "type"@.len());
    assert("max_num_results"@[0] != "ranking_options"@[0]);
    assert("max_num_results"@.len() != "type"@.len());
    assert("ranking_options"@.len() != "type"@.len());
    assert("display_height"@.len() != "display_width"@.len());
    assert("display_height"@.len() != "environment"@.len());
    assert("display_height"@.len() != "type"@.len());
    assert("display_width"@.len() != "environment"@.len());
    assert("display_width"@.len() != "type"@.len());
    assert("environment"@.len() != "type"@.len());
    assert("search_context_size"@.len() != "user_location"@.len());
    assert("search_context_size"@.len() != "type"@.len());
    assert("user_location"@.len() != "type"@.len());
    assert("function"@.len() != "file_search"@.len());
    assert("function"@.len() != "computer_use_preview"@.len());
    assert("function"@.len() != "web_search_preview"@.len());
    assert("file_search"@.len() != "computer_use_preview"@.len());
    assert("file_search"@.len() != "web_search_preview"@.len());
    assert("computer_use_preview"@.len() != "web_search_preview"@.len());
}

/// The tags that a tool may carry.
pub const TOOL_TAGS: &'static str = "function, file_search, computer_use_preview, web_search_preview";

impl Tool {
    fn decode_function(entries: Vec<(String, JsonValue)>) -> (r: Result<Tool, DecodeError>)
        ensures
            r is Ok ==> r->Ok_0 is Function && r->Ok_0.fields_from(entries@),
            r is Err ==> forall|t: Tool| t is Function ==> !t.fields_from(entries@),
    {
        proof {
            lemma_tool_words_differ();
        }
            let mut keys: Vec<&str> = Vec::new();
            keys.push("name");
            keys.push("parameters");
            keys.push("strict");
            keys.push("description");
            let mut found = take_fields(entries, &keys);
            let description_found = found.pop().unwrap();
            let strict_found = found.pop().unwrap();
            let parameters_found = found.pop().unwrap();
            let name_found = found.pop().unwrap();
            let name = match take_text(name_found, "name") {
                Ok(x) => x,
                Err(e) => return Err(e),
            };
            let parameters = match parameters_found {
                None => return Err(DecodeError::MissingField("parameters")),
                Some(p) => p,
            };
            let strict = match take_bool(strict_found, "strict") {
                Ok(x) => x,
                Err(e) => return Err(e),
            };
            let description = match take_optional_text(description_found) {
                Ok(x) => x,
                Err(e) => return Err(e),
            };
            Ok(Tool::Function { name, parameters, strict, description })
    }

    fn decode_file_search(entries: Vec<(String, JsonValue)>) -> (r: Result<Tool, DecodeError>)
        ensures
            r is Ok ==> r->Ok_0 is FileSearch && r->Ok_0.fields_from(entries@),
            r is Err ==> forall|t: Tool| t is FileSearch ==> !t.fields_from(entries@),
    {
        proof {
            lemma_tool_words_differ();
        }
            let mut keys: Vec<&str> = Vec::new();
            keys.push("vector_store_ids");
            keys.push("filters");
            keys.push("max_num_results");
            keys.push("ranking_options");
            let mut found = take_fields(entries, &keys);
            let ranking_options_found = found.pop().unwrap();
            let max_num_results_found = found.pop().unwrap();
            let filters_found = found.pop().unwrap();
            let vector_store_ids_found = found.pop().unwrap();
            let vector_store_ids = match take_ids(vector_store_ids_found) {
                Ok(x) => x,
                Err(e) => return Err(e),
            };
            let filters = match filters_found {
                None => return Err(DecodeError::MissingField("filters")),
                Some(x) => match FileSearchFilters::decode(x) {
                    Ok(y) => y,
                    Err(e) => return Err(e),
                },
            };
            let max_num_results = match take_small(max_num_results_found) {
                Ok(x) => x,
                Err(e) => return Err(e),
            };
            let ranking_options = match ranking_options_found {
                None => return Err(DecodeError::MissingField("ranking_options")),
                Some(x) => match RankingOptions::decode(x) {
                    Ok(y) => y,
                    Err(e) => return Err(e),
                },
            };
            Ok(Tool::FileSearch { vector_store_ids, filters, max_num_results, ranking_options })
    }

    fn decode_computer_use(entries: Vec<(String, JsonValue)>) -> (r: Result<Tool, DecodeError>)
        ensures
            r is Ok ==> r->Ok_0 is ComputerUse && r->Ok_0.fields_from(entries@),
            r is Err ==> forall|t: Tool| t is ComputerUse ==> !t.fields_from(entries@),
    {
        proof {
            lemma_tool_words_differ();
        }
            let mut keys: Vec<&str> = Vec::new();
            keys.push("display_height");
            keys.push("display_width");
            keys.push("environment");
            let mut found = take_fields(entries, &keys);
            let environment_found = found.pop().unwrap();
            let display_width_found = found.pop().unwrap();
            let display_height_found = found.pop().unwrap();
            let display_height = match take_count(display_height_found, "display_height") {
                Ok(x) => x,
                Err(e) => return Err(e),
            };
            let display_width = match take_count(display_width_found, "display_width") {
                Ok(x) => x,
                Err(e) => return Err(e),
            };
            let environment = match take_environment(environment_found) {
                Ok(x) => x,
                Err(e) => return Err(e),
            };
            Ok(Tool::ComputerUse { display_height, display_width, environment })
    }

    fn decode_web_search(entries: Vec<(String, JsonValue)>) -> (r: Result<Tool, DecodeError>)
        ensures
            r is Ok ==> r->Ok_0 is WebSearch && r->Ok_0.fields_from(entries@),
            r is Err ==> forall|t: Tool| t is WebSearch ==> !t.fields_from(entries@),
    {
        proof {
            lemma_tool_words_differ();
        }
            let mut keys: Vec<&str> = Vec::new();
            keys.push("search_context_size");
            keys.push("user_location");
            let mut found = take_fields(entries, &keys);
            let user_location_found = found.pop().unwrap();
            let search_context_size_found = found.pop().unwrap();
            let search_context_size = match take_context_size(search_context_size_found) {
                Ok(x) => x,
                Err(e) => return Err(e),
            };
            let user_location = match take_location(user_location_found) {
                Ok(x) => x,
                Err(e) => return Err(e),
            };
            Ok(Tool::WebSearch { search_context_size, user_location })
    }

    /// Decodes a tool: an object tagged by `"type"`. Fails exactly where no
    /// tool is what the document decodes to.
    pub fn decode(v: JsonValue) -> (r: Result<Tool, DecodeError>)
        ensures
            r is Ok ==> r->Ok_0.decoded_from(v),
            r is Err ==> forall|t: Tool| !t.decoded_from(v),
    {
        proof {
            lemma_tool_words_differ();
        }
        let entries = match v {
            JsonValue::Object(entries) => entries,
            _ => return Err(DecodeError::InvalidType { expected: "an object" }),
        };
        let at = match find_field(&entries, "type") {
            Some(i) => i,
            None => return Err(DecodeError::MissingField("type")),
        };
        let tag = match &entries[at].1 {
            JsonValue::Str(t) => t.as_str(),
            _ => return Err(DecodeError::InvalidType { expected: "a string" }),
        };
        if same_text(tag, "function") {
            Tool::decode_function(entries)
        } else if same_text(tag, "file_search") {
            Tool::decode_file_search(entries)
        } else if same_text(tag, "computer_use_preview") {
            Tool::decode_computer_use(entries)
        } else if same_text(tag, "web_search_preview") {
            Tool::decode_web_search(entries)
        } else {
            let mut keys: Vec<&str> = Vec::new();
            keys.push("type");
            let mut found = take_fields(entries, &keys);
            match found.pop().unwrap() {
                Some(JsonValue::Str(t)) => Err(DecodeError::UnknownVariant { found: t, expected: TOOL_TAGS }),
                _ => Err(DecodeError::MissingField("type")),
            }
        }
    }
}

} // verus!
