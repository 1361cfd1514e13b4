//! The request to create a response: the model, the input and the
//! generation parameters.

use crate::config::{ReasoningConfig, ServiceTier, TextConfig, Truncation};
use crate::json::{
    field_of, find_field, is_text, json_reading, object_of, optional_text, read_json, push_field, same_text, take_fields, take_optional_text,
    take_text, text_value, want_optional_text, want_text, DecodeError, JsonNumber, JsonValue,
};
use crate::tool_choice::ToolChoice;
use crate::tools::Tool;
use vstd::prelude::*;

verus! {

/// The role of a message.
#[derive(Debug, Clone, Copy, PartialEq, Eq, Structural)]
pub enum Role {
    User,
    System,
    Assistant,
    Developer,
}

impl Role {
    /// The name of this value on the wire.
    pub open spec fn wire(self) -> Seq<char> {
        match self {
            Role::User => "user"@,
            Role::System => "system"@,
            Role::Assistant => "assistant"@,
            Role::Developer => "developer"@,
        }
    }

    /// The value that a wire name names, if any.
    pub open spec fn named(s: Seq<char>) -> Option<Role> {
        if s == "user"@ {
            Some(Role::User)
        } else if s == "system"@ {
            Some(Role::System)
        } else if s == "assistant"@ {
            Some(Role::Assistant)
        } else if s == "developer"@ {
            Some(Role::Developer)
        } else {
            None
        }
    }

    /// The name of this value on the wire.
    pub fn as_str(&self) -> (r: &'static str)
        ensures
            r@ == self.wire(),
    {
        match self {
            Role::User => "user",
            Role::System => "system",
            Role::Assistant => "assistant",
            Role::Developer => "developer",
        }
    }

    /// The wire form of this value: its name as a string.
    pub fn encode(&self) -> (r: JsonValue)
        ensures
            is_text(r, self.wire()),
            Role::decoding(r) == Ok::<Role, DecodeError>(*self),
    {
        proof {
            lemma_role_round_trip(*self);
        }
        text_value(self.as_str())
    }

    /// The value that a wire name names, if any.
    pub fn from_wire(s: &str) -> (r: Option<Role>)
        ensures
            r == Role::named(s@),
    {
        if same_text(s, "user") {
            Some(Role::User)
        } else if same_text(s, "system") {
            Some(Role::System)
        } else if same_text(s, "assistant") {
            Some(Role::Assistant)
        } else if same_text(s, "developer") {
            Some(Role::Developer)
        } else {
            None
        }
    }
}

/// Reading back the wire name of a `Role` gives the same value.
pub proof fn lemma_role_round_trip(x: Role)
    ensures
        Role::named(x.wire()) == Some(x),
{
    reveal_strlit("user");
    reveal_strlit("system");
    reveal_strlit("assistant");
    reveal_strlit("developer");
    assert("user"@.len() != "system"@.len());
    assert("user"@.len() != "assistant"@.len());
    assert("user"@.len() != "developer"@.len());
    assert("system"@.len() != "assistant"@.len());
    assert("system"@.len() != "developer"@.len());
    assert("assistant"@[0] != "developer"@[0]);
}

/// The status of a message that the service returns.
#[derive(Debug, Clone, Copy, PartialEq, Eq, Structural)]
pub enum MessageStatus {
    InProgress,
    Completed,
    Incomplete,
}

impl MessageStatus {
    /// The name of this value on the wire.
    pub open spec fn wire(self) -> Seq<char> {
        match self {
            MessageStatus::InProgress => "in_progress"@,
            MessageStatus::Completed => "completed"@,
            MessageStatus::Incomplete => "incomplete"@,
        }
    }

    /// The value that a wire name names, if any.
    pub open spec fn named(s: Seq<char>) -> Option<MessageStatus> {
        if s == "in_progress"@ {
            Some(MessageStatus::InProgress)
        } else if s == "completed"@ {
            Some(MessageStatus::Completed)
        } else if s == "incomplete"@ {
            Some(MessageStatus::Incomplete)
        } else {
            None
        }
    }

    /// The name of this value on the wire.
    pub fn as_str(&self) -> (r: &'static str)
        ensures
            r@ == self.wire(),
    {
        match self {
            MessageStatus::InProgress => "in_progress",
            MessageStatus::Completed => "completed",
            MessageStatus::Incomplete => "incomplete",
        }
    }

    /// The wire form of this value: its name as a string.
    pub fn encode(&self) -> (r: JsonValue)
        ensures
            is_text(r, self.wire()),
            MessageStatus::decoding(r) == Ok::<MessageStatus, DecodeError>(*self),
    {
        proof {
            lemma_message_status_round_trip(*self);
        }
        text_value(self.as_str())
    }

    /// The value that a wire name names, if any.
    pub fn from_wire(s: &str) -> (r: Option<MessageStatus>)
        ensures
            r == MessageStatus::named(s@),
    {
        if same_text(s, "in_progress") {
            Some(MessageStatus::InProgress)
        } else if same_text(s, "completed") {
            Some(MessageStatus::Completed)
        } else if same_text(s, "incomplete") {
            Some(MessageStatus::Incomplete)
        } else {
            None
        }
    }
}

/// Reading back the wire name of a `MessageStatus` gives the same value.
pub proof fn lemma_message_status_round_trip(x: MessageStatus)
    ensures
        MessageStatus::named(x.wire()) == Some(x),
{
    reveal_strlit("in_progress");
    reveal_strlit("completed");
    reveal_strlit("incomplete");
    assert("in_progress"@.len() != "completed"@.len());
    assert("in_progress"@.len() != "incomplete"@.len());
    assert("completed"@.len() != "incomplete"@.len());
}

/// The detail level of an image sent to the model.
#[derive(Debug, Clone, Copy, PartialEq, Eq, Structural)]
pub enum ImageDetail {
    Auto,
    Low,
    High,
    Medium,
}

impl Default for ImageDetail {
    fn default() -> (r: ImageDetail)
        ensures
            r == ImageDetail::Auto,
    {
        ImageDetail::Auto
    }
}

impl ImageDetail {
    /// The name of this value on the wire.
    pub open spec fn wire(self) -> Seq<char> {
        match self {
            ImageDetail::Auto => "auto"@,
            ImageDetail::Low => "low"@,
            ImageDetail::High => "high"@,
            ImageDetail::Medium => "medium"@,
        }
    }

    /// The value that a wire name names, if any.
    pub open spec fn named(s: Seq<char>) -> Option<ImageDetail> {
        if s == "auto"@ {
            Some(ImageDetail::Auto)
        } else if s == "low"@ {
            Some(ImageDetail::Low)
        } else if s == "high"@ {
            Some(ImageDetail::High)
        } else if s == "medium"@ {
            Some(ImageDetail::Medium)
        } else {
            None
        }
    }

    /// The name of this value on the wire.
    pub fn as_str(&self) -> (r: &'static str)
        ensures
            r@ == self.wire(),
    {
        match self {
            ImageDetail::Auto => "auto",
            ImageDetail::Low => "low",
            ImageDetail::High => "high",
            ImageDetail::Medium => "medium",
        }
    }

    /// The wire form of this value: its name as a string.
    pub fn encode(&self) -> (r: JsonValue)
        ensures
            is_text(r, self.wire()),
            ImageDetail::decoding(r) == Ok::<ImageDetail, DecodeError>(*self),
    {
        proof {
            lemma_image_detail_round_trip(*self);
        }
        text_value(self.as_str())
    }

    /// The value that a wire name names, if any.
    pub fn from_wire(s: &str) -> (r: Option<ImageDetail>)
        ensures
            r == ImageDetail::named(s@),
    {
        if same_text(s, "auto") {
            Some(ImageDetail::Auto)
        } else if same_text(s, "low") {
            Some(ImageDetail::Low)
        } else if same_text(s, "high") {
            Some(ImageDetail::High)
        } else if same_text(s, "medium") {
            Some(ImageDetail::Medium)
        } else {
            None
        }
    }
}

/// Reading back the wire name of a `ImageDetail` gives the same value.
pub proof fn lemma_image_detail_round_trip(x: ImageDetail)
    ensures
        ImageDetail::named(x.wire()) == Some(x),
{
    reveal_strlit("auto");
    reveal_strlit("low");
    reveal_strlit("high");
    reveal_strlit("medium");
    assert("auto"@.len() != "low"@.len());
    assert("auto"@[0] != "high"@[0]);
    assert("auto"@.len() != "medium"@.len());
    assert("low"@.len() != "high"@.len());
    assert("low"@.len() != "medium"@.len());
    assert("high"@.len() != "medium"@.len());
}

/// Additional output data to include in the model response.
#[derive(Debug, Clone, Copy, PartialEq, Eq, Structural)]
pub enum Include {
    /// The search results of the file search tool call.
    FileSearchResults,
    /// The image URLs of the input message.
    InputImageURLs,
    /// The image URLs of the computer call output.
    ComputerCallImageURLs,
}

impl Include {
    /// The name of this value on the wire.
    pub open spec fn wire(self) -> Seq<char> {
        match self {
            Include::FileSearchResults => "file_search_call.results"@,
            Include::InputImageURLs => "message.input_image.image_url"@,
            Include::ComputerCallImageURLs => "computer_call_output.output.image_url"@,
        }
    }

    /// The value that a wire name names, if any.
    pub open spec fn named(s: Seq<char>) -> Option<Include> {
        if s == "file_search_call.results"@ {
            Some(Include::FileSearchResults)
        } else if s == "message.input_image.image_url"@ {
            Some(Include::InputImageURLs)
        } else if s == "computer_call_output.output.image_url"@ {
            Some(Include::ComputerCallImageURLs)
        } else {
            None
        }
    }

    /// The name of this value on the wire.
    pub fn as_str(&self) -> (r: &'static str)
        ensures
            r@ == self.wire(),
    {
        match self {
            Include::FileSearchResults => "file_search_call.results",
            Include::InputImageURLs => "message.input_image.image_url",
            Include::ComputerCallImageURLs => "computer_call_output.output.image_url",
        }
    }

    /// The wire form of this value: its name as a string.
    pub fn encode(&self) -> (r: JsonValue)
        ensures
            is_text(r, self.wire()),
            Include::decoding(r) == Ok::<Include, DecodeError>(*self),
    {
        proof {
            lemma_include_round_trip(*self);
        }
        text_value(self.as_str())
    }

    /// The value that a wire name names, if any.
    pub fn from_wire(s: &str) -> (r: Option<Include>)
        ensures
            r == Include::named(s@),
    {
        if same_text(s, "file_search_call.results") {
            Some(Include::FileSearchResults)
        } else if same_text(s, "message.input_image.image_url") {
            Some(Include::InputImageURLs)
        } else if same_text(s, "computer_call_output.output.image_url") {
            Some(Include::ComputerCallImageURLs)
        } else {
            None
        }
    }
}

/// Reading back the wire name of a `Include` gives the same value.
pub proof fn lemma_include_round_trip(x: Include)
    ensures
        Include::named(x.wire()) == Some(x),
{
    reveal_strlit("file_search_call.results");
    reveal_strlit("message.input_image.image_url");
    reveal_strlit("computer_call_output.output.image_url");
    assert("file_search_call.results"@.len() != "message.input_image.image_url"@.len());
    assert("file_search_call.results"@.len() != "computer_call_output.output.image_url"@.len());
    assert("message.input_image.image_url"@.len() != "computer_call_output.output.image_url"@.len());
}

/// The model to use for generating a response: one of the named models, or
/// any other model by its ID.
#[allow(non_camel_case_types)]
#[derive(Debug, Clone, PartialEq)]
pub enum Model {
    o1,
    o1Mini,
    o1Pro,
    o3Mini,
    GPT4_5Preview,
    GPT4o,
    GPT4oMini,
    GPT4Turbo,
    GPT4,
    GPT3_5Turbo,
    ComputerUsePreview,
    /// Any other model, by its ID.
    Other(String),
}

/// Whether `s` is the ID of one of the named models.
pub open spec fn is_named_model(s: Seq<char>) -> bool {
    s == "o1"@
    || s == "o1-mini"@
    || s == "o1-pro"@
    || s == "o3-mini"@
    || s == "gpt-4.5-preview"@
    || s == "gpt-4o"@
    || s == "gpt-4o-mini"@
    || s == "gpt-4o-turbo"@
    || s == "gpt-4"@
    || s == "gpt-3.5-turbo"@
    || s == "computer-use-preview"@
}

impl Model {
    /// The ID of this model on the wire.
    pub open spec fn wire(self) -> Seq<char> {
        match self {
            Model::o1 => "o1"@,
            Model::o1Mini => "o1-mini"@,
            Model::o1Pro => "o1-pro"@,
            Model::o3Mini => "o3-mini"@,
            Model::GPT4_5Preview => "gpt-4.5-preview"@,
            Model::GPT4o => "gpt-4o"@,
            Model::GPT4oMini => "gpt-4o-mini"@,
            Model::GPT4Turbo => "gpt-4o-turbo"@,
            Model::GPT4 => "gpt-4"@,
            Model::GPT3_5Turbo => "gpt-3.5-turbo"@,
            Model::ComputerUsePreview => "computer-use-preview"@,
            Model::Other(s) => s@,
        }
    }

    /// The model that an ID names: a named model, or else `Other` holding the ID.
    pub open spec fn named(s: String) -> Model {
        if s@ == "o1"@ {
            Model::o1
        } else if s@ == "o1-mini"@ {
            Model::o1Mini
        } else if s@ == "o1-pro"@ {
            Model::o1Pro
        } else if s@ == "o3-mini"@ {
            Model::o3Mini
        } else if s@ == "gpt-4.5-preview"@ {
            Model::GPT4_5Preview
        } else if s@ == "gpt-4o"@ {
            Model::GPT4o
        } else if s@ == "gpt-4o-mini"@ {
            Model::GPT4oMini
        } else if s@ == "gpt-4o-turbo"@ {
            Model::GPT4Turbo
        } else if s@ == "gpt-4"@ {
            Model::GPT4
        } else if s@ == "gpt-3.5-turbo"@ {
            Model::GPT3_5Turbo
        } else if s@ == "computer-use-preview"@ {
            Model::ComputerUsePreview
        } else {
            Model::Other(s)
        }
    }

    /// Whether two models are the same model (another model by the text of its ID).
    pub open spec fn same_as(self, other: Model) -> bool {
        match (self, other) {
            (Model::Other(a), Model::Other(b)) => a@ == b@,
            _ => self == other,
        }
    }

    /// The model that an ID names: a named model, or else `Other` holding the ID.
    pub fn from_name(s: String) -> (r: Model)
        ensures
            r == Model::named(s),
    {
        if same_text(s.as_str(), "o1") {
            Model::o1
        } else if same_text(s.as_str(), "o1-mini") {
            Model::o1Mini
        } else if same_text(s.as_str(), "o1-pro") {
            Model::o1Pro
        } else if same_text(s.as_str(), "o3-mini") {
            Model::o3Mini
        } else if same_text(s.as_str(), "gpt-4.5-preview") {
            Model::GPT4_5Preview
        } else if same_text(s.as_str(), "gpt-4o") {
            Model::GPT4o
        } else if same_text(s.as_str(), "gpt-4o-mini") {
            Model::GPT4oMini
        } else if same_text(s.as_str(), "gpt-4o-turbo") {
            Model::GPT4Turbo
        } else if same_text(s.as_str(), "gpt-4") {
            Model::GPT4
        } else if same_text(s.as_str(), "gpt-3.5-turbo") {
            Model::GPT3_5Turbo
        } else if same_text(s.as_str(), "computer-use-preview") {
            Model::ComputerUsePreview
        } else {
            Model::Other(s)
        }
    }

    /// The wire form: the model's ID as a string.
    pub fn encode(&self) -> (r: JsonValue)
        ensures
            is_text(r, self.wire()),
    {
        match self {
            Model::o1 => text_value("o1"),
            Model::o1Mini => text_value("o1-mini"),
            Model::o1Pro => text_value("o1-pro"),
            Model::o3Mini => text_value("o3-mini"),
            Model::GPT4_5Preview => text_value("gpt-4.5-preview"),
            Model::GPT4o => text_value("gpt-4o"),
            Model::GPT4oMini => text_value("gpt-4o-mini"),
            Model::GPT4Turbo => text_value("gpt-4o-turbo"),
            Model::GPT4 => text_value("gpt-4"),
            Model::GPT3_5Turbo => text_value("gpt-3.5-turbo"),
            Model::ComputerUsePreview => text_value("computer-use-preview"),
            Model::Other(s) => text_value(s.as_str()),
        }
    }
}

impl From<String> for Model {
    fn from(s: String) -> (r: Model)
        ensures
            r == Model::named(s),
    {
        Model::from_name(s)
    }
}

impl vstd::std_specs::convert::FromSpecImpl<String> for Model {
    open spec fn obeys_from_spec() -> bool {
        true
    }

    open spec fn from_spec(s: String) -> Model {
        Model::named(s)
    }
}

/// Reading back the ID of a model gives the same model, unless it is an
/// `Other` that holds the ID of a named model: that one reads back as the
/// named model.
pub proof fn lemma_model_round_trip(m: Model, s: String)
    requires
        s@ == m.wire(),
        !(m is Other && is_named_model(m->Other_0@)),
    ensures
        Model::named(s).same_as(m),
{
    reveal_strlit("o1");
    reveal_strlit("o1-mini");
    reveal_strlit("o1-pro");
    reveal_strlit("o3-mini");
    reveal_strlit("gpt-4.5-preview");
    reveal_strlit("gpt-4o");
    reveal_strlit("gpt-4o-mini");
    reveal_strlit("gpt-4o-turbo");
    reveal_strlit("gpt-4");
    reveal_strlit("gpt-3.5-turbo");
    reveal_strlit("computer-use-preview");
    assert("o1"@.len() != "o1-mini"@.len());
    assert("o1"@.len() != "o1-pro"@.len());
    assert("o1"@.len() != "o3-mini"@.len());
    assert("o1"@.len() != "gpt-4.5-preview"@.len());
    assert("o1"@.len() != "gpt-4o"@.len());
    assert("o1"@.len() != "gpt-4o-mini"@.len());
    assert("o1"@.len() != "gpt-4o-turbo"@.len());
    assert("o1"@.len() != "gpt-4"@.len());
    assert("o1"@.len() != "gpt-3.5-turbo"@.len());
    assert("o1"@.len() != "computer-use-preview"@.len());
    assert("o1-mini"@.len() != "o1-pro"@.len());
    assert("o1-mini"@[1] != "o3-mini"@[1]);
    assert("o1-mini"@.len() != "gpt-4.5-preview"@.len());
    assert("o1-mini"@.len() != "gpt-4o"@.len());
    assert("o1-mini"@.len() != "gpt-4o-mini"@.len());
    assert("o1-mini"@.len() != "gpt-4o-turbo"@.len());
    assert("o1-mini"@.len() != "gpt-4"@.len());
    assert("o1-mini"@.len() != "gpt-3.5-turbo"@.len());
    assert("o1-mini"@.len() != "computer-use-preview"@.len());
    assert("o1-pro"@.len() != "o3-mini"@.len());
    assert("o1-pro"@.len() != "gpt-4.5-preview"@.len());
    assert("o1-pro"@[0] != "gpt-4o"@[0]);
    assert("o1-pro"@.len() != "gpt-4o-mini"@.len());
    assert("o1-pro"@.len() != "gpt-4o-turbo"@.len());
    assert("o1-pro"@.len() != "gpt-4"@.len());
    assert("o1-pro"@.len() != "gpt-3.5-turbo"@.len());
    assert("o1-pro"@.len() != "computer-use-preview"@.len());
    assert("o3-mini"@.len() != "gpt-4.5-preview"@.len());
    assert("o3-mini"@.len() != "gpt-4o"@.len());
    assert("o3-mini"@.len() != "gpt-4o-mini"@.len());
    assert("o3-mini"@.len() != "gpt-4o-turbo"@.len());
    assert("o3-mini"@.len() != "gpt-4"@.len());
    assert("o3-mini"@.len() != "gpt-3.5-turbo"@.len());
    assert("o3-mini"@.len() != "computer-use-preview"@.len());
    assert("gpt-4.5-preview"@.len() != "gpt-4o"@.len());
    assert("gpt-4.5-preview"@.len() != "gpt-4o-mini"@.len());
    assert("gpt-4.5-preview"@.len() != "gpt-4o-turbo"@.len());
    assert("gpt-4.5-preview"@.len() != "gpt-4"@.len());
    assert("gpt-4.5-preview"@.len() != "gpt-3.5-turbo"@.len());
    assert("gpt-4.5-preview"@.len() != "computer-use-preview"@.len());
    assert("gpt-4o"@.len() != "gpt-4o-mini"@.len());
    assert("gpt-4o"@.len() != "gpt-4o-turbo"@.len());
    assert("gpt-4o"@.len() != "gpt-4"@.len());
    assert("gpt-4o"@.len() != "gpt-3.5-turbo"@.len());
    assert("gpt-4o"@.len() != "computer-use-preview"@.len());
    assert("gpt-4o-mini"@.len() != "gpt-4o-turbo"@.len());
    assert("gpt-4o-mini"@.len() != "gpt-4"@.len());
    assert("gpt-4o-mini"@.len() != "gpt-3.5-turbo"@.len());
    assert("gpt-4o-mini"@.len() != "computer-use-preview"@.len());
    assert("gpt-4o-turbo"@.len() != "gpt-4"@.len());
    assert("gpt-4o-turbo"@.len() != "gpt-3.5-turbo"@.len());
    assert("gpt-4o-turbo"@.len() != "computer-use-preview"@.len());
    assert("gpt-4"@.len() != "gpt-3.5-turbo"@.len());
    assert("gpt-4"@.len() != "computer-use-preview"@.len());
    assert("gpt-3.5-turbo"@.len() != "computer-use-preview"@.len());
}

/// A text input, or a list of input items.
#[derive(Debug)]
pub enum Input {
    /// A text input, equivalent to a text message with the user role.
    Text(String),
    /// A list of input items of different kinds.
    List(Vec<InputListItem>),
}

/// One element of an input list.
#[derive(Debug)]
pub enum InputListItem {
    /// A message with a role.
    Message(InputMessage),
    /// A reference to an item by its ID.
    ItemRef {
        /// The ID of the item to reference.
        id: String,
    },
    /// Any other item of context, carried as the document it is.
    Item(JsonValue),
}

/// A message input to the model, with a role.
#[derive(Debug)]
pub struct InputMessage {
    /// The role of the message.
    pub role: Role,
    /// The content of the message.
    pub content: ContentInput,
}

/// The content of a message: a text, or a list of content items.
#[derive(Debug)]
pub enum ContentInput {
    Text(String),
    List(Vec<ContentItem>),
}

/// A message as the service returns it.
#[derive(Debug)]
pub struct APIInputMessage {
    /// The role of the message.
    pub role: Role,
    /// The content of the message.
    pub content: ContentItem,
    /// The status of the message.
    pub status: Option<MessageStatus>,
}

/// One content item: a text, an image or a file.
#[derive(Debug, Clone, PartialEq)]
pub enum ContentItem {
    /// A text input.
    Text { text: String },
    /// An image input.
    Image {
        /// The detail level of the image.
        detail: ImageDetail,
        /// The ID of an uploaded file.
        file_id: Option<String>,
        /// The URL of the image, or a data URL.
        image_url: Option<String>,
    },
    /// A file input.
    File {
        /// The content of the file.
        file_data: Option<String>,
        /// The ID of an uploaded file.
        file_id: Option<String>,
        /// The name of the file.
        filename: Option<String>,
    },
}

/// Appends `key` holding `s`, where `s` is set.
fn push_optional(entries: &mut Vec<(String, JsonValue)>, key: &str, s: Option<String>)
    ensures
        forall|k: Seq<char>|
            #[trigger] field_of(final(entries)@, k) == if k == key@ && s is Some {
                optional_text(s)
            } else {
                field_of(old(entries)@, k)
            },
{
    if let Some(s) = s {
        push_field(entries, key, JsonValue::Str(s));
    }
}

/// The image detail under a required field.
pub open spec fn want_detail(f: Option<JsonValue>) -> Result<ImageDetail, DecodeError> {
    match f {
        None => Err(DecodeError::MissingField("detail")),
        Some(JsonValue::Str(s)) => match ImageDetail::named(s@) {
            Some(d) => Ok(d),
            None => Err(DecodeError::UnknownVariant { found: s, expected: IMAGE_DETAIL_WORDS }),
        },
        Some(_) => Err(DecodeError::InvalidType { expected: "a string" }),
    }
}

/// The image detail under a required field.
fn take_detail(f: Option<JsonValue>) -> (r: Result<ImageDetail, DecodeError>)
    ensures
        r == want_detail(f),
{
    match f {
        None => Err(DecodeError::MissingField("detail")),
        Some(JsonValue::Str(s)) => match ImageDetail::from_wire(s.as_str()) {
            Some(d) => Ok(d),
            None => Err(DecodeError::UnknownVariant { found: s, expected: IMAGE_DETAIL_WORDS }),
        },
        Some(_) => Err(DecodeError::InvalidType { expected: "a string" }),
    }
}

/// The tags that a content item may carry.
pub const CONTENT_TAGS: &'static str = "input_text, input_image, input_file";

impl ContentItem {
    /// The content item that a document holds, or why it holds none.
    pub open spec fn decoding(v: JsonValue) -> Result<ContentItem, DecodeError> {
        match v {
            JsonValue::Object(entries) => match field_of(entries@, "type"@) {
                None => Err(DecodeError::MissingField("type")),
                Some(JsonValue::Str(tag)) => if tag@ == "input_text"@ {
                    match want_text(field_of(entries@, "text"@), "text") {
                        Err(e) => Err(e),
                        Ok(text) => Ok(ContentItem::Text { text }),
                    }
                } else if tag@ == "input_image"@ {
                    match want_detail(field_of(entries@, "detail"@)) {
                        Err(e) => Err(e),
                        Ok(detail) => match want_optional_text(field_of(entries@, "file_id"@)) {
                            Err(e) => Err(e),
                            Ok(file_id) => match want_optional_text(field_of(entries@, "image_url"@)) {
                                Err(e) => Err(e),
                                Ok(image_url) => Ok(ContentItem::Image { detail, file_id, image_url }),
                            },
                        },
                    }
                } else if tag@ == "input_file"@ {
                    match want_optional_text(field_of(entries@, "file_data"@)) {
                        Err(e) => Err(e),
                        Ok(file_data) => match want_optional_text(field_of(entries@, "file_id"@)) {
                            Err(e) => Err(e),
                            Ok(file_id) => match want_optional_text(field_of(entries@, "filename"@)) {
                                Err(e) => Err(e),
                                Ok(filename) => Ok(ContentItem::File { file_data, file_id, filename }),
                            },
                        },
                    }
                } else {
                    Err(DecodeError::UnknownVariant { found: tag, expected: CONTENT_TAGS })
                },
                Some(_) => Err(DecodeError::InvalidType { expected: "a string" }),
            },
            _ => Err(DecodeError::InvalidType { expected: "an object" }),
        }
    }

    /// Decodes one content item.
    pub fn decode(v: JsonValue) -> (r: Result<ContentItem, DecodeError>)
        ensures
            r == ContentItem::decoding(v),
    {
        proof {
            lemma_content_words_differ();
        }
        let entries = match v {
            JsonValue::Object(entries) => entries,
            _ => return Err(DecodeError::InvalidType { expected: "an object" }),
        };
        let at = match find_field(&entries, "type") {
            Some(i) => i,
            None => return Err(DecodeError::MissingField("type")),
        };
        let tag = match &entries[at].1 {
            JsonValue::Str(t) => t.as_str(),
            _ => return Err(DecodeError::InvalidType { expected: "a string" }),
        };
        if same_text(tag, "input_text") {
            let mut keys: Vec<&str> = Vec::new();
            keys.push("text");
            let mut found = take_fields(entries, &keys);
            match take_text(found.pop().unwrap(), "text") {
                Ok(text) => Ok(ContentItem::Text { text }),
                Err(e) => Err(e),
            }
        } else if same_text(tag, "input_image") {
            let mut keys: Vec<&str> = Vec::new();
            keys.push("detail");
            keys.push("file_id");
            keys.push("image_url");
            let mut found = take_fields(entries, &keys);
            let image_url_found = found.pop().unwrap();
            let file_id_found = found.pop().unwrap();
            let detail_found = found.pop().unwrap();
            let detail = match take_detail(detail_found) {
                Ok(x) => x,
                Err(e) => return Err(e),
            };
            let file_id = match take_optional_text(file_id_found) {
                Ok(x) => x,
                Err(e) => return Err(e),
            };
            let image_url = match take_optional_text(image_url_found) {
                Ok(x) => x,
                Err(e) => return Err(e),
            };
            Ok(ContentItem::Image { detail, file_id, image_url })
        } else if same_text(tag, "input_file") {
            let mut keys: Vec<&str> = Vec::new();
            keys.push("file_data");
            keys.push("file_id");
            keys.push("filename");
            let mut found = take_fields(entries, &keys);
            let filename_found = found.pop().unwrap();
            let file_id_found = found.pop().unwrap();
            let file_data_found = found.pop().unwrap();
            let file_data = match take_optional_text(file_data_found) {
                Ok(x) => x,
                Err(e) => return Err(e),
            };
            let file_id = match take_optional_text(file_id_found) {
                Ok(x) => x,
                Err(e) => return Err(e),
            };
            let filename = match take_optional_text(filename_found) {
                Ok(x) => x,
                Err(e) => return Err(e),
            };
            Ok(ContentItem::File { file_data, file_id, filename })
        } else {
            let mut keys: Vec<&str> = Vec::new();
            keys.push("type");
            let mut found = take_fields(entries, &keys);
            match found.pop().unwrap() {
                Some(JsonValue::Str(t)) => Err(DecodeError::UnknownVariant { found: t, expected: CONTENT_TAGS }),
                _ => Err(DecodeError::MissingField("type")),
            }
        }
    }
}

/// The field names and tags of content items are pairwise different.
proof fn lemma_content_words_differ()
    ensures
        "text"@ != "detail"@,
        "text"@ != "file_id"@,
        "text"@ != "image_url"@,
        "text"@ != "file_data"@,
        "text"@ != "filename"@,
        "text"@ != "type"@,
        "detail"@ != "file_id"@,
        "detail"@ != "image_url"@,
        "detail"@ != "file_data"@,
        "detail"@ != "filename"@,
        "detail"@ != "type"@,
        "file_id"@ != "image_url"@,
        "file_id"@ != "file_data"@,
        "file_id"@ != "filename"@,
        "file_id"@ != "type"@,
        "image_url"@ != "file_data"@,
        "image_url"@ != "filename"@,
        "image_url"@ != "type"@,
        "file_data"@ != "filename"@,
        "file_data"@ != "type"@,
        "filename"@ != "type"@,
        "input_text"@ != "input_image"@,
        "input_text"@ != "input_file"@,
        "input_image"@ != "input_file"@,
{
    reveal_strlit("text");
    reveal_strlit("detail");
    reveal_strlit("file_id");
    reveal_strlit("image_url");
    reveal_strlit("file_data");
    reveal_strlit("filename");
    reveal_strlit("type");
    reveal_strlit("input_text");
    reveal_strlit("input_image");
    reveal_strlit("input_file");
    assert("text"@.len() != "detail"@.len());
    assert("text"@.len() != "file_id"@.len());
    assert("text"@.len() != "image_url"@.len());
    assert("text"@.len() != "file_data"@.len());
    assert("text"@.len() != "filename"@.len());
    assert("text"@[1] != "type"@[1]);
    assert("detail"@.len() != "file_id"@.len());
    assert("detail"@.len() != "image_url"@.len());
    assert("detail"@.len() != "file_data"@.len());
    assert("detail"@.len() != "filename"@.len());
    assert("detail"@.len() != "type"@.len());
    assert("file_id"@.len() != "image_url"@.len());
    assert("file_id"@.len() != "file_data"@.len());
    assert("file_id"@.len() != "filename"@.len());
    assert("file_id"@.len() != "type"@.len());
    assert("image_url"@[0] != "file_data"@[0]);
    assert("image_url"@.len() != "filename"@.len());
    assert("image_url"@.len() != "type"@.len());
    assert("file_data"@.len() != "filename"@.len());
    assert("file_data"@.len() != "type"@.len());
    assert("filename"@.len() != "type"@.len());
    assert("input_text"@.len() != "input_image"@.len());
    assert("input_text"@[6] != "input_file"@[6]);
    assert("input_image"@.len() != "input_file"@.len());
}

impl ContentItem {
    /// The wire tag of this item.
    pub open spec fn tag(self) -> Seq<char> {
        match self {
            ContentItem::Text { .. } => "input_text"@,
            ContentItem::Image { .. } => "input_image"@,
            ContentItem::File { .. } => "input_file"@,
        }
    }

    /// The wire form: an object tagged by `"type"`; a field that is not set
    /// is left out. Decoding it gives back this very item.
    pub fn into_json(self) -> (r: JsonValue)
        ensures
            r is Object,
            field_of(r->Object_0@, "type"@) is Some,
            is_text(field_of(r->Object_0@, "type"@)->Some_0, self.tag()),
            ContentItem::decoding(r) == Ok::<ContentItem, DecodeError>(self),
    {
        proof {
            lemma_content_words_differ();
            if self is Image {
                lemma_image_detail_round_trip(self->detail);
            }
        }
        let mut entries: Vec<(String, JsonValue)> = Vec::new();
        let tag = match self {
            ContentItem::Text { text } => {
                push_field(&mut entries, "text", JsonValue::Str(text));
                "input_text"
            },
            ContentItem::Image { detail, file_id, image_url } => {
                push_field(&mut entries, "detail", detail.encode());
                push_optional(&mut entries, "file_id", file_id);
                push_optional(&mut entries, "image_url", image_url);
                "input_image"
            },
            ContentItem::File { file_data, file_id, filename } => {
                push_optional(&mut entries, "file_data", file_data);
                push_optional(&mut entries, "file_id", file_id);
                push_optional(&mut entries, "filename", filename);
                "input_file"
            },
        };
        push_field(&mut entries, "type", text_value(tag));
        JsonValue::Object(entries)
    }
}

impl ContentInput {
    /// The wire form: the bare text, or the list of items. Decoding it
    /// gives back this content.
    pub fn into_json(self) -> (r: JsonValue)
        ensures
            ContentInput::failure(r) is None,
            self.decoded_from(r),
    {
        match self {
            ContentInput::Text(s) => JsonValue::Str(s),
            ContentInput::List(items) => {
                let ghost whole = items@;
                let mut rest = items;
                let mut out: Vec<JsonValue> = Vec::new();
                while rest.len() > 0
                    invariant
                        out@.len() + rest@.len() == whole.len(),
                        rest@ == whole.subrange(out@.len() as int, whole.len() as int),
                        forall|i: int|
                            0 <= i < out@.len() ==> ContentItem::decoding(#[trigger] out@[i]) == Ok::<
                                ContentItem,
                                DecodeError,
                            >(whole[i]),
                    decreases rest@.len(),
                {
                    let ghost before = rest@;
                    let item = rest.remove(0);
                    assert(rest@ =~= before.drop_first());
                    assert(item == whole[out@.len() as int]);
                    out.push(item.into_json());
                }
                proof {
                    lemma_no_content_failure(out@);
                }
                JsonValue::Array(out)
            },
        }
    }
}

impl InputMessage {
    /// The wire form: an object with `role`, `content` and the tag
    /// `message`. Decoding its entries gives back this message.
    pub fn into_json(self) -> (r: JsonValue)
        ensures
            r is Object,
            is_text(field_of(r->Object_0@, "type"@)->Some_0, "message"@),
            field_of(r->Object_0@, "type"@) is Some,
            InputMessage::failure(r->Object_0@) is None,
            self.decoded_from(r->Object_0@),
    {
        proof {
            reveal_strlit("role");
            reveal_strlit("content");
            reveal_strlit("type");
            assert("role"@.len() != "content"@.len());
            assert("role"@[0] != "type"@[0]);
            assert("content"@.len() != "type"@.len());
            lemma_role_round_trip(self.role);
        }
        let mut entries: Vec<(String, JsonValue)> = Vec::new();
        push_field(&mut entries, "role", self.role.encode());
        push_field(&mut entries, "content", self.content.into_json());
        push_field(&mut entries, "type", text_value("message"));
        JsonValue::Object(entries)
    }
}

impl InputListItem {
    /// The wire form: a message or item reference tagged by `"type"`, or
    /// the item's own document as it is. Decoding it gives back this element,
    /// unless it is an item whose own tag is `message` or `item_reference`:
    /// such a document reads back as what its tag names.
    pub fn into_json(self) -> (r: JsonValue)
        ensures
            self.encoded_as(r),
            self is Item ==> r == self->Item_0,
            !(self is Item) || (tag_of(self->Item_0) != Some("message"@) && tag_of(self->Item_0) != Some(
                "item_reference"@,
            )) ==> InputListItem::failure(r) is None && self.decoded_from(r),
    {
        proof {
            reveal_strlit("message");
            reveal_strlit("item_reference");
            reveal_strlit("id");
            reveal_strlit("type");
            assert("message"@.len() != "item_reference"@.len());
            assert("id"@.len() != "type"@.len());
        }
        match self {
            InputListItem::Message(m) => m.into_json(),
            InputListItem::ItemRef { id } => {
                let mut entries: Vec<(String, JsonValue)> = Vec::new();
                push_field(&mut entries, "id", JsonValue::Str(id));
                push_field(&mut entries, "type", text_value("item_reference"));
                JsonValue::Object(entries)
            },
            InputListItem::Item(v) => v,
        }
    }
}

impl From<InputMessage> for InputListItem {
    fn from(m: InputMessage) -> (r: InputListItem)
        ensures
            r == InputListItem::Message(m),
    {
        InputListItem::Message(m)
    }
}

impl vstd::std_specs::convert::FromSpecImpl<InputMessage> for InputListItem {
    open spec fn obeys_from_spec() -> bool {
        true
    }

    open spec fn from_spec(m: InputMessage) -> InputListItem {
        InputListItem::Message(m)
    }
}

impl From<JsonValue> for InputListItem {
    fn from(v: JsonValue) -> (r: InputListItem)
        ensures
            r == InputListItem::Item(v),
    {
        InputListItem::Item(v)
    }
}

impl vstd::std_specs::convert::FromSpecImpl<JsonValue> for InputListItem {
    open spec fn obeys_from_spec() -> bool {
        true
    }

    open spec fn from_spec(v: JsonValue) -> InputListItem {
        InputListItem::Item(v)
    }
}

impl From<String> for ContentInput {
    fn from(s: String) -> (r: ContentInput)
        ensures
            r == ContentInput::Text(s),
    {
        ContentInput::Text(s)
    }
}

impl vstd::std_specs::convert::FromSpecImpl<String> for ContentInput {
    open spec fn obeys_from_spec() -> bool {
        true
    }

    open spec fn from_spec(s: String) -> ContentInput {
        ContentInput::Text(s)
    }
}

impl From<String> for ContentItem {
    fn from(text: String) -> (r: ContentItem)
        ensures
            r == (ContentItem::Text { text }),
    {
        ContentItem::Text { text }
    }
}

impl vstd::std_specs::convert::FromSpecImpl<String> for ContentItem {
    open spec fn obeys_from_spec() -> bool {
        true
    }

    open spec fn from_spec(text: String) -> ContentItem {
        ContentItem::Text { text }
    }
}

impl From<String> for Input {
    fn from(s: String) -> (r: Input)
        ensures
            r == Input::Text(s),
    {
        Input::Text(s)
    }
}

impl vstd::std_specs::convert::FromSpecImpl<String> for Input {
    open spec fn obeys_from_spec() -> bool {
        true
    }

    open spec fn from_spec(s: String) -> Input {
        Input::Text(s)
    }
}

impl Input {
    /// The wire form: the bare text, or the list of items. Decoding it
    /// gives back this input, provided no item of it carries the tag
    /// `message` or `item_reference` in its own document.
    pub fn into_json(self) -> (r: JsonValue)
        ensures
            self.encoded_as(r),
            self is Text ==> r == JsonValue::Str(self->Text_0),
            self is List ==> r is Array && r->Array_0@.len() == self->List_0@.len(),
            (self is List ==> forall|i: int|
                0 <= i < self->List_0@.len() ==> !((#[trigger] self->List_0@[i]) is Item && (tag_of(
                    self->List_0@[i]->Item_0,
                ) == Some("message"@) || tag_of(self->List_0@[i]->Item_0) == Some("item_reference"@))))
                ==> Input::failure(r) is None && self.decoded_from(r),
    {
        match self {
            Input::Text(s) => JsonValue::Str(s),
            Input::List(items) => {
                let ghost whole = items@;
                let mut rest = items;
                let mut out: Vec<JsonValue> = Vec::new();
                while rest.len() > 0
                    invariant
                        out@.len() + rest@.len() == whole.len(),
                        rest@ == whole.subrange(out@.len() as int, whole.len() as int),
                        forall|i: int|
                            0 <= i < out@.len() ==> (!((#[trigger] whole[i]) is Item && (tag_of(
                                whole[i]->Item_0,
                            ) == Some("message"@) || tag_of(whole[i]->Item_0) == Some("item_reference"@))))
                                ==> InputListItem::failure(out@[i]) is None && whole[i].decoded_from(out@[i]),
                        forall|i: int| 0 <= i < out@.len() ==> (#[trigger] whole[i]).encoded_as(out@[i]),
                    decreases rest@.len(),
                {
                    let ghost before = rest@;
                    let item = rest.remove(0);
                    assert(rest@ =~= before.drop_first());
                    assert(item == whole[out@.len() as int]);
                    out.push(item.into_json());
                }
                proof {
                    if forall|i: int|
                        0 <= i < whole.len() ==> !((#[trigger] whole[i]) is Item && (tag_of(whole[i]->Item_0)
                            == Some("message"@) || tag_of(whole[i]->Item_0) == Some("item_reference"@))) {
                        assert forall|i: int| 0 <= i < out@.len() implies InputListItem::failure(
                            #[trigger] out@[i],
                        ) is None by {
                            assert(!(whole[i] is Item && (tag_of(whole[i]->Item_0) == Some("message"@) || tag_of(
                                whole[i]->Item_0,
                            ) == Some("item_reference"@))));
                        }
                        lemma_no_item_failure(out@);
                    }
                }
                JsonValue::Array(out)
            },
        }
    }
}

/// The request to create a model response.
#[derive(Debug)]
pub struct Request {
    /// The model that generates the response.
    pub model: Model,
    /// Text, image or file inputs to the model.
    pub input: Input,
    /// Additional output data to include in the response.
    pub included: Option<Vec<Include>>,
    /// A system (or developer) message inserted first in the model's context.
    pub instructions: Option<String>,
    /// An upper bound on the tokens generated for the response.
    pub max_output_tokens: Option<u64>,
    /// Key-value pairs attached to the response; where a key occurs twice,
    /// the later pair counts.
    pub metadata: Option<Vec<(String, String)>>,
    /// Whether the model may run tool calls in parallel.
    pub parallel_tool_calls: Option<bool>,
    /// The ID of the previous response, for multi-turn conversations.
    pub previous_response_id: Option<String>,
    /// Configuration options for reasoning models.
    pub reasoning: Option<ReasoningConfig>,
    /// The latency tier for processing the request.
    pub service_tier: Option<ServiceTier>,
    /// Whether to store the response for later retrieval.
    pub store: Option<bool>,
    /// Whether the response is streamed. The entry points of the client set
    /// it, whatever it held before.
    pub stream: Option<bool>,
    /// The sampling temperature, between 0 and 2.
    pub temperature: Option<JsonNumber>,
    /// Configuration of a text response.
    pub text: Option<TextConfig>,
    /// How the model selects tools.
    pub tool_choice: Option<ToolChoice>,
    /// The tools the model may call.
    pub tools: Option<Vec<Tool>>,
    /// The probability mass for nucleus sampling.
    pub top_p: Option<JsonNumber>,
    /// The truncation strategy.
    pub truncation: Option<Truncation>,
    /// An identifier of the end user.
    pub user: Option<String>,
}

impl Default for Request {
    fn default() -> (r: Request)
        ensures
            r.model == Model::GPT4o,
            r.input is Text && r.input->Text_0@.len() == 0,
            r.included is None,
            r.instructions is None,
            r.max_output_tokens is None,
            r.metadata is None,
            r.parallel_tool_calls is None,
            r.previous_response_id is None,
            r.reasoning is None,
            r.service_tier is None,
            r.store is None,
            r.stream is None,
            r.temperature is None,
            r.text is None,
            r.tool_choice is None,
            r.tools is None,
            r.top_p is None,
            r.truncation is None,
            r.user is None,
    {
        Request {
            model: Model::GPT4o,
            input: Input::Text(String::new()),
            included: None,
            instructions: None,
            max_output_tokens: None,
            metadata: None,
            parallel_tool_calls: None,
            previous_response_id: None,
            reasoning: None,
            service_tier: None,
            store: None,
            stream: None,
            temperature: None,
            text: None,
            tool_choice: None,
            tools: None,
            top_p: None,
            truncation: None,
            user: None,
        }
    }
}

/// The boolean value of an optional field, where it is set.
pub open spec fn optional_bool(b: Option<bool>) -> Option<JsonValue> {
    match b {
        Some(x) => Some(JsonValue::Bool(x)),
        None => None,
    }
}

/// The number value of an optional field, where it is set.
pub open spec fn optional_count(n: Option<u64>) -> Option<JsonValue> {
    match n {
        Some(x) => Some(JsonValue::Number(JsonNumber::Unsigned(x))),
        None => None,
    }
}

/// The number value of an optional field, where it is set.
pub open spec fn optional_number(n: Option<JsonNumber>) -> Option<JsonValue> {
    match n {
        Some(x) => Some(JsonValue::Number(x)),
        None => None,
    }
}

/// Whether `v` is a list of the wire names of `words`, in order.
pub open spec fn words_in(v: JsonValue, words: Vec<Include>) -> bool {
    &&& v is Array
    &&& v->Array_0@.len() == words@.len()
    &&& forall|i: int| 0 <= i < words@.len() ==> is_text(v->Array_0@[i], (#[trigger] words@[i]).wire())
}

/// Whether `v` is an object holding `pairs` as string entries, in order.
pub open spec fn pairs_in(v: JsonValue, pairs: Vec<(String, String)>) -> bool {
    &&& v is Object
    &&& v->Object_0@.len() == pairs@.len()
    &&& forall|i: int|
        0 <= i < pairs@.len() ==> v->Object_0@[i] == ((#[trigger] pairs@[i]).0, JsonValue::Str(pairs@[i].1))
}

/// Whether `v` is a list whose elements decode to `tools`, in order.
pub open spec fn tools_in(v: JsonValue, tools: Vec<Tool>) -> bool {
    &&& v is Array
    &&& v->Array_0@.len() == tools@.len()
    &&& forall|i: int| 0 <= i < tools@.len() ==> (#[trigger] tools@[i]).decoded_from(v->Array_0@[i])
}

/// The values under the field names of a request, in the order of
/// `is_request_key`.
pub open spec fn request_fields(e: Seq<(String, JsonValue)>) -> Seq<Option<JsonValue>> {
    seq![
            field_of(e, "model"@),
            field_of(e, "input"@),
            field_of(e, "include"@),
            field_of(e, "instructions"@),
            field_of(e, "max_output_tokens"@),
            field_of(e, "metadata"@),
            field_of(e, "parallel_tool_calls"@),
            field_of(e, "previous_response_id"@),
            field_of(e, "reasoning"@),
            field_of(e, "service_tier"@),
            field_of(e, "store"@),
            field_of(e, "stream"@),
            field_of(e, "temperature"@),
            field_of(e, "text"@),
            field_of(e, "tool_choice"@),
            field_of(e, "tools"@),
            field_of(e, "top_p"@),
            field_of(e, "truncation"@),
            field_of(e, "user"@),
    ]
}

/// Whether `k` is the name of a field of a request.
pub open spec fn is_request_key(k: Seq<char>) -> bool {
    k == "model"@ || k == "input"@ || k == "include"@ || k == "instructions"@ || k == "max_output_tokens"@ || k == "metadata"@ || k == "parallel_tool_calls"@ || k == "previous_response_id"@ || k == "reasoning"@ || k == "service_tier"@ || k == "store"@ || k == "stream"@ || k == "temperature"@ || k == "text"@ || k == "tool_choice"@ || k == "tools"@ || k == "top_p"@ || k == "truncation"@ || k == "user"@
}

impl Request {
    /// This request with its stream flag set to `streaming`.
    pub open spec fn with_stream(self, streaming: bool) -> Request {
        Request { stream: Some(streaming), ..self }
    }

    /// Whether `v` is the wire form of this request: an object that holds
    /// each field that is set, in its wire form, under the field's name, and
    /// holds nothing else; a field that is not set is absent.
    pub open spec fn encoded_as(self, v: JsonValue) -> bool {
        &&& v is Object
        &&& forall|k: Seq<char>| !is_request_key(k) ==> (#[trigger] field_of(v->Object_0@, k)) is None
        &&& self.fields_encoded(v->Object_0@)
    }

    /// Whether the entries of an object hold the fields of this request, each
    /// in its wire form, and no entry for a field that is not set.
    pub open spec fn fields_encoded(self, e: Seq<(String, JsonValue)>) -> bool {
        self.values_fit(request_fields(e))
    }

    /// Whether `vs` holds, field by field in the order of
    /// `is_request_key`, the wire form of each field of this request that is
    /// set, and `None` for each that is not.
    pub open spec fn values_fit(self, vs: Seq<Option<JsonValue>>) -> bool {
        &&& vs[0] is Some
        &&& is_text(vs[0]->Some_0, self.model.wire())
        &&& vs[1] is Some
        &&& self.input.encoded_as(vs[1]->Some_0)
        &&& match self.included {
            None => vs[2] is None,
            Some(list) => vs[2] is Some && words_in(vs[2]->Some_0, list),
        }
        &&& vs[3] == optional_text(self.instructions)
        &&& vs[4] == optional_count(self.max_output_tokens)
        &&& match self.metadata {
            None => vs[5] is None,
            Some(pairs) => vs[5] is Some && pairs_in(vs[5]->Some_0, pairs),
        }
        &&& vs[6] == optional_bool(self.parallel_tool_calls)
        &&& vs[7] == optional_text(self.previous_response_id)
        &&& match self.reasoning {
            None => vs[8] is None,
            Some(c) => vs[8] is Some && ReasoningConfig::decoding(
                vs[8]->Some_0,
            ) == Ok::<ReasoningConfig, DecodeError>(c),
        }
        &&& match self.service_tier {
            None => vs[9] is None,
            Some(t) => vs[9] is Some && is_text(vs[9]->Some_0, t.wire()),
        }
        &&& vs[10] == optional_bool(self.store)
        &&& vs[11] == optional_bool(self.stream)
        &&& vs[12] == optional_number(self.temperature)
        &&& match self.text {
            None => vs[13] is None,
            Some(c) => vs[13] is Some && TextConfig::decoding(vs[13]->Some_0) == Ok::<
                TextConfig,
                DecodeError,
            >(c),
        }
        &&& match self.tool_choice {
            None => vs[14] is None,
            Some(c) => vs[14] is Some && c.encoded_by(vs[14]->Some_0),
        }
        &&& match self.tools {
            None => vs[15] is None,
            Some(list) => vs[15] is Some && tools_in(vs[15]->Some_0, list),
        }
        &&& vs[16] == optional_number(self.top_p)
        &&& match self.truncation {
            None => vs[17] is None,
            Some(t) => vs[17] is Some && is_text(vs[17]->Some_0, t.wire()),
        }
        &&& vs[18] == optional_text(self.user)
    }

    /// The wire form: an object with the fields that are set, and no others.
    #[verifier::rlimit(50)]
    pub fn into_json(self) -> (r: JsonValue)
        ensures
            self.encoded_as(r),
    {
        proof {
            lemma_request_keys_differ();
        }
        let ghost me = self;
        let mut keys: Vec<&str> = Vec::new();
        keys.push("model");
        keys.push("input");
        keys.push("include");
        keys.push("instructions");
        keys.push("max_output_tokens");
        keys.push("metadata");
        keys.push("parallel_tool_calls");
        keys.push("previous_response_id");
        keys.push("reasoning");
        keys.push("service_tier");
        keys.push("store");
        keys.push("stream");
        keys.push("temperature");
        keys.push("text");
        keys.push("tool_choice");
        keys.push("tools");
        keys.push("top_p");
        keys.push("truncation");
        keys.push("user");
        let values = self.field_values();
        let ghost fields = values@;
        let entries = object_of(&keys, values);
        proof {
            let e = entries@;
            assert forall|k: Seq<char>| !is_request_key(k) implies (#[trigger] field_of(e, k)) is None by {
                assert(forall|j: int| 0 <= j < keys@.len() ==> keys@[j]@ != k);
            }
            assert(field_of(e, keys@[0]@) == fields[0]);
            assert(field_of(e, keys@[1]@) == fields[1]);
            assert(field_of(e, keys@[2]@) == fields[2]);
            assert(field_of(e, keys@[3]@) == fields[3]);
            assert(field_of(e, keys@[4]@) == fields[4]);
            assert(field_of(e, keys@[5]@) == fields[5]);
            assert(field_of(e, keys@[6]@) == fields[6]);
            assert(field_of(e, keys@[7]@) == fields[7]);
            assert(field_of(e, keys@[8]@) == fields[8]);
            assert(field_of(e, keys@[9]@) == fields[9]);
            assert(field_of(e, keys@[10]@) == fields[10]);
            assert(field_of(e, keys@[11]@) == fields[11]);
            assert(field_of(e, keys@[12]@) == fields[12]);
            assert(field_of(e, keys@[13]@) == fields[13]);
            assert(field_of(e, keys@[14]@) == fields[14]);
            assert(field_of(e, keys@[15]@) == fields[15]);
            assert(field_of(e, keys@[16]@) == fields[16]);
            assert(field_of(e, keys@[17]@) == fields[17]);
            assert(field_of(e, keys@[18]@) == fields[18]);
            assert(request_fields(e) =~= fields);
        }
        JsonValue::Object(entries)
    }

    /// The wire form of each field, in the order of `is_request_key`, where
    /// the field is set.
    #[verifier::rlimit(100)]
    fn field_values(self) -> (r: Vec<Option<JsonValue>>)
        ensures
            r@.len() == 19,
            self.values_fit(r@),
    {
        let ghost me = self;
        let Request {
            model,
            input,
            included,
            instructions,
            max_output_tokens,
            metadata,
            parallel_tool_calls,
            previous_response_id,
            reasoning,
            service_tier,
            store,
            stream,
            temperature,
            text,
            tool_choice,
            tools,
            top_p,
            truncation,
            user,
        } = self;
        let v0 = Some(model.encode());
        let v1 = Some(input.into_json());
        let v2 = wire_words(included);
        let v3 = wire_text(instructions);
        let v4 = wire_count(max_output_tokens);
        let v5 = wire_pairs(metadata);
        let v6 = wire_bool(parallel_tool_calls);
        let v7 = wire_text(previous_response_id);
        let v8 = wire_reasoning(reasoning);
        let v9 = wire_tier(service_tier);
        let v10 = wire_bool(store);
        let v11 = wire_bool(stream);
        let v12 = wire_number(temperature);
        let v13 = wire_text_config(text);
        let v14 = wire_choice(tool_choice);
        let v15 = wire_tools(tools);
        let v16 = wire_number(top_p);
        let v17 = wire_truncation(truncation);
        let v18 = wire_text(user);
        let ghost all = seq![v0, v1, v2, v3, v4, v5, v6, v7, v8, v9, v10, v11, v12, v13, v14, v15, v16, v17, v18];
        assert(me.values_fit(all));
        let mut values: Vec<Option<JsonValue>> = Vec::new();
        values.push(v0);
        values.push(v1);
        values.push(v2);
        values.push(v3);
        values.push(v4);
        values.push(v5);
        values.push(v6);
        values.push(v7);
        values.push(v8);
        values.push(v9);
        values.push(v10);
        values.push(v11);
        values.push(v12);
        values.push(v13);
        values.push(v14);
        values.push(v15);
        values.push(v16);
        values.push(v17);
        values.push(v18);
        assert(values@ =~= all);
        values
    }

    /// The document sent for this request by an entry point that streams
    /// (`streaming`) or not: the request with its stream flag set to match,
    /// every other field as the caller set it.
    pub fn into_wire(self, streaming: bool) -> (r: JsonValue)
        ensures
            self.with_stream(streaming).encoded_as(r),
    {
        let mut request = self;
        request.stream = Some(streaming);
        request.into_json()
    }
}

/// The wire form of an optional string field.
fn wire_text(s: Option<String>) -> (r: Option<JsonValue>)
    ensures
        r == optional_text(s),
{
    match s {
        Some(x) => Some(JsonValue::Str(x)),
        None => None,
    }
}

/// The wire form of an optional boolean field.
fn wire_bool(b: Option<bool>) -> (r: Option<JsonValue>)
    ensures
        r == optional_bool(b),
{
    match b {
        Some(x) => Some(JsonValue::Bool(x)),
        None => None,
    }
}

/// The wire form of an optional count field.
fn wire_count(n: Option<u64>) -> (r: Option<JsonValue>)
    ensures
        r == optional_count(n),
{
    match n {
        Some(x) => Some(JsonValue::Number(JsonNumber::Unsigned(x))),
        None => None,
    }
}

/// The wire form of an optional number field.
fn wire_number(n: Option<JsonNumber>) -> (r: Option<JsonValue>)
    ensures
        r == optional_number(n),
{
    match n {
        Some(x) => Some(JsonValue::Number(x)),
        None => None,
    }
}

/// The wire form of the optional list of `Include` words.
fn wire_words(l: Option<Vec<Include>>) -> (r: Option<JsonValue>)
    ensures
        match l {
            None => r is None,
            Some(list) => r is Some && words_in(r->Some_0, list),
        },
{
    match l {
        Some(list) => Some(words_array(list)),
        None => None,
    }
}

/// The wire form of the optional metadata.
fn wire_pairs(m: Option<Vec<(String, String)>>) -> (r: Option<JsonValue>)
    ensures
        match m {
            None => r is None,
            Some(pairs) => r is Some && pairs_in(r->Some_0, pairs),
        },
{
    match m {
        Some(pairs) => Some(pairs_object(pairs)),
        None => None,
    }
}

/// The wire form of the optional reasoning configuration.
fn wire_reasoning(c: Option<ReasoningConfig>) -> (r: Option<JsonValue>)
    ensures
        match c {
            None => r is None,
            Some(x) => r is Some && ReasoningConfig::decoding(r->Some_0) == Ok::<ReasoningConfig, DecodeError>(x),
        },
{
    match c {
        Some(x) => Some(x.into_json()),
        None => None,
    }
}

/// The wire form of the optional service tier.
fn wire_tier(t: Option<ServiceTier>) -> (r: Option<JsonValue>)
    ensures
        match t {
            None => r is None,
            Some(x) => r is Some && is_text(r->Some_0, x.wire()),
        },
{
    match t {
        Some(x) => Some(x.encode()),
        None => None,
    }
}

/// The wire form of the optional text configuration.
fn wire_text_config(c: Option<TextConfig>) -> (r: Option<JsonValue>)
    ensures
        match c {
            None => r is None,
            Some(x) => r is Some && TextConfig::decoding(r->Some_0) == Ok::<TextConfig, DecodeError>(x),
        },
{
    match c {
        Some(x) => Some(x.into_json()),
        None => None,
    }
}

/// The wire form of the optional tool choice.
fn wire_choice(c: Option<ToolChoice>) -> (r: Option<JsonValue>)
    ensures
        match c {
            None => r is None,
            Some(x) => r is Some && x.encoded_by(r->Some_0),
        },
{
    match c {
        Some(x) => Some(x.encode()),
        None => None,
    }
}

/// The wire form of the optional list of tools.
fn wire_tools(l: Option<Vec<Tool>>) -> (r: Option<JsonValue>)
    ensures
        match l {
            None => r is None,
            Some(list) => r is Some && tools_in(r->Some_0, list),
        },
{
    match l {
        Some(list) => Some(tools_array(list)),
        None => None,
    }
}

/// The wire form of the optional truncation strategy.
fn wire_truncation(t: Option<Truncation>) -> (r: Option<JsonValue>)
    ensures
        match t {
            None => r is None,
            Some(x) => r is Some && is_text(r->Some_0, x.wire()),
        },
{
    match t {
        Some(x) => Some(x.encode()),
        None => None,
    }
}

/// A list of `Include` words as a JSON array.
fn words_array(items: Vec<Include>) -> (r: JsonValue)
    ensures
        words_in(r, items),
{
    let mut out: Vec<JsonValue> = Vec::new();
    let mut i: usize = 0;
    while i < items.len()
        invariant
            i <= items@.len(),
            out@.len() == i,
            forall|j: int| 0 <= j < i ==> is_text(out@[j], (#[trigger] items@[j]).wire()),
        decreases items@.len() - i,
    {
        out.push(items[i].encode());
        i = i + 1;
    }
    JsonValue::Array(out)
}

/// Key-value pairs as a JSON object of strings, in order.
fn pairs_object(pairs: Vec<(String, String)>) -> (r: JsonValue)
    ensures
        pairs_in(r, pairs),
{
    let ghost whole = pairs@;
    let mut rest = pairs;
    let mut out: Vec<(String, JsonValue)> = Vec::new();
    while rest.len() > 0
        invariant
            out@.len() + rest@.len() == whole.len(),
            rest@ == whole.subrange(out@.len() as int, whole.len() as int),
            forall|i: int| 0 <= i < out@.len() ==> out@[i] == ((#[trigger] whole[i]).0, JsonValue::Str(whole[i].1)),
        decreases rest@.len(),
    {
        let ghost before = rest@;
        let (k, v) = rest.remove(0);
        assert(rest@ =~= before.drop_first());
        out.push((k, JsonValue::Str(v)));
    }
    JsonValue::Object(out)
}

/// A list of tools as a JSON array.
fn tools_array(tools: Vec<Tool>) -> (r: JsonValue)
    ensures
        tools_in(r, tools),
{
    let ghost whole = tools@;
    let mut rest = tools;
    let mut out: Vec<JsonValue> = Vec::new();
    while rest.len() > 0
        invariant
            out@.len() + rest@.len() == whole.len(),
            rest@ == whole.subrange(out@.len() as int, whole.len() as int),
            forall|i: int| 0 <= i < out@.len() ==> (#[trigger] whole[i]).decoded_from(out@[i]),
        decreases rest@.len(),
    {
        let ghost before = rest@;
        let t = rest.remove(0);
        assert(rest@ =~= before.drop_first());
        assert(t == whole[out@.len() as int]);
        out.push(t.into_json());
    }
    JsonValue::Array(out)
}

/// The field names of a request are pairwise different.
proof fn lemma_request_keys_differ()
    ensures
        "model"@ != "input"@,
        "model"@ != "include"@,
        "model"@ != "instructions"@,
        "model"@ != "max_output_tokens"@,
        "model"@ != "metadata"@,
        "model"@ != "parallel_tool_calls"@,
        "model"@ != "previous_response_id"@,
        "model"@ != "reasoning"@,
        "model"@ != "service_tier"@,
        "model"@ != "store"@,
        "model"@ != "stream"@,
        "model"@ != "temperature"@,
        "model"@ != "text"@,
        "model"@ != "tool_choice"@,
        "model"@ != "tools"@,
        "model"@ != "top_p"@,
        "model"@ != "truncation"@,
        "model"@ != "user"@,
        "input"@ != "include"@,
        "input"@ != "instructions"@,
        "input"@ != "max_output_tokens"@,
        "input"@ != "metadata"@,
        "input"@ != "parallel_tool_calls"@,
        "input"@ != "previous_response_id"@,
        "input"@ != "reasoning"@,
        "input"@ != "service_tier"@,
        "input"@ != "store"@,
        "input"@ != "stream"@,
        "input"@ != "temperature"@,
        "input"@ != "text"@,
        "input"@ != "tool_choice"@,
        "input"@ != "tools"@,
        "input"@ != "top_p"@,
        "input"@ != "truncation"@,
        "input"@ != "user"@,
        "include"@ != "instructions"@,
        "include"@ != "max_output_tokens"@,
        "include"@ != "metadata"@,
        "include"@ != "parallel_tool_calls"@,
        "include"@ != "previous_response_id"@,
        "include"@ != "reasoning"@,
        "include"@ != "service_tier"@,
        "include"@ != "store"@,
        "include"@ != "stream"@,
        "include"@ != "temperature"@,
        "include"@ != "text"@,
        "include"@ != "tool_choice"@,
        "include"@ != "tools"@,
        "include"@ != "top_p"@,
        "include"@ != "truncation"@,
        "include"@ != "user"@,
        "instructions"@ != "max_output_tokens"@,
        "instructions"@ != "metadata"@,
        "instructions"@ != "parallel_tool_calls"@,
        "instructions"@ != "previous_response_id"@,
        "instructions"@ != "reasoning"@,
        "instructions"@ != "service_tier"@,
        "instructions"@ != "store"@,
        "instructions"@ != "stream"@,
        "instructions"@ != "temperature"@,
        "instructions"@ != "text"@,
        "instructions"@ != "tool_choice"@,
        "instructions"@ != "tools"@,
        "instructions"@ != "top_p"@,
        "instructions"@ != "truncation"@,
        "instructions"@ != "user"@,
        "max_output_tokens"@ != "metadata"@,
        "max_output_tokens"@ != "parallel_tool_calls"@,
        "max_output_tokens"@ != "previous_response_id"@,
        "max_output_tokens"@ != "reasoning"@,
        "max_output_tokens"@ != "service_tier"@,
        "max_output_tokens"@ != "store"@,
        "max_output_tokens"@ != "stream"@,
        "max_output_tokens"@ != "temperature"@,
        "max_output_tokens"@ != "text"@,
        "max_output_tokens"@ != "tool_choice"@,
        "max_output_tokens"@ != "tools"@,
        "max_output_tokens"@ != "top_p"@,
        "max_output_tokens"@ != "truncation"@,
        "max_output_tokens"@ != "user"@,
        "metadata"@ != "parallel_tool_calls"@,
        "metadata"@ != "previous_response_id"@,
        "metadata"@ != "reasoning"@,
        "metadata"@ != "service_tier"@,
        "metadata"@ != "store"@,
        "metadata"@ != "stream"@,
        "metadata"@ != "temperature"@,
        "metadata"@ != "text"@,
        "metadata"@ != "tool_choice"@,
        "metadata"@ != "tools"@,
        "metadata"@ != "top_p"@,
        "metadata"@ != "truncation"@,
        "metadata"@ != "user"@,
        "parallel_tool_calls"@ != "previous_response_id"@,
        "parallel_tool_calls"@ != "reasoning"@,
        "parallel_tool_calls"@ != "service_tier"@,
        "parallel_tool_calls"@ != "store"@,
        "parallel_tool_calls"@ != "stream"@,
        "parallel_tool_calls"@ != "temperature"@,
        "parallel_tool_calls"@ != "text"@,
        "parallel_tool_calls"@ != "tool_choice"@,
        "parallel_tool_calls"@ != "tools"@,
        "parallel_tool_calls"@ != "top_p"@,
        "parallel_tool_calls"@ != "truncation"@,
        "parallel_tool_calls"@ != "user"@,
        "previous_response_id"@ != "reasoning"@,
        "previous_response_id"@ != "service_tier"@,
        "previous_response_id"@ != "store"@,
        "previous_response_id"@ != "stream"@,
        "previous_response_id"@ != "temperature"@,
        "previous_response_id"@ != "text"@,
        "previous_response_id"@ != "tool_choice"@,
        "previous_response_id"@ != "tools"@,
        "previous_response_id"@ != "top_p"@,
        "previous_response_id"@ != "truncation"@,
        "previous_response_id"@ != "user"@,
        "reasoning"@ != "service_tier"@,
        "reasoning"@ != "store"@,
        "reasoning"@ != "stream"@,
        "reasoning"@ != "temperature"@,
        "reasoning"@ != "text"@,
        "reasoning"@ != "tool_choice"@,
        "reasoning"@ != "tools"@,
        "reasoning"@ != "top_p"@,
        "reasoning"@ != "truncation"@,
        "reasoning"@ != "user"@,
        "service_tier"@ != "store"@,
        "service_tier"@ != "stream"@,
        "service_tier"@ != "temperature"@,
        "service_tier"@ != "text"@,
        "service_tier"@ != "tool_choice"@,
        "service_tier"@ != "tools"@,
        "service_tier"@ != "top_p"@,
        "service_tier"@ != "truncation"@,
        "service_tier"@ != "user"@,
        "store"@ != "stream"@,
        "store"@ != "temperature"@,
        "store"@ != "text"@,
        "store"@ != "tool_choice"@,
        "store"@ != "tools"@,
        "store"@ != "top_p"@,
        "store"@ != "truncation"@,
        "store"@ != "user"@,
        "stream"@ != "temperature"@,
        "stream"@ != "text"@,
        "stream"@ != "tool_choice"@,
        "stream"@ != "tools"@,
        "stream"@ != "top_p"@,
        "stream"@ != "truncation"@,
        "stream"@ != "user"@,
        "temperature"@ != "text"@,
        "temperature"@ != "tool_choice"@,
        "temperature"@ != "tools"@,
        "temperature"@ != "top_p"@,
        "temperature"@ != "truncation"@,
        "temperature"@ != "user"@,
        "text"@ != "tool_choice"@,
        "text"@ != "tools"@,
        "text"@ != "top_p"@,
        "text"@ != "truncation"@,
        "text"@ != "user"@,
        "tool_choice"@ != "tools"@,
        "tool_choice"@ != "top_p"@,
        "tool_choice"@ != "truncation"@,
        "tool_choice"@ != "user"@,
        "tools"@ != "top_p"@,
        "tools"@ != "truncation"@,
        "tools"@ != "user"@,
        "top_p"@ != "truncation"@,
        "top_p"@ != "user"@,
        "truncation"@ != "user"@,
{
    reveal_strlit("model");
    reveal_strlit("input");
    reveal_strlit("include");
    reveal_strlit("instructions");
    reveal_strlit("max_output_tokens");
    reveal_strlit("metadata");
    reveal_strlit("parallel_tool_calls");
    reveal_strlit("previous_response_id");
    reveal_strlit("reasoning");
    reveal_strlit("service_tier");
    reveal_strlit("store");
    reveal_strlit("stream");
    reveal_strlit("temperature");
    reveal_strlit("text");
    reveal_strlit("tool_choice");
    reveal_strlit("tools");
    reveal_strlit("top_p");
    reveal_strlit("truncation");
    reveal_strlit("user");
    assert("model"@[0] != "input"@[0]);
    assert("model"@.len() != "include"@.len());
    assert("model"@.len() != "instructions"@.len());
    assert("model"@.len() != "max_output_tokens"@.len());
    assert("model"@.len() != "metadata"@.len());
    assert("model"@.len() != "parallel_tool_calls"@.len());
    assert("model"@.len() != "previous_response_id"@.len());
    assert("model"@.len() != "reasoning"@.len());
    assert("model"@.len() != "service_tier"@.len());
    assert("model"@[0] != "store"@[0]);
    assert("model"@.len() != "stream"@.len());
    assert("model"@.len() != "temperature"@.len());
    assert("model"@.len() != "text"@.len());
    assert("model"@.len() != "tool_choice"@.len());
    assert("model"@[0] != "tools"@[0]);
    assert("model"@[0] != "top_p"@[0]);
    assert("model"@.len() != "truncation"@.len());
    assert("model"@.len() != "user"@.len());
    assert("input"@.len() != "include"@.len());
    assert("input"@.len() != "instructions"@.len());
    assert("input"@.len() != "max_output_tokens"@.len());
    assert("input"@.len() != "metadata"@.len());
    assert("input"@.len() != "parallel_tool_calls"@.len());
    assert("input"@.len() != "previous_response_id"@.len());
    assert("input"@.len() != "reasoning"@.len());
    assert("input"@.len() != "service_tier"@.len());
    assert("input"@[0] != "store"@[0]);
    assert("input"@.len() != "stream"@.len());
    assert("input"@.len() != "temperature"@.len());
    assert("input"@.len() != "text"@.len());
    assert("input"@.len() != "tool_choice"@.len());
    assert("input"@[0] != "tools"@[0]);
    assert("input"@[0] != "top_p"@[0]);
    assert("input"@.len() != "truncation"@.len());
    assert("input"@.len() != "user"@.len());
    assert("include"@.len() != "instructions"@.len());
    assert("include"@.len() != "max_output_tokens"@.len());
    assert("include"@.len() != "metadata"@.len());
    assert("include"@.len() != "parallel_tool_calls"@.len());
    assert("include"@.len() != "previous_response_id"@.len());
    assert("include"@.len() != "reasoning"@.len());
    assert("include"@.len() != "service_tier"@.len());
    assert("include"@.len() != "store"@.len());
    assert("include"@.len() != "stream"@.len());
    assert("include"@.len() != "temperature"@.len());
    assert("include"@.len() != "text"@.len());
    assert("include"@.len() != "tool_choice"@.len());
    assert("include"@.len() != "tools"@.len());
    assert("include"@.len() != "top_p"@.len());
    assert("include"@.len() != "truncation"@.len());
    assert("include"@.len() != "user"@.len());
    assert("instructions"@.len() != "max_output_tokens"@.len());
    assert("instructions"@.len() != "metadata"@.len());
    assert("instructions"@.len() != "parallel_tool_calls"@.len());
    assert("instructions"@.len() != "previous_response_id"@.len());
    assert("instructions"@.len() != "reasoning"@.len());
    assert("instructions"@[0] != "service_tier"@[0]);
    assert("instructions"@.len() != "store"@.len());
    assert("instructions"@.len() != "stream"@.len());
    assert("instructions"@.len() != "temperature"@.len());
    assert("instructions"@.len() != "text"@.len());
    assert("instructions"@.len() != "tool_choice"@.len());
    assert("instructions"@.len() != "tools"@.len());
    assert("instructions"@.len() != "top_p"@.len());
    assert("instructions"@.len() != "truncation"@.len());
    assert("instructions"@.len() != "user"@.len());
    assert("max_output_tokens"@.len() != "metadata"@.len());
    assert("max_output_tokens"@.len() != "parallel_tool_calls"@.len());
    assert("max_output_tokens"@.len() != "previous_response_id"@.len());
    assert("max_output_tokens"@.len() != "reasoning"@.len());
    assert("max_output_tokens"@.len() != "service_tier"@.len());
    assert("max_output_tokens"@.len() != "store"@.len());
    assert("max_output_tokens"@.len() != "stream"@.len());
    assert("max_output_tokens"@.len() != "temperature"@.len());
    assert("max_output_tokens"@.len() != "text"@.len());
    assert("max_output_tokens"@.len() != "tool_choice"@.len());
    assert("max_output_tokens"@.len() != "tools"@.len());
    assert("max_output_tokens"@.len() != "top_p"@.len());
    assert("max_output_tokens"@.len() != "truncation"@.len());
    assert("max_output_tokens"@.len() != "user"@.len());
    assert("metadata"@.len() != "parallel_tool_calls"@.len());
    assert("metadata"@.len() != "previous_response_id"@.len());
    assert("metadata"@.len() != "reasoning"@.len());
    assert("metadata"@.len() != "service_tier"@.len());
    assert("metadata"@.len() != "store"@.len());
    assert("metadata"@.len() != "stream"@.len());
    assert("metadata"@.len() != "temperature"@.len());
    assert("metadata"@.len() != "text"@.len());
    assert("metadata"@.len() != "tool_choice"@.len());
    assert("metadata"@.len() != "tools"@.len());
    assert("metadata"@.len() != "top_p"@.len());
    assert("metadata"@.len() != "truncation"@.len());
    assert("metadata"@.len() != "user"@.len());
    assert("parallel_tool_calls"@.len() != "previous_response_id"@.len());
    assert("parallel_tool_calls"@.len() != "reasoning"@.len());
    assert("parallel_tool_calls"@.len() != "service_tier"@.len());
    assert("parallel_tool_calls"@.len() != "store"@.len());
    assert("parallel_tool_calls"@.len() != "stream"@.len());
    assert("parallel_tool_calls"@.len() != "temperature"@.len());
    assert("parallel_tool_calls"@.len() != "text"@.len());
    assert("parallel_tool_calls"@.len() != "tool_choice"@.len());
    assert("parallel_tool_calls"@.len() != "tools"@.len());
    assert("parallel_tool_calls"@.len() != "top_p"@.len());
    assert("parallel_tool_calls"@.len() != "truncation"@.len());
    assert("parallel_tool_calls"@.len() != "user"@.len());
    assert("previous_response_id"@.len() != "reasoning"@.len());
    assert("previous_response_id"@.len() != "service_tier"@.len());
    assert("previous_response_id"@.len() != "store"@.len());
    assert("previous_response_id"@.len() != "stream"@.len());
    assert("previous_response_id"@.len() != "temperature"@.len());
    assert("previous_response_id"@.len() != "text"@.len());
    assert("previous_response_id"@.len() != "tool_choice"@.len());
    assert("previous_response_id"@.len() != "tools"@.len());
    assert("previous_response_id"@.len() != "top_p"@.len());
    assert("previous_response_id"@.len() != "truncation"@.len());
    assert("previous_response_id"@.len() != "user"@.len());
    assert("reasoning"@.len() != "service_tier"@.len());
    assert("reasoning"@.len() != "store"@.len());
    assert("reasoning"@.len() != "stream"@.len());
    assert("reasoning"@.len() != "temperature"@.len());
    assert("reasoning"@.len() != "text"@.len());
    assert("reasoning"@.len() != "tool_choice"@.len());
    assert("reasoning"@.len() != "tools"@.len());
    assert("reasoning"@.len() != "top_p"@.len());
    assert("reasoning"@.len() != "truncation"@.len());
    assert("reasoning"@.len() != "user"@.len());
    assert("service_tier"@.len() != "store"@.len());
    assert("service_tier"@.len() != "stream"@.len());
    assert("service_tier"@.len() != "temperature"@.len());
    assert("service_tier"@.len() != "text"@.len());
    assert("service_tier"@.len() != "tool_choice"@.len());
    assert("service_tier"@.len() != "tools"@.len());
    assert("service_tier"@.len() != "top_p"@.len());
    assert("service_tier"@.len() != "truncation"@.len());
    assert("service_tier"@.len() != "user"@.len());
    assert("store"@.len() != "stream"@.len());
    assert("store"@.len() != "temperature"@.len());
    assert("store"@.len() != "text"@.len());
    assert("store"@.len() != "tool_choice"@.len());
    assert("store"@[0] != "tools"@[0]);
    assert("store"@[0] != "top_p"@[0]);
    assert("store"@.len() != "truncation"@.len());
    assert("store"@.len() != "user"@.len());
    assert("stream"@.len() != "temperature"@.len());
    assert("stream"@.len() != "text"@.len());
    assert("stream"@.len() != "tool_choice"@.len());
    assert("stream"@.len() != "tools"@.len());
    assert("stream"@.len() != "top_p"@.len());
    assert("stream"@.len() != "truncation"@.len());
    assert("stream"@.len() != "user"@.len());
    assert("temperature"@.len() != "text"@.len());
    assert("temperature"@[1] != "tool_choice"@[1]);
    assert("temperature"@.len() != "tools"@.len());
    assert("temperature"@.len() != "top_p"@.len());
    assert("temperature"@.len() != "truncation"@.len());
    assert("temperature"@.len() != "user"@.len());
    assert("text"@.len() != "tool_choice"@.len());
    assert("text"@.len() != "tools"@.len());
    assert("text"@.len() != "top_p"@.len());
    assert("text"@.len() != "truncation"@.len());
    assert("text"@[0] != "user"@[0]);
    assert("tool_choice"@.len() != "tools"@.len());
    assert("tool_choice"@.len() != "top_p"@.len());
    assert("tool_choice"@.len() != "truncation"@.len());
    assert("tool_choice"@.len() != "user"@.len());
    assert("tools"@[2] != "top_p"@[2]);
    assert("tools"@.len() != "truncation"@.len());
    assert("tools"@.len() != "user"@.len());
    assert("top_p"@.len() != "truncation"@.len());
    assert("top_p"@.len() != "user"@.len());
    assert("truncation"@.len() != "user"@.len());
}

/// The role under a required field.
pub open spec fn want_role(f: Option<JsonValue>) -> Result<Role, DecodeError> {
    match f {
        None => Err(DecodeError::MissingField("role")),
        Some(JsonValue::Str(s)) => match Role::named(s@) {
            Some(x) => Ok(x),
            None => Err(DecodeError::UnknownVariant { found: s, expected: ROLE_WORDS }),
        },
        Some(_) => Err(DecodeError::InvalidType { expected: "a string" }),
    }
}

/// The role under a required field.
fn take_role(f: Option<JsonValue>) -> (r: Result<Role, DecodeError>)
    ensures
        r == want_role(f),
{
    match f {
        None => Err(DecodeError::MissingField("role")),
        Some(JsonValue::Str(s)) => match Role::from_wire(s.as_str()) {
            Some(x) => Ok(x),
            None => Err(DecodeError::UnknownVariant { found: s, expected: ROLE_WORDS }),
        },
        Some(_) => Err(DecodeError::InvalidType { expected: "a string" }),
    }
}

/// The error of the first element of `vs` that holds no content item.
pub open spec fn first_content_failure(vs: Seq<JsonValue>) -> Option<DecodeError>
    decreases vs.len(),
{
    if vs.len() == 0 {
        None
    } else {
        match ContentItem::decoding(vs[0]) {
            Err(e) => Some(e),
            Ok(_) => first_content_failure(vs.drop_first()),
        }
    }
}

impl ContentInput {
    /// Why a document holds no message content, if it holds some.
    pub open spec fn failure(v: JsonValue) -> Option<DecodeError> {
        match v {
            JsonValue::Str(_) => None,
            JsonValue::Array(vs) => first_content_failure(vs@),
            _ => Some(DecodeError::InvalidType { expected: "a string or a list" }),
        }
    }

    /// Whether this content is what `v` decodes to: its text, or the item
    /// each element of its list decodes to.
    pub open spec fn decoded_from(self, v: JsonValue) -> bool {
        match (self, v) {
            (ContentInput::Text(s), JsonValue::Str(t)) => s == t,
            (ContentInput::List(items), JsonValue::Array(vs)) => {
                &&& items@.len() == vs@.len()
                &&& forall|i: int|
                    0 <= i < vs@.len() ==> ContentItem::decoding(#[trigger] vs@[i]) == Ok::<
                        ContentItem,
                        DecodeError,
                    >(items@[i])
            },
            _ => false,
        }
    }

    /// Decodes message content: a bare text, or a list of content items.
    pub fn decode(v: JsonValue) -> (r: Result<ContentInput, DecodeError>)
        ensures
            match r {
                Ok(c) => ContentInput::failure(v) is None && c.decoded_from(v),
                Err(e) => ContentInput::failure(v) == Some(e),
            },
    {
        match v {
            JsonValue::Str(s) => Ok(ContentInput::Text(s)),
            JsonValue::Array(vs) => {
                let ghost whole = vs@;
                let mut rest = vs;
                let mut items: Vec<ContentItem> = Vec::new();
                while rest.len() > 0
                    invariant
                        v is Array && v->Array_0@ == whole,
                        items@.len() + rest@.len() == whole.len(),
                        rest@ == whole.subrange(items@.len() as int, whole.len() as int),
                        first_content_failure(whole) == first_content_failure(rest@),
                        forall|i: int|
                            0 <= i < items@.len() ==> ContentItem::decoding(#[trigger] whole[i]) == Ok::<
                                ContentItem,
                                DecodeError,
                            >(items@[i]),
                    decreases rest@.len(),
                {
                    let ghost before = rest@;
                    let x = rest.remove(0);
                    assert(rest@ =~= before.drop_first());
                    assert(x == whole[items@.len() as int]);
                    assert(before[0] == x);
                    match ContentItem::decode(x) {
                        Ok(item) => items.push(item),
                        Err(e) => {
                            assert(first_content_failure(before) == Some(e));
                            return Err(e);
                        },
                    }
                }
                assert(items@.len() == whole.len());
                Ok(ContentInput::List(items))
            },
            _ => Err(DecodeError::InvalidType { expected: "a string or a list" }),
        }
    }
}

impl InputMessage {
    /// Why the entries of an object hold no message, if they hold one.
    pub open spec fn failure(entries: Seq<(String, JsonValue)>) -> Option<DecodeError> {
        match want_role(field_of(entries, "role"@)) {
            Err(e) => Some(e),
            Ok(_) => match field_of(entries, "content"@) {
                None => Some(DecodeError::MissingField("content")),
                Some(c) => ContentInput::failure(c),
            },
        }
    }

    /// Whether this message is what the entries of an object decode to.
    pub open spec fn decoded_from(self, entries: Seq<(String, JsonValue)>) -> bool {
        &&& want_role(field_of(entries, "role"@)) == Ok::<Role, DecodeError>(self.role)
        &&& field_of(entries, "content"@) is Some
        &&& self.content.decoded_from(field_of(entries, "content"@)->Some_0)
    }

    /// Decodes a message from the entries of an object.
    pub fn decode_entries(entries: Vec<(String, JsonValue)>) -> (r: Result<InputMessage, DecodeError>)
        ensures
            match r {
                Ok(m) => InputMessage::failure(entries@) is None && m.decoded_from(entries@),
                Err(e) => InputMessage::failure(entries@) == Some(e),
            },
    {
        proof {
            reveal_strlit("role");
            reveal_strlit("content");
            assert("role"@.len() != "content"@.len());
        }
        let mut keys: Vec<&str> = Vec::new();
        keys.push("role");
        keys.push("content");
        let mut found = take_fields(entries, &keys);
        let content_found = found.pop().unwrap();
        let role_found = found.pop().unwrap();
        let role = match take_role(role_found) {
            Ok(x) => x,
            Err(e) => return Err(e),
        };
        let content = match content_found {
            None => return Err(DecodeError::MissingField("content")),
            Some(c) => match ContentInput::decode(c) {
                Ok(x) => x,
                Err(e) => return Err(e),
            },
        };
        Ok(InputMessage { role, content })
    }
}

/// The tag of an object, where it has a string under `"type"`.
pub open spec fn tag_of(v: JsonValue) -> Option<Seq<char>> {
    match v {
        JsonValue::Object(entries) => match field_of(entries@, "type"@) {
            Some(JsonValue::Str(t)) => Some(t@),
            _ => None,
        },
        _ => None,
    }
}

impl InputListItem {
    /// Why a document holds no input list element, if it holds one. Only a
    /// message or an item reference can fail: any other document is an item.
    pub open spec fn failure(v: JsonValue) -> Option<DecodeError> {
        if tag_of(v) == Some("message"@) {
            InputMessage::failure(v->Object_0@)
        } else if tag_of(v) == Some("item_reference"@) {
            match want_text(field_of(v->Object_0@, "id"@), "id") {
                Err(e) => Some(e),
                Ok(_) => None,
            }
        } else {
            None
        }
    }

    /// Whether this element is what `v` decodes to: a message for the tag
    /// `message`, a reference for the tag `item_reference`, and otherwise the
    /// item that the whole document is.
    pub open spec fn decoded_from(self, v: JsonValue) -> bool {
        if tag_of(v) == Some("message"@) {
            self is Message && self->Message_0.decoded_from(v->Object_0@)
        } else if tag_of(v) == Some("item_reference"@) {
            self is ItemRef && want_text(field_of(v->Object_0@, "id"@), "id") == Ok::<String, DecodeError>(
                self->id,
            )
        } else {
            self == InputListItem::Item(v)
        }
    }

    /// Whether `v` is an object whose `"type"` holds `tag`.
    fn has_tag(v: &JsonValue, tag: &str) -> (r: bool)
        ensures
            r == (tag_of(*v) == Some(tag@)),
    {
        match v {
            JsonValue::Object(entries) => match find_field(entries, "type") {
                Some(i) => match &entries[i].1 {
                    JsonValue::Str(t) => same_text(t.as_str(), tag),
                    _ => false,
                },
                None => false,
            },
            _ => false,
        }
    }

    /// Decodes one element of an input list.
    pub fn decode(v: JsonValue) -> (r: Result<InputListItem, DecodeError>)
        ensures
            match r {
                Ok(x) => InputListItem::failure(v) is None && x.decoded_from(v),
                Err(e) => InputListItem::failure(v) == Some(e),
            },
    {
        if InputListItem::has_tag(&v, "message") {
            match v {
                JsonValue::Object(entries) => match InputMessage::decode_entries(entries) {
                    Ok(m) => Ok(InputListItem::Message(m)),
                    Err(e) => Err(e),
                },
                _ => Err(DecodeError::InvalidType { expected: "an object" }),
            }
        } else if InputListItem::has_tag(&v, "item_reference") {
            match v {
                JsonValue::Object(entries) => {
                    let mut keys: Vec<&str> = Vec::new();
                    keys.push("id");
                    let mut found = take_fields(entries, &keys);
                    match take_text(found.pop().unwrap(), "id") {
                        Ok(id) => Ok(InputListItem::ItemRef { id }),
                        Err(e) => Err(e),
                    }
                },
                _ => Err(DecodeError::InvalidType { expected: "an object" }),
            }
        } else {
            Ok(InputListItem::Item(v))
        }
    }
}

/// Where every element holds a content item, no element fails.
proof fn lemma_no_content_failure(vs: Seq<JsonValue>)
    requires
        forall|i: int| 0 <= i < vs.len() ==> (#[trigger] ContentItem::decoding(vs[i])) is Ok,
    ensures
        first_content_failure(vs) is None,
    decreases vs.len(),
{
    if vs.len() > 0 {
        assert(ContentItem::decoding(vs[0]) is Ok);
        assert forall|i: int| 0 <= i < vs.drop_first().len() implies (#[trigger] ContentItem::decoding(
            vs.drop_first()[i],
        )) is Ok by {
            assert(vs.drop_first()[i] == vs[i + 1]);
        }
        lemma_no_content_failure(vs.drop_first());
    }
}

/// Where every element holds an input list element, no element fails.
proof fn lemma_no_item_failure(vs: Seq<JsonValue>)
    requires
        forall|i: int| 0 <= i < vs.len() ==> (#[trigger] InputListItem::failure(vs[i])) is None,
    ensures
        first_item_failure(vs) is None,
    decreases vs.len(),
{
    if vs.len() > 0 {
        assert(InputListItem::failure(vs[0]) is None);
        assert forall|i: int| 0 <= i < vs.drop_first().len() implies (#[trigger] InputListItem::failure(
            vs.drop_first()[i],
        )) is None by {
            assert(vs.drop_first()[i] == vs[i + 1]);
        }
        lemma_no_item_failure(vs.drop_first());
    }
}

/// The error of the first element of `vs` that holds no input list element.
pub open spec fn first_item_failure(vs: Seq<JsonValue>) -> Option<DecodeError>
    decreases vs.len(),
{
    if vs.len() == 0 {
        None
    } else {
        match InputListItem::failure(vs[0]) {
            Some(e) => Some(e),
            None => first_item_failure(vs.drop_first()),
        }
    }
}

impl Input {
    /// Why a document holds no input, if it holds one: only a text or a list
    /// is an input.
    pub open spec fn failure(v: JsonValue) -> Option<DecodeError> {
        match v {
            JsonValue::Str(_) => None,
            JsonValue::Array(vs) => first_item_failure(vs@),
            _ => Some(DecodeError::InvalidType { expected: "a string or a list" }),
        }
    }

    /// Whether this input is what `v` decodes to: its text, or the element
    /// each entry of its list decodes to.
    pub open spec fn decoded_from(self, v: JsonValue) -> bool {
        match (self, v) {
            (Input::Text(s), JsonValue::Str(t)) => s == t,
            (Input::List(items), JsonValue::Array(vs)) => {
                &&& items@.len() == vs@.len()
                &&& forall|i: int| 0 <= i < vs@.len() ==> (#[trigger] items@[i]).decoded_from(vs@[i])
            },
            _ => false,
        }
    }

    /// Decodes an input: a bare text, or a list whose elements are
    /// messages, item references or, failing a known tag, items.
    pub fn decode(v: JsonValue) -> (r: Result<Input, DecodeError>)
        ensures
            match r {
                Ok(x) => Input::failure(v) is None && x.decoded_from(v),
                Err(e) => Input::failure(v) == Some(e),
            },
    {
        match v {
            JsonValue::Str(s) => Ok(Input::Text(s)),
            JsonValue::Array(vs) => {
                let ghost whole = vs@;
                let mut rest = vs;
                let mut items: Vec<InputListItem> = Vec::new();
                while rest.len() > 0
                    invariant
                        v is Array && v->Array_0@ == whole,
                        items@.len() + rest@.len() == whole.len(),
                        rest@ == whole.subrange(items@.len() as int, whole.len() as int),
                        first_item_failure(whole) == first_item_failure(rest@),
                        forall|i: int| 0 <= i < items@.len() ==> (#[trigger] items@[i]).decoded_from(whole[i]),
                    decreases rest@.len(),
                {
                    let ghost before = rest@;
                    let x = rest.remove(0);
                    assert(rest@ =~= before.drop_first());
                    assert(x == whole[items@.len() as int]);
                    assert(before[0] == x);
                    match InputListItem::decode(x) {
                        Ok(item) => items.push(item),
                        Err(e) => {
                            assert(first_item_failure(before) == Some(e));
                            return Err(e);
                        },
                    }
                }
                Ok(Input::List(items))
            },
            _ => Err(DecodeError::InvalidType { expected: "a string or a list" }),
        }
    }

    /// Reads an input from JSON text.
    pub fn from_json(text: &str) -> (r: Result<Input, DecodeError>)
        ensures
            json_reading(text@) is None ==> r == Err::<Input, DecodeError>(DecodeError::Syntax),
            json_reading(text@) is Some ==> match r {
                Ok(x) => Input::failure(json_reading(text@)->Some_0) is None && x.decoded_from(
                    json_reading(text@)->Some_0,
                ),
                Err(e) => Input::failure(json_reading(text@)->Some_0) == Some(e),
            },
    {
        match read_json(text) {
            Some(v) => Input::decode(v),
            None => Err(DecodeError::Syntax),
        }
    }
}

/// The words that a `Role` may be.
pub const ROLE_WORDS: &'static str = "user, system, assistant, developer";

impl Role {
    /// The value that a document holds, or why it holds none.
    pub open spec fn decoding(v: JsonValue) -> Result<Role, DecodeError> {
        match v {
            JsonValue::Str(s) => match Role::named(s@) {
                Some(x) => Ok(x),
                None => Err(DecodeError::UnknownVariant { found: s, expected: ROLE_WORDS }),
            },
            _ => Err(DecodeError::InvalidType { expected: "a string" }),
        }
    }

    /// Decodes a value from its wire name.
    pub fn decode(v: JsonValue) -> (r: Result<Role, DecodeError>)
        ensures
            r == Role::decoding(v),
    {
        match v {
            JsonValue::Str(s) => match Role::from_wire(s.as_str()) {
                Some(x) => Ok(x),
                None => Err(DecodeError::UnknownVariant { found: s, expected: ROLE_WORDS }),
            },
            _ => Err(DecodeError::InvalidType { expected: "a string" }),
        }
    }
}

/// The words that a `MessageStatus` may be.
pub const MESSAGE_STATUS_WORDS: &'static str = "in_progress, completed, incomplete";

impl MessageStatus {
    /// The value that a document holds, or why it holds none.
    pub open spec fn decoding(v: JsonValue) -> Result<MessageStatus, DecodeError> {
        match v {
            JsonValue::Str(s) => match MessageStatus::named(s@) {
                Some(x) => Ok(x),
                None => Err(DecodeError::UnknownVariant { found: s, expected: MESSAGE_STATUS_WORDS }),
            },
            _ => Err(DecodeError::InvalidType { expected: "a string" }),
        }
    }

    /// Decodes a value from its wire name.
    pub fn decode(v: JsonValue) -> (r: Result<MessageStatus, DecodeError>)
        ensures
            r == MessageStatus::decoding(v),
    {
        match v {
            JsonValue::Str(s) => match MessageStatus::from_wire(s.as_str()) {
                Some(x) => Ok(x),
                None => Err(DecodeError::UnknownVariant { found: s, expected: MESSAGE_STATUS_WORDS }),
            },
            _ => Err(DecodeError::InvalidType { expected: "a string" }),
        }
    }
}

/// The words that a `ImageDetail` may be.
pub const IMAGE_DETAIL_WORDS: &'static str = "auto, low, high, medium";

impl ImageDetail {
    /// The value that a document holds, or why it holds none.
    pub open spec fn decoding(v: JsonValue) -> Result<ImageDetail, DecodeError> {
        match v {
            JsonValue::Str(s) => match ImageDetail::named(s@) {
                Some(x) => Ok(x),
                None => Err(DecodeError::UnknownVariant { found: s, expected: IMAGE_DETAIL_WORDS }),
            },
            _ => Err(DecodeError::InvalidType { expected: "a string" }),
        }
    }

    /// Decodes a value from its wire name.
    pub fn decode(v: JsonValue) -> (r: Result<ImageDetail, DecodeError>)
        ensures
            r == ImageDetail::decoding(v),
    {
        match v {
            JsonValue::Str(s) => match ImageDetail::from_wire(s.as_str()) {
                Some(x) => Ok(x),
                None => Err(DecodeError::UnknownVariant { found: s, expected: IMAGE_DETAIL_WORDS }),
            },
            _ => Err(DecodeError::InvalidType { expected: "a string" }),
        }
    }
}

/// The words that a `Include` may be.
pub const INCLUDE_WORDS: &'static str = "file_search_call.results, message.input_image.image_url, computer_call_output.output.image_url";

impl Include {
    /// The value that a document holds, or why it holds none.
    pub open spec fn decoding(v: JsonValue) -> Result<Include, DecodeError> {
        match v {
            JsonValue::Str(s) => match Include::named(s@) {
                Some(x) => Ok(x),
                None => Err(DecodeError::UnknownVariant { found: s, expected: INCLUDE_WORDS }),
            },
            _ => Err(DecodeError::InvalidType { expected: "a string" }),
        }
    }

    /// Decodes a value from its wire name.
    pub fn decode(v: JsonValue) -> (r: Result<Include, DecodeError>)
        ensures
            r == Include::decoding(v),
    {
        match v {
            JsonValue::Str(s) => match Include::from_wire(s.as_str()) {
                Some(x) => Ok(x),
                None => Err(DecodeError::UnknownVariant { found: s, expected: INCLUDE_WORDS }),
            },
            _ => Err(DecodeError::InvalidType { expected: "a string" }),
        }
    }
}
impl InputListItem {
    /// Whether `v` is the wire form of this element: a message object tagged
    /// `message` whose entries decode to it, a reference object tagged
    /// `item_reference` holding its ID, or the item's own document.
    pub open spec fn encoded_as(self, v: JsonValue) -> bool {
        match self {
            InputListItem::Message(m) => v is Object && tag_of(v) == Some("message"@) && m.decoded_from(
                v->Object_0@,
            ),
            InputListItem::ItemRef { id } => v is Object && tag_of(v) == Some("item_reference"@) && field_of(
                v->Object_0@,
                "id"@,
            ) == Some(JsonValue::Str(id)),
            InputListItem::Item(x) => v == x,
        }
    }
}

impl Input {
    /// Whether `v` is the wire form of this input: its bare text, or a list
    /// holding the wire form of each element in order.
    pub open spec fn encoded_as(self, v: JsonValue) -> bool {
        match self {
            Input::Text(s) => v == JsonValue::Str(s),
            Input::List(items) => {
                &&& v is Array
                &&& v->Array_0@.len() == items@.len()
                &&& forall|i: int| 0 <= i < items@.len() ==> (#[trigger] items@[i]).encoded_as(v->Array_0@[i])
            },
        }
    }
}

/// The `MessageStatus` under an optional field: absent and `null` both give `None`.
pub open spec fn want_status(f: Option<JsonValue>) -> Result<Option<MessageStatus>, DecodeError> {
    match f {
        None => Ok(None),
        Some(JsonValue::Null) => Ok(None),
        Some(v) => match MessageStatus::decoding(v) {
            Ok(x) => Ok(Some(x)),
            Err(e) => Err(e),
        },
    }
}

/// The `MessageStatus` under an optional field: absent and `null` both give `None`.
fn take_status(f: Option<JsonValue>) -> (r: Result<Option<MessageStatus>, DecodeError>)
    ensures
        r == want_status(f),
{
    match f {
        None => Ok(None),
        Some(JsonValue::Null) => Ok(None),
        Some(v) => match MessageStatus::decode(v) {
            Ok(x) => Ok(Some(x)),
            Err(e) => Err(e),
        },
    }
}

/// The field names of a returned message are pairwise different.
proof fn lemma_api_message_keys_differ()
    ensures
        "role"@ != "content"@,
        "role"@ != "status"@,
        "content"@ != "status"@,
{
    reveal_strlit("role");
    reveal_strlit("content");
    reveal_strlit("status");
    assert("role"@.len() != "content"@.len());
    assert("role"@.len() != "status"@.len());
    assert("content"@.len() != "status"@.len());
}

impl APIInputMessage {
    /// The returned message that a document holds, or why it holds none.
    pub open spec fn decoding(v: JsonValue) -> Result<APIInputMessage, DecodeError> {
        match v {
            JsonValue::Object(e) => match want_role(field_of(e@, "role"@)) {
                Err(x) => Err(x),
                Ok(role) => match field_of(e@, "content"@) {
                    None => Err(DecodeError::MissingField("content")),
                    Some(c) => match ContentItem::decoding(c) {
                        Err(x) => Err(x),
                        Ok(content) => match want_status(field_of(e@, "status"@)) {
                            Err(x) => Err(x),
                            Ok(status) => Ok(APIInputMessage { role, content, status }),
                        },
                    },
                },
            },
            _ => Err(DecodeError::InvalidType { expected: "an object" }),
        }
    }

    /// Decodes a message as the service returns it.
    pub fn decode(v: JsonValue) -> (r: Result<APIInputMessage, DecodeError>)
        ensures
            r == APIInputMessage::decoding(v),
    {
        let entries = match v {
            JsonValue::Object(entries) => entries,
            _ => return Err(DecodeError::InvalidType { expected: "an object" }),
        };
        proof {
            lemma_api_message_keys_differ();
        }
        let mut keys: Vec<&str> = Vec::new();
        keys.push("role");
        keys.push("content");
        keys.push("status");
        let mut found = take_fields(entries, &keys);
        let status_found = found.pop().unwrap();
        let content_found = found.pop().unwrap();
        let role_found = found.pop().unwrap();
        let role = match take_role(role_found) {
            Ok(x) => x,
            Err(e) => return Err(e),
        };
        let content = match content_found {
            None => return Err(DecodeError::MissingField("content")),
            Some(c) => match ContentItem::decode(c) {
                Ok(x) => x,
                Err(e) => return Err(e),
            },
        };
        let status = match take_status(status_found) {
            Ok(x) => x,
            Err(e) => return Err(e),
        };
        Ok(APIInputMessage { role, content, status })
    }

    /// The wire form: an object with `role`, `content` and, where set,
    /// `status`. Decoding it gives back this message.
    pub fn into_json(self) -> (r: JsonValue)
        ensures
            APIInputMessage::decoding(r) == Ok::<APIInputMessage, DecodeError>(self),
    {
        proof {
            lemma_api_message_keys_differ();
            lemma_role_round_trip(self.role);
        }
        let mut entries: Vec<(String, JsonValue)> = Vec::new();
        push_field(&mut entries, "role", self.role.encode());
        push_field(&mut entries, "content", self.content.into_json());
        if let Some(s) = self.status {
            push_field(&mut entries, "status", s.encode());
        }
        JsonValue::Object(entries)
    }
}

} // verus!
