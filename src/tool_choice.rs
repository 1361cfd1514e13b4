//! How the model picks tools, and its wire codec: three bare words, three
//! one-field tagged objects and a function object that also names the function.

use crate::json::{
    all_text, entries_all_text, field_of, is_text, json_reading, lemma_field_of_text, read_json, same_text,
    take_fields, text_value, DecodeError, JsonValue,
};
use vstd::prelude::*;

verus! {

/// How the model should select which tool (or tools) to use when generating
/// a response.
#[derive(Debug, Clone, PartialEq)]
pub enum ToolChoice {
    /// The model will not call any tool and instead generates a message.
    NoTool,
    /// The model can pick between generating a message or calling tools.
    Auto,
    /// The model must call one or more tools.
    Required,
    /// Search the contents of uploaded files.
    FileSearch,
    /// Include data from the internet.
    WebSearchPreview,
    /// Let the model control a computer interface.
    ComputerUsePreview,
    /// Call the named function of the caller's own code.
    Function(String),
}

/// The bare words that a tool choice may be.
pub const CHOICE_WORDS: &'static str = "none, auto, required";

/// The tags that a tool choice object may carry.
pub const CHOICE_TAGS: &'static str = "file_search, web_search_preview, computer_use_preview, function";

/// Whether `v` is an object whose only entry is `"type"` holding `tag`.
pub open spec fn is_tag_object(v: JsonValue, tag: Seq<char>) -> bool {
    &&& v is Object
    &&& v->Object_0@.len() == 1
    &&& v->Object_0@[0].0@ == "type"@
    &&& is_text(v->Object_0@[0].1, tag)
}

impl ToolChoice {
    /// Whether two tool choices are the same choice (a function by the text
    /// of its name).
    pub open spec fn same_as(self, other: ToolChoice) -> bool {
        match (self, other) {
            (ToolChoice::Function(a), ToolChoice::Function(b)) => a@ == b@,
            _ => self == other,
        }
    }

    /// Whether `v` is the wire form of this choice.
    pub open spec fn encoded_by(self, v: JsonValue) -> bool {
        match self {
            ToolChoice::NoTool => is_text(v, "none"@),
            ToolChoice::Auto => is_text(v, "auto"@),
            ToolChoice::Required => is_text(v, "required"@),
            ToolChoice::FileSearch => is_tag_object(v, "file_search"@),
            ToolChoice::WebSearchPreview => is_tag_object(v, "web_search_preview"@),
            ToolChoice::ComputerUsePreview => is_tag_object(v, "computer_use_preview"@),
            ToolChoice::Function(name) => {
                &&& v is Object
                &&& v->Object_0@.len() == 2
                &&& v->Object_0@[0].0@ == "name"@
                &&& is_text(v->Object_0@[0].1, name@)
                &&& v->Object_0@[1].0@ == "type"@
                &&& is_text(v->Object_0@[1].1, "function"@)
            },
        }
    }

    /// The choice that a wire value decodes to, or why it does not.
    pub open spec fn decoding(v: JsonValue) -> Result<ToolChoice, DecodeError> {
        match v {
            JsonValue::Str(s) => if s@ == "none"@ {
                Ok(ToolChoice::NoTool)
            } else if s@ == "auto"@ {
                Ok(ToolChoice::Auto)
            } else if s@ == "required"@ {
                Ok(ToolChoice::Required)
            } else {
                Err(DecodeError::UnknownVariant { found: s, expected: CHOICE_WORDS })
            },
            JsonValue::Object(entries) => if !all_text(entries@) {
                Err(DecodeError::InvalidType { expected: "a string" })
            } else {
                match field_of(entries@, "type"@) {
                    None => Err(DecodeError::MissingField("type")),
                    Some(t) => {
                        let tag = t->Str_0;
                        if tag@ == "file_search"@ {
                            Ok(ToolChoice::FileSearch)
                        } else if tag@ == "web_search_preview"@ {
                            Ok(ToolChoice::WebSearchPreview)
                        } else if tag@ == "computer_use_preview"@ {
                            Ok(ToolChoice::ComputerUsePreview)
                        } else if tag@ == "function"@ {
                            match field_of(entries@, "name"@) {
                                None => Err(DecodeError::MissingField("name")),
                                Some(n) => Ok(ToolChoice::Function(n->Str_0)),
                            }
                        } else {
                            Err(DecodeError::UnknownVariant { found: tag, expected: CHOICE_TAGS })
                        }
                    },
                }
            },
            _ => Err(DecodeError::InvalidType { expected: "string or struct" }),
        }
    }
}

impl ToolChoice {
    /// The wire form of this choice.
    pub fn encode(&self) -> (r: JsonValue)
        ensures
            self.encoded_by(r),
    {
        match self {
            ToolChoice::NoTool => text_value("none"),
            ToolChoice::Auto => text_value("auto"),
            ToolChoice::Required => text_value("required"),
            ToolChoice::FileSearch => JsonValue::Object(vec![(String::from_str("type"), text_value("file_search"))]),
            ToolChoice::WebSearchPreview => JsonValue::Object(
                vec![(String::from_str("type"), text_value("web_search_preview"))],
            ),
            ToolChoice::ComputerUsePreview => JsonValue::Object(
                vec![(String::from_str("type"), text_value("computer_use_preview"))],
            ),
            ToolChoice::Function(name) => JsonValue::Object(
                vec![
                    (String::from_str("name"), text_value(name.as_str())),
                    (String::from_str("type"), text_value("function")),
                ],
            ),
        }
    }

    /// Decodes a wire value: a bare word, or an object tagged by `"type"`
    /// whose entries all hold strings.
    pub fn decode(v: JsonValue) -> (r: Result<ToolChoice, DecodeError>)
        ensures
            r == ToolChoice::decoding(v),
    {
        match v {
            JsonValue::Str(s) => {
                if same_text(s.as_str(), "none") {
                    Ok(ToolChoice::NoTool)
                } else if same_text(s.as_str(), "auto") {
                    Ok(ToolChoice::Auto)
                } else if same_text(s.as_str(), "required") {
                    Ok(ToolChoice::Required)
                } else {
                    Err(DecodeError::UnknownVariant { found: s, expected: CHOICE_WORDS })
                }
            },
            JsonValue::Object(entries) => {
                if !entries_all_text(&entries) {
                    return Err(DecodeError::InvalidType { expected: "a string" });
                }
                proof {
                    lemma_field_of_text(entries@, "type"@);
                    lemma_field_of_text(entries@, "name"@);
                    lemma_wire_words_differ();
                }
                let mut keys: Vec<&str> = Vec::new();
                keys.push("type");
                keys.push("name");
                let mut found = take_fields(entries, &keys);
                let name = found.pop().unwrap();
                let tag = found.pop().unwrap();
                match tag {
                    Some(JsonValue::Str(tag)) => {
                        if same_text(tag.as_str(), "file_search") {
                            Ok(ToolChoice::FileSearch)
                        } else if same_text(tag.as_str(), "web_search_preview") {
                            Ok(ToolChoice::WebSearchPreview)
                        } else if same_text(tag.as_str(), "computer_use_preview") {
                            Ok(ToolChoice::ComputerUsePreview)
                        } else if same_text(tag.as_str(), "function") {
                            match name {
                                Some(JsonValue::Str(n)) => Ok(ToolChoice::Function(n)),
                                _ => Err(DecodeError::MissingField("name")),
                            }
                        } else {
                            Err(DecodeError::UnknownVariant { found: tag, expected: CHOICE_TAGS })
                        }
                    },
                    _ => Err(DecodeError::MissingField("type")),
                }
            },
            _ => Err(DecodeError::InvalidType { expected: "string or struct" }),
        }
    }

    /// Reads a tool choice from JSON text.
    pub fn from_json(text: &str) -> (r: Result<ToolChoice, DecodeError>)
        ensures
            r == match json_reading(text@) {
                Some(v) => ToolChoice::decoding(v),
                None => Err(DecodeError::Syntax),
            },
    {
        match read_json(text) {
            Some(v) => ToolChoice::decode(v),
            None => Err(DecodeError::Syntax),
        }
    }
}

/// The words and tags of the wire form are pairwise different.
proof fn lemma_wire_words_differ()
    ensures
        "none"@ != "auto"@,
        "none"@ != "required"@,
        "auto"@ != "required"@,
        "type"@ != "name"@,
        "file_search"@ != "web_search_preview"@,
        "file_search"@ != "computer_use_preview"@,
        "file_search"@ != "function"@,
        "web_search_preview"@ != "computer_use_preview"@,
        "web_search_preview"@ != "function"@,
        "computer_use_preview"@ != "function"@,
{
    reveal_strlit("none");
    reveal_strlit("auto");
    reveal_strlit("required");
    reveal_strlit("type");
    reveal_strlit("name");
    reveal_strlit("file_search");
    reveal_strlit("web_search_preview");
    reveal_strlit("computer_use_preview");
    reveal_strlit("function");
    assert("none"@[0] != "auto"@[0]);
    assert("type"@[0] != "name"@[0]);
    assert("file_search"@[0] != "web_search_preview"@[0]);
    assert("file_search"@[0] != "computer_use_preview"@[0]);
    assert("file_search"@[1] != "function"@[1]);
    assert("web_search_preview"@[0] != "computer_use_preview"@[0]);
    assert("web_search_preview"@[0] != "function"@[0]);
    assert("computer_use_preview"@[0] != "function"@[0]);
    assert("none"@[0] != "required"@[0]);
    assert("auto"@[0] != "required"@[0]);
}

/// Decoding the wire form of a tool choice gives back the same choice.
pub proof fn lemma_tool_choice_round_trip(choice: ToolChoice, v: JsonValue)
    requires
        choice.encoded_by(v),
    ensures
        ToolChoice::decoding(v) is Ok,
        ToolChoice::decoding(v)->Ok_0.same_as(choice),
{
    lemma_wire_words_differ();
    reveal_with_fuel(field_of, 3);
    if v is Object {
        let e = v->Object_0@;
        assert(all_text(e));
        if e.len() == 2 {
            assert(e.drop_last().drop_last().len() == 0);
            assert(e.drop_last()[0] == e[0]);
            assert(field_of(e, "type"@) == Some(e[1].1));
            assert(e[1].0@ != "name"@);
            assert(field_of(e, "name"@) == field_of(e.drop_last(), "name"@));
            assert(e.drop_last().last() == e[0]);
            assert(field_of(e.drop_last(), "name"@) == Some(e[0].1));
            assert(field_of(e, "name"@) == Some(e[0].1));
        } else {
            assert(e.drop_last().len() == 0);
            assert(field_of(e, "type"@) == Some(e[0].1));
        }
    }
}

/// An object whose `"type"` names no tool fails with an unknown-variant error
/// that names that tag.
pub proof fn lemma_unknown_tag_fails(v: JsonValue, tag: String)
    requires
        v is Object,
        all_text(v->Object_0@),
        field_of(v->Object_0@, "type"@) == Some(JsonValue::Str(tag)),
        tag@ != "file_search"@,
        tag@ != "web_search_preview"@,
        tag@ != "computer_use_preview"@,
        tag@ != "function"@,
    ensures
        ToolChoice::decoding(v) == Err::<ToolChoice, DecodeError>(
            DecodeError::UnknownVariant { found: tag, expected: CHOICE_TAGS },
        ),
{
    lemma_wire_words_differ();
}

/// A function object without a `"name"` fails with a missing-field error
/// for `"name"`.
pub proof fn lemma_function_without_name_fails(v: JsonValue)
    requires
        v is Object,
        all_text(v->Object_0@),
        field_of(v->Object_0@, "type"@) is Some,
        is_text(field_of(v->Object_0@, "type"@)->Some_0, "function"@),
        field_of(v->Object_0@, "name"@) is None,
    ensures
        ToolChoice::decoding(v) == Err::<ToolChoice, DecodeError>(DecodeError::MissingField("name")),
{
    lemma_wire_words_differ();
}

} // verus!
