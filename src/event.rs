//! The events of a streamed response, and the decoder that turns one
//! transport message into one event.

use crate::json::{
    field_of, find_field, json_reading, push_field, read_json, same_text, take_count, take_fields,
    take_optional_text, take_present, take_text, want_count, want_optional_text, want_present,
    want_text, text_value, DecodeError, JsonNumber, JsonValue,
};
use vstd::prelude::*;

verus! {

/// One state change of a response while it is generated. Each positional
/// event carries the indices that locate what it changes in the response.
/// Responses, output items, content parts and annotations are carried as the
/// documents the service sent.
#[derive(Debug, PartialEq)]
pub enum Event {
    /// Emitted when a response is created.
    ResponseCreated {
        /// The response, as the service sent it.
        response: JsonValue,
    },
    /// Emitted while the response is in progress.
    ResponseInProgress {
        /// The response, as the service sent it.
        response: JsonValue,
    },
    /// Emitted when the model response is complete.
    ResponseCompleted {
        /// The response, as the service sent it.
        response: JsonValue,
    },
    /// Emitted when a response fails.
    ResponseFailed {
        /// The response, as the service sent it.
        response: JsonValue,
    },
    /// Emitted when a response finishes as incomplete.
    ResponseIncomplete {
        /// The response, as the service sent it.
        response: JsonValue,
    },
    /// Emitted when a new output item is added.
    OutputItemAdded {
        /// The output item, as the service sent it.
        item: JsonValue,
        /// The index of the output item.
        output_index: u64,
    },
    /// Emitted when an output item is marked done.
    OutputItemDone {
        /// The output item, as the service sent it.
        item: JsonValue,
        /// The index of the output item.
        output_index: u64,
    },
    /// Emitted when a new content part is added.
    ContentPartAdded {
        /// The index of the content part.
        content_index: u64,
        /// The ID of the output item.
        item_id: String,
        /// The index of the output item.
        output_index: u64,
        /// The content part, as the service sent it.
        part: JsonValue,
    },
    /// Emitted when a content part is done.
    ContentPartDone {
        /// The index of the content part.
        content_index: u64,
        /// The ID of the output item.
        item_id: String,
        /// The index of the output item.
        output_index: u64,
        /// The content part, as the service sent it.
        part: JsonValue,
    },
    /// Emitted when there is an additional text delta.
    OutputTextDelta {
        /// The index of the content part.
        content_index: u64,
        /// The text that was added.
        delta: String,
        /// The ID of the output item.
        item_id: String,
        /// The index of the output item.
        output_index: u64,
    },
    /// Emitted when a text annotation is added.
    OutputTextAnnotationAdded {
        /// The annotation, as the service sent it.
        annotation: JsonValue,
        /// The index of the annotation.
        annotation_index: u64,
        /// The index of the content part.
        content_index: u64,
        /// The ID of the output item.
        item_id: String,
        /// The index of the output item.
        output_index: u64,
    },
    /// Emitted when text content is finalized.
    OutputTextDone {
        /// The index of the content part.
        content_index: u64,
        /// The ID of the output item.
        item_id: String,
        /// The index of the output item.
        output_index: u64,
        /// The finalized text.
        text: String,
    },
    /// Emitted when there is a partial refusal text.
    RefusalDelta {
        /// The index of the content part.
        content_index: u64,
        /// The text that was added.
        delta: String,
        /// The ID of the output item.
        item_id: String,
        /// The index of the output item.
        output_index: u64,
    },
    /// Emitted when refusal text is finalized.
    RefusalDone {
        /// The index of the content part.
        content_index: u64,
        /// The ID of the output item.
        item_id: String,
        /// The index of the output item.
        output_index: u64,
        /// The finalized refusal text.
        refusal: String,
    },
    /// Emitted when there is a partial function-call arguments delta.
    FunctionCallArgumentsDelta {
        /// The text that was added.
        delta: String,
        /// The ID of the output item.
        item_id: String,
        /// The index of the output item.
        output_index: u64,
    },
    /// Emitted when function-call arguments are finalized.
    FunctionCallArgumentsDone {
        /// The function-call arguments.
        arguments: String,
        /// The ID of the output item.
        item_id: String,
        /// The index of the output item.
        output_index: u64,
    },
    /// Emitted when a file search call is initiated.
    FileSearchCallInitiated {
        /// The ID of the output item.
        item_id: String,
        /// The index of the output item.
        output_index: u64,
    },
    /// Emitted while a file search is searching.
    FileSearchCallSearching {
        /// The ID of the output item.
        item_id: String,
        /// The index of the output item.
        output_index: u64,
    },
    /// Emitted when a file search call is completed.
    FileSearchCallCompleted {
        /// The ID of the output item.
        item_id: String,
        /// The index of the output item.
        output_index: u64,
    },
    /// Emitted when a web search call is initiated.
    WebSearchCallInitiated {
        /// The ID of the output item.
        item_id: String,
        /// The index of the output item.
        output_index: u64,
    },
    /// Emitted while a web search call is executing.
    WebSearchCallSearching {
        /// The ID of the output item.
        item_id: String,
        /// The index of the output item.
        output_index: u64,
    },
    /// Emitted when a web search call is completed.
    WebSearchCallCompleted {
        /// The ID of the output item.
        item_id: String,
        /// The index of the output item.
        output_index: u64,
    },
    /// Emitted when an error occurs.
    Error {
        /// The error code.
        code: Option<String>,
        /// The error message.
        message: String,
        /// The parameter that the error concerns.
        param: Option<String>,
    },
}

/// The tags that an event may carry.
pub const EVENT_TAGS: &'static str = "response.created, response.in_progress, response.completed, response.failed, response.incomplete, response.output_item.added, response.output_item.done, response.content_part.added, response.content_part.done, response.output_text.delta, response.output_text.annotation.added, response.output_text.done, response.refusal.delta, response.refusal.done, response.function_call_arguments.delta, response.function_call_arguments.done, response.file_search_call.in_progress, response.file_search_call.searching, response.file_search_call.completed, response.web_search_call.in_progress, response.web_search_call.searching, response.web_search_call.completed, error";

impl Event {
    /// The `response.created` event that the entries of an object hold, or why they hold none.
    pub open spec fn response_created_of(entries: Seq<(String, JsonValue)>) -> Result<Event, DecodeError> {
        match want_present(field_of(entries, "response"@), "response") {
            Err(e) => Err(e),
            Ok(response) => Ok(Event::ResponseCreated { response }),
        }
    }

    /// The `response.in_progress` event that the entries of an object hold, or why they hold none.
    pub open spec fn response_in_progress_of(entries: Seq<(String, JsonValue)>) -> Result<Event, DecodeError> {
        match want_present(field_of(entries, "response"@), "response") {
            Err(e) => Err(e),
            Ok(response) => Ok(Event::ResponseInProgress { response }),
        }
    }

    /// The `response.completed` event that the entries of an object hold, or why they hold none.
    pub open spec fn response_completed_of(entries: Seq<(String, JsonValue)>) -> Result<Event, DecodeError> {
        match want_present(field_of(entries, "response"@), "response") {
            Err(e) => Err(e),
            Ok(response) => Ok(Event::ResponseCompleted { response }),
        }
    }

    /// The `response.failed` event that the entries of an object hold, or why they hold none.
    pub open spec fn response_failed_of(entries: Seq<(String, JsonValue)>) -> Result<Event, DecodeError> {
        match want_present(field_of(entries, "response"@), "response") {
            Err(e) => Err(e),
            Ok(response) => Ok(Event::ResponseFailed { response }),
        }
    }

    /// The `response.incomplete` event that the entries of an object hold, or why they hold none.
    pub open spec fn response_incomplete_of(entries: Seq<(String, JsonValue)>) -> Result<Event, DecodeError> {
        match want_present(field_of(entries, "response"@), "response") {
            Err(e) => Err(e),
            Ok(response) => Ok(Event::ResponseIncomplete { response }),
        }
    }

    /// The `response.output_item.added` event that the entries of an object hold, or why they hold none.
    pub open spec fn output_item_added_of(entries: Seq<(String, JsonValue)>) -> Result<Event, DecodeError> {
        match want_present(field_of(entries, "item"@), "item") {
            Err(e) => Err(e),
            Ok(item) => match want_count(field_of(entries, "output_index"@), "output_index") {
                Err(e) => Err(e),
                Ok(output_index) => Ok(Event::OutputItemAdded { item, output_index }),
            }
        }
    }

    /// The `response.output_item.done` event that the entries of an object hold, or why they hold none.
    pub open spec fn output_item_done_of(entries: Seq<(String, JsonValue)>) -> Result<Event, DecodeError> {
        match want_present(field_of(entries, "item"@), "item") {
            Err(e) => Err(e),
            Ok(item) => match want_count(field_of(entries, "output_index"@), "output_index") {
                Err(e) => Err(e),
                Ok(output_index) => Ok(Event::OutputItemDone { item, output_index }),
            }
        }
    }

    /// The `response.content_part.added` event that the entries of an object hold, or why they hold none.
    pub open spec fn content_part_added_of(entries: Seq<(String, JsonValue)>) -> Result<Event, DecodeError> {
        match want_count(field_of(entries, "content_index"@), "content_index") {
            Err(e) => Err(e),
            Ok(content_index) => match want_text(field_of(entries, "item_id"@), "item_id") {
                Err(e) => Err(e),
                Ok(item_id) => match want_count(field_of(entries, "output_index"@), "output_index") {
                    Err(e) => Err(e),
                    Ok(output_index) => match want_present(field_of(entries, "part"@), "part") {
                        Err(e) => Err(e),
                        Ok(part) => Ok(Event::ContentPartAdded { content_index, item_id, output_index, part }),
                    }
                }
            }
        }
    }

    /// The `response.content_part.done` event that the entries of an object hold, or why they hold none.
    pub open spec fn content_part_done_of(entries: Seq<(String, JsonValue)>) -> Result<Event, DecodeError> {
        match want_count(field_of(entries, "content_index"@), "content_index") {
            Err(e) => Err(e),
            Ok(content_index) => match want_text(field_of(entries, "item_id"@), "item_id") {
                Err(e) => Err(e),
                Ok(item_id) => match want_count(field_of(entries, "output_index"@), "output_index") {
                    Err(e) => Err(e),
                    Ok(output_index) => match want_present(field_of(entries, "part"@), "part") {
                        Err(e) => Err(e),
                        Ok(part) => Ok(Event::ContentPartDone { content_index, item_id, output_index, part }),
                    }
                }
            }
        }
    }

    /// The `response.output_text.delta` event that the entries of an object hold, or why they hold none.
    pub open spec fn output_text_delta_of(entries: Seq<(String, JsonValue)>) -> Result<Event, DecodeError> {
        match want_count(field_of(entries, "content_index"@), "content_index") {
            Err(e) => Err(e),
            Ok(content_index) => match want_text(field_of(entries, "delta"@), "delta") {
                Err(e) => Err(e),
                Ok(delta) => match want_text(field_of(entries, "item_id"@), "item_id") {
                    Err(e) => Err(e),
                    Ok(item_id) => match want_count(field_of(entries, "output_index"@), "output_index") {
                        Err(e) => Err(e),
                        Ok(output_index) => Ok(Event::OutputTextDelta { content_index, delta, item_id, output_index }),
                    }
                }
            }
        }
    }

    /// The `response.output_text.annotation.added` event that the entries of an object hold, or why they hold none.
    pub open spec fn output_text_annotation_added_of(entries: Seq<(String, JsonValue)>) -> Result<Event, DecodeError> {
        match want_present(field_of(entries, "annotation"@), "annotation") {
            Err(e) => Err(e),
            Ok(annotation) => match want_count(field_of(entries, "annotation_index"@), "annotation_index") {
                Err(e) => Err(e),
                Ok(annotation_index) => match want_count(field_of(entries, "content_index"@), "content_index") {
                    Err(e) => Err(e),
                    Ok(content_index) => match want_text(field_of(entries, "item_id"@), "item_id") {
                        Err(e) => Err(e),
                        Ok(item_id) => match want_count(field_of(entries, "output_index"@), "output_index") {
                            Err(e) => Err(e),
                            Ok(output_index) => Ok(Event::OutputTextAnnotationAdded { annotation, annotation_index, content_index, item_id, output_index }),
                        }
                    }
                }
            }
        }
    }

    /// The `response.output_text.done` event that the entries of an object hold, or why they hold none.
    pub open spec fn output_text_done_of(entries: Seq<(String, JsonValue)>) -> Result<Event, DecodeError> {
        match want_count(field_of(entries, "content_index"@), "content_index") {
            Err(e) => Err(e),
            Ok(content_index) => match want_text(field_of(entries, "item_id"@), "item_id") {
                Err(e) => Err(e),
                Ok(item_id) => match want_count(field_of(entries, "output_index"@), "output_index") {
                    Err(e) => Err(e),
                    Ok(output_index) => match want_text(field_of(entries, "text"@), "text") {
                        Err(e) => Err(e),
                        Ok(text) => Ok(Event::OutputTextDone { content_index, item_id, output_index, text }),
                    }
                }
            }
        }
    }

    /// The `response.refusal.delta` event that the entries of an object hold, or why they hold none.
    pub open spec fn refusal_delta_of(entries: Seq<(String, JsonValue)>) -> Result<Event, DecodeError> {
        match want_count(field_of(entries, "content_index"@), "content_index") {
            Err(e) => Err(e),
            Ok(content_index) => match want_text(field_of(entries, "delta"@), "delta") {
                Err(e) => Err(e),
                Ok(delta) => match want_text(field_of(entries, "item_id"@), "item_id") {
                    Err(e) => Err(e),
                    Ok(item_id) => match want_count(field_of(entries, "output_index"@), "output_index") {
                        Err(e) => Err(e),
                        Ok(output_index) => Ok(Event::RefusalDelta { content_index, delta, item_id, output_index }),
                    }
                }
            }
        }
    }

    /// The `response.refusal.done` event that the entries of an object hold, or why they hold none.
    pub open spec fn refusal_done_of(entries: Seq<(String, JsonValue)>) -> Result<Event, DecodeError> {
        match want_count(field_of(entries, "content_index"@), "content_index") {
            Err(e) => Err(e),
            Ok(content_index) => match want_text(field_of(entries, "item_id"@), "item_id") {
                Err(e) => Err(e),
                Ok(item_id) => match want_count(field_of(entries, "output_index"@), "output_index") {
                    Err(e) => Err(e),
                    Ok(output_index) => match want_text(field_of(entries, "refusal"@), "refusal") {
                        Err(e) => Err(e),
                        Ok(refusal) => Ok(Event::RefusalDone { content_index, item_id, output_index, refusal }),
                    }
                }
            }
        }
    }

    /// The `response.function_call_arguments.delta` event that the entries of an object hold, or why they hold none.
    pub open spec fn function_call_arguments_delta_of(entries: Seq<(String, JsonValue)>) -> Result<Event, DecodeError> {
        match want_text(field_of(entries, "delta"@), "delta") {
            Err(e) => Err(e),
            Ok(delta) => match want_text(field_of(entries, "item_id"@), "item_id") {
                Err(e) => Err(e),
                Ok(item_id) => match want_count(field_of(entries, "output_index"@), "output_index") {
                    Err(e) => Err(e),
                    Ok(output_index) => Ok(Event::FunctionCallArgumentsDelta { delta, item_id, output_index }),
                }
            }
        }
    }

    /// The `response.function_call_arguments.done` event that the entries of an object hold, or why they hold none.
    pub open spec fn function_call_arguments_done_of(entries: Seq<(String, JsonValue)>) -> Result<Event, DecodeError> {
        match want_text(field_of(entries, "arguments"@), "arguments") {
            Err(e) => Err(e),
            Ok(arguments) => match want_text(field_of(entries, "item_id"@), "item_id") {
                Err(e) => Err(e),
                Ok(item_id) => match want_count(field_of(entries, "output_index"@), "output_index") {
                    Err(e) => Err(e),
                    Ok(output_index) => Ok(Event::FunctionCallArgumentsDone { arguments, item_id, output_index }),
                }
            }
        }
    }

    /// The `response.file_search_call.in_progress` event that the entries of an object hold, or why they hold none.
    pub open spec fn file_search_call_initiated_of(entries: Seq<(String, JsonValue)>) -> Result<Event, DecodeError> {
        match want_text(field_of(entries, "item_id"@), "item_id") {
            Err(e) => Err(e),
            Ok(item_id) => match want_count(field_of(entries, "output_index"@), "output_index") {
                Err(e) => Err(e),
                Ok(output_index) => Ok(Event::FileSearchCallInitiated { item_id, output_index }),
            }
        }
    }

    /// The `response.file_search_call.searching` event that the entries of an object hold, or why they hold none.
    pub open spec fn file_search_call_searching_of(entries: Seq<(String, JsonValue)>) -> Result<Event, DecodeError> {
        match want_text(field_of(entries, "item_id"@), "item_id") {
            Err(e) => Err(e),
            Ok(item_id) => match want_count(field_of(entries, "output_index"@), "output_index") {
                Err(e) => Err(e),
                Ok(output_index) => Ok(Event::FileSearchCallSearching { item_id, output_index }),
            }
        }
    }

    /// The `response.file_search_call.completed` event that the entries of an object hold, or why they hold none.
    pub open spec fn file_search_call_completed_of(entries: Seq<(String, JsonValue)>) -> Result<Event, DecodeError> {
        match want_text(field_of(entries, "item_id"@), "item_id") {
            Err(e) => Err(e),
            Ok(item_id) => match want_count(field_of(entries, "output_index"@), "output_index") {
                Err(e) => Err(e),
                Ok(output_index) => Ok(Event::FileSearchCallCompleted { item_id, output_index }),
            }
        }
    }

    /// The `response.web_search_call.in_progress` event that the entries of an object hold, or why they hold none.
    pub open spec fn web_search_call_initiated_of(entries: Seq<(String, JsonValue)>) -> Result<Event, DecodeError> {
        match want_text(field_of(entries, "item_id"@), "item_id") {
            Err(e) => Err(e),
            Ok(item_id) => match want_count(field_of(entries, "output_index"@), "output_index") {
                Err(e) => Err(e),
                Ok(output_index) => Ok(Event::WebSearchCallInitiated { item_id, output_index }),
            }
        }
    }

    /// The `response.web_search_call.searching` event that the entries of an object hold, or why they hold none.
    pub open spec fn web_search_call_searching_of(entries: Seq<(String, JsonValue)>) -> Result<Event, DecodeError> {
        match want_text(field_of(entries, "item_id"@), "item_id") {
            Err(e) => Err(e),
            Ok(item_id) => match want_count(field_of(entries, "output_index"@), "output_index") {
                Err(e) => Err(e),
                Ok(output_index) => Ok(Event::WebSearchCallSearching { item_id, output_index }),
            }
        }
    }

    /// The `response.web_search_call.completed` event that the entries of an object hold, or why they hold none.
    pub open spec fn web_search_call_completed_of(entries: Seq<(String, JsonValue)>) -> Result<Event, DecodeError> {
        match want_text(field_of(entries, "item_id"@), "item_id") {
            Err(e) => Err(e),
            Ok(item_id) => match want_count(field_of(entries, "output_index"@), "output_index") {
                Err(e) => Err(e),
                Ok(output_index) => Ok(Event::WebSearchCallCompleted { item_id, output_index }),
            }
        }
    }

    /// The `error` event that the entries of an object hold, or why they hold none.
    pub open spec fn error_of(entries: Seq<(String, JsonValue)>) -> Result<Event, DecodeError> {
        match want_optional_text(field_of(entries, "code"@)) {
            Err(e) => Err(e),
            Ok(code) => match want_text(field_of(entries, "message"@), "message") {
                Err(e) => Err(e),
                Ok(message) => match want_optional_text(field_of(entries, "param"@)) {
                    Err(e) => Err(e),
                    Ok(param) => Ok(Event::Error { code, message, param }),
                }
            }
        }
    }

    /// The event that an object tagged `tag` holds, or why it holds none.
    pub open spec fn tagged(tag: String, entries: Seq<(String, JsonValue)>) -> Result<Event, DecodeError> {
        if tag@ == "response.created"@ {
            Event::response_created_of(entries)
        } else if tag@ == "response.in_progress"@ {
            Event::response_in_progress_of(entries)
        } else if tag@ == "response.completed"@ {
            Event::response_completed_of(entries)
        } else if tag@ == "response.failed"@ {
            Event::response_failed_of(entries)
        } else if tag@ == "response.incomplete"@ {
            Event::response_incomplete_of(entries)
        } else if tag@ == "response.output_item.added"@ {
            Event::output_item_added_of(entries)
        } else if tag@ == "response.output_item.done"@ {
            Event::output_item_done_of(entries)
        } else if tag@ == "response.content_part.added"@ {
            Event::content_part_added_of(entries)
        } else if tag@ == "response.content_part.done"@ {
            Event::content_part_done_of(entries)
        } else if tag@ == "response.output_text.delta"@ {
            Event::output_text_delta_of(entries)
        } else if tag@ == "response.output_text.annotation.added"@ {
            Event::output_text_annotation_added_of(entries)
        } else if tag@ == "response.output_text.done"@ {
            Event::output_text_done_of(entries)
        } else if tag@ == "response.refusal.delta"@ {
            Event::refusal_delta_of(entries)
        } else if tag@ == "response.refusal.done"@ {
            Event::refusal_done_of(entries)
        } else if tag@ == "response.function_call_arguments.delta"@ {
            Event::function_call_arguments_delta_of(entries)
        } else if tag@ == "response.function_call_arguments.done"@ {
            Event::function_call_arguments_done_of(entries)
        } else if tag@ == "response.file_search_call.in_progress"@ {
            Event::file_search_call_initiated_of(entries)
        } else if tag@ == "response.file_search_call.searching"@ {
            Event::file_search_call_searching_of(entries)
        } else if tag@ == "response.file_search_call.completed"@ {
            Event::file_search_call_completed_of(entries)
        } else if tag@ == "response.web_search_call.in_progress"@ {
            Event::web_search_call_initiated_of(entries)
        } else if tag@ == "response.web_search_call.searching"@ {
            Event::web_search_call_searching_of(entries)
        } else if tag@ == "response.web_search_call.completed"@ {
            Event::web_search_call_completed_of(entries)
        } else if tag@ == "error"@ {
            Event::error_of(entries)
        } else {
            Err(DecodeError::UnknownVariant { found: tag, expected: EVENT_TAGS })
        }
    }

    /// The event that a document holds, or why it holds none: an object
    /// whose `"type"` names the variant, each field decoded in the order the
    /// variant declares it.
    pub open spec fn decoding(v: JsonValue) -> Result<Event, DecodeError> {
        match v {
            JsonValue::Object(entries) => match field_of(entries@, "type"@) {
                None => Err(DecodeError::MissingField("type")),
                Some(JsonValue::Str(tag)) => Event::tagged(tag, entries@),
                Some(_) => Err(DecodeError::InvalidType { expected: "a string" }),
            },
            _ => Err(DecodeError::InvalidType { expected: "an object" }),
        }
    }

    /// The event that a JSON text holds, or why it holds none.
    pub open spec fn reading(text: Seq<char>) -> Result<Event, DecodeError> {
        match json_reading(text) {
            Some(v) => Event::decoding(v),
            None => Err(DecodeError::Syntax),
        }
    }

    fn decode_response_created(entries: Vec<(String, JsonValue)>) -> (r: Result<Event, DecodeError>)
        ensures
            r == Event::response_created_of(entries@),
    {
        let mut keys: Vec<&str> = Vec::new();
        keys.push("response");
        let mut found = take_fields(entries, &keys);
        let response_found = found.pop().unwrap();
        let response = match take_present(response_found, "response") {
            Ok(x) => x,
            Err(e) => return Err(e),
        };
        Ok(Event::ResponseCreated { response })
    }

    fn decode_response_in_progress(entries: Vec<(String, JsonValue)>) -> (r: Result<Event, DecodeError>)
        ensures
            r == Event::response_in_progress_of(entries@),
    {
        let mut keys: Vec<&str> = Vec::new();
        keys.push("response");
        let mut found = take_fields(entries, &keys);
        let response_found = found.pop().unwrap();
        let response = match take_present(response_found, "response") {
            Ok(x) => x,
            Err(e) => return Err(e),
        };
        Ok(Event::ResponseInProgress { response })
    }

    fn decode_response_completed(entries: Vec<(String, JsonValue)>) -> (r: Result<Event, DecodeError>)
        ensures
            r == Event::response_completed_of(entries@),
    {
        let mut keys: Vec<&str> = Vec::new();
        keys.push("response");
        let mut found = take_fields(entries, &keys);
        let response_found = found.pop().unwrap();
        let response = match take_present(response_found, "response") {
            Ok(x) => x,
            Err(e) => return Err(e),
        };
        Ok(Event::ResponseCompleted { response })
    }

    fn decode_response_failed(entries: Vec<(String, JsonValue)>) -> (r: Result<Event, DecodeError>)
        ensures
            r == Event::response_failed_of(entries@),
    {
        let mut keys: Vec<&str> = Vec::new();
        keys.push("response");
        let mut found = take_fields(entries, &keys);
        let response_found = found.pop().unwrap();
        let response = match take_present(response_found, "response") {
            Ok(x) => x,
            Err(e) => return Err(e),
        };
        Ok(Event::ResponseFailed { response })
    }

    fn decode_response_incomplete(entries: Vec<(String, JsonValue)>) -> (r: Result<Event, DecodeError>)
        ensures
            r == Event::response_incomplete_of(entries@),
    {
        let mut keys: Vec<&str> = Vec::new();
        keys.push("response");
        let mut found = take_fields(entries, &keys);
        let response_found = found.pop().unwrap();
        let response = match take_present(response_found, "response") {
            Ok(x) => x,
            Err(e) => return Err(e),
        };
        Ok(Event::ResponseIncomplete { response })
    }

    fn decode_output_item_added(entries: Vec<(String, JsonValue)>) -> (r: Result<Event, DecodeError>)
        ensures
            r == Event::output_item_added_of(entries@),
    {
        let mut keys: Vec<&str> = Vec::new();
        keys.push("item");
        keys.push("output_index");
        proof {
            lemma_event_keys_differ();
        }
        let mut found = take_fields(entries, &keys);
        let output_index_found = found.pop().unwrap();
        let item_found = found.pop().unwrap();
        let item = match take_present(item_found, "item") {
            Ok(x) => x,
            Err(e) => return Err(e),
        };
        let output_index = match take_count(output_index_found, "output_index") {
            Ok(x) => x,
            Err(e) => return Err(e),
        };
        Ok(Event::OutputItemAdded { item, output_index })
    }

    fn decode_output_item_done(entries: Vec<(String, JsonValue)>) -> (r: Result<Event, DecodeError>)
        ensures
            r == Event::output_item_done_of(entries@),
    {
        let mut keys: Vec<&str> = Vec::new();
        keys.push("item");
        keys.push("output_index");
        proof {
            lemma_event_keys_differ();
        }
        let mut found = take_fields(entries, &keys);
        let output_index_found = found.pop().unwrap();
        let item_found = found.pop().unwrap();
        let item = match take_present(item_found, "item") {
            Ok(x) => x,
            Err(e) => return Err(e),
        };
        let output_index = match take_count(output_index_found, "output_index") {
            Ok(x) => x,
            Err(e) => return Err(e),
        };
        Ok(Event::OutputItemDone { item, output_index })
    }

    fn decode_content_part_added(entries: Vec<(String, JsonValue)>) -> (r: Result<Event, DecodeError>)
        ensures
            r == Event::content_part_added_of(entries@),
    {
        let mut keys: Vec<&str> = Vec::new();
        keys.push("content_index");
        keys.push("item_id");
        keys.push("output_index");
        keys.push("part");
        proof {
            lemma_event_keys_differ();
        }
        let mut found = take_fields(entries, &keys);
        let part_found = found.pop().unwrap();
        let output_index_found = found.pop().unwrap();
        let item_id_found = found.pop().unwrap();
        let content_index_found = found.pop().unwrap();
        let content_index = match take_count(content_index_found, "content_index") {
            Ok(x) => x,
            Err(e) => return Err(e),
        };
        let item_id = match take_text(item_id_found, "item_id") {
            Ok(x) => x,
            Err(e) => return Err(e),
        };
        let output_index = match take_count(output_index_found, "output_index") {
            Ok(x) => x,
            Err(e) => return Err(e),
        };
        let part = match take_present(part_found, "part") {
            Ok(x) => x,
            Err(e) => return Err(e),
        };
        Ok(Event::ContentPartAdded { content_index, item_id, output_index, part })
    }

    fn decode_content_part_done(entries: Vec<(String, JsonValue)>) -> (r: Result<Event, DecodeError>)
        ensures
            r == Event::content_part_done_of(entries@),
    {
        let mut keys: Vec<&str> = Vec::new();
        keys.push("content_index");
        keys.push("item_id");
        keys.push("output_index");
        keys.push("part");
        proof {
            lemma_event_keys_differ();
        }
        let mut found = take_fields(entries, &keys);
        let part_found = found.pop().unwrap();
        let output_index_found = found.pop().unwrap();
        let item_id_found = found.pop().unwrap();
        let content_index_found = found.pop().unwrap();
        let content_index = match take_count(content_index_found, "content_index") {
            Ok(x) => x,
            Err(e) => return Err(e),
        };
        let item_id = match take_text(item_id_found, "item_id") {
            Ok(x) => x,
            Err(e) => return Err(e),
        };
        let output_index = match take_count(output_index_found, "output_index") {
            Ok(x) => x,
            Err(e) => return Err(e),
        };
        let part = match take_present(part_found, "part") {
            Ok(x) => x,
            Err(e) => return Err(e),
        };
        Ok(Event::ContentPartDone { content_index, item_id, output_index, part })
    }

    fn decode_output_text_delta(entries: Vec<(String, JsonValue)>) -> (r: Result<Event, DecodeError>)
        ensures
            r == Event::output_text_delta_of(entries@),
    {
        let mut keys: Vec<&str> = Vec::new();
        keys.push("content_index");
        keys.push("delta");
        keys.push("item_id");
        keys.push("output_index");
        proof {
            lemma_event_keys_differ();
        }
        let mut found = take_fields(entries, &keys);
        let output_index_found = found.pop().unwrap();
        let item_id_found = found.pop().unwrap();
        let delta_found = found.pop().unwrap();
        let content_index_found = found.pop().unwrap();
        let content_index = match take_count(content_index_found, "content_index") {
            Ok(x) => x,
            Err(e) => return Err(e),
        };
        let delta = match take_text(delta_found, "delta") {
            Ok(x) => x,
            Err(e) => return Err(e),
        };
        let item_id = match take_text(item_id_found, "item_id") {
            Ok(x) => x,
            Err(e) => return Err(e),
        };
        let output_index = match take_count(output_index_found, "output_index") {
            Ok(x) => x,
            Err(e) => return Err(e),
        };
        Ok(Event::OutputTextDelta { content_index, delta, item_id, output_index })
    }

    fn decode_output_text_annotation_added(entries: Vec<(String, JsonValue)>) -> (r: Result<Event, DecodeError>)
        ensures
            r == Event::output_text_annotation_added_of(entries@),
    {
        let mut keys: Vec<&str> = Vec::new();
        keys.push("annotation");
        keys.push("annotation_index");
        keys.push("content_index");
        keys.push("item_id");
        keys.push("output_index");
        proof {
            lemma_event_keys_differ();
        }
        let mut found = take_fields(entries, &keys);
        let output_index_found = found.pop().unwrap();
        let item_id_found = found.pop().unwrap();
        let content_index_found = found.pop().unwrap();
        let annotation_index_found = found.pop().unwrap();
        let annotation_found = found.pop().unwrap();
        let annotation = match take_present(annotation_found, "annotation") {
            Ok(x) => x,
            Err(e) => return Err(e),
        };
        let annotation_index = match take_count(annotation_index_found, "annotation_index") {
            Ok(x) => x,
            Err(e) => return Err(e),
        };
        let content_index = match take_count(content_index_found, "content_index") {
            Ok(x) => x,
            Err(e) => return Err(e),
        };
        let item_id = match take_text(item_id_found, "item_id") {
            Ok(x) => x,
            Err(e) => return Err(e),
        };
        let output_index = match take_count(output_index_found, "output_index") {
            Ok(x) => x,
            Err(e) => return Err(e),
        };
        Ok(Event::OutputTextAnnotationAdded { annotation, annotation_index, content_index, item_id, output_index })
    }

    fn decode_output_text_done(entries: Vec<(String, JsonValue)>) -> (r: Result<Event, DecodeError>)
        ensures
            r == Event::output_text_done_of(entries@),
    {
        let mut keys: Vec<&str> = Vec::new();
        keys.push("content_index");
        keys.push("item_id");
        keys.push("output_index");
        keys.push("text");
        proof {
            lemma_event_keys_differ();
        }
        let mut found = take_fields(entries, &keys);
        let text_found = found.pop().unwrap();
        let output_index_found = found.pop().unwrap();
        let item_id_found = found.pop().unwrap();
        let content_index_found = found.pop().unwrap();
        let content_index = match take_count(content_index_found, "content_index") {
            Ok(x) => x,
            Err(e) => return Err(e),
        };
        let item_id = match take_text(item_id_found, "item_id") {
            Ok(x) => x,
            Err(e) => return Err(e),
        };
        let output_index = match take_count(output_index_found, "output_index") {
            Ok(x) => x,
            Err(e) => return Err(e),
        };
        let text = match take_text(text_found, "text") {
            Ok(x) => x,
            Err(e) => return Err(e),
        };
        Ok(Event::OutputTextDone { content_index, item_id, output_index, text })
    }

    fn decode_refusal_delta(entries: Vec<(String, JsonValue)>) -> (r: Result<Event, DecodeError>)
        ensures
            r == Event::refusal_delta_of(entries@),
    {
        let mut keys: Vec<&str> = Vec::new();
        keys.push("content_index");
        keys.push("delta");
        keys.push("item_id");
        keys.push("output_index");
        proof {
            lemma_event_keys_differ();
        }
        let mut found = take_fields(entries, &keys);
        let output_index_found = found.pop().unwrap();
        let item_id_found = found.pop().unwrap();
        let delta_found = found.pop().unwrap();
        let content_index_found = found.pop().unwrap();
        let content_index = match take_count(content_index_found, "content_index") {
            Ok(x) => x,
            Err(e) => return Err(e),
        };
        let delta = match take_text(delta_found, "delta") {
            Ok(x) => x,
            Err(e) => return Err(e),
        };
        let item_id = match take_text(item_id_found, "item_id") {
            Ok(x) => x,
            Err(e) => return Err(e),
        };
        let output_index = match take_count(output_index_found, "output_index") {
            Ok(x) => x,
            Err(e) => return Err(e),
        };
        Ok(Event::RefusalDelta { content_index, delta, item_id, output_index })
    }

    fn decode_refusal_done(entries: Vec<(String, JsonValue)>) -> (r: Result<Event, DecodeError>)
        ensures
            r == Event::refusal_done_of(entries@),
    {
        let mut keys: Vec<&str> = Vec::new();
        keys.push("content_index");
        keys.push("item_id");
        keys.push("output_index");
        keys.push("refusal");
        proof {
            lemma_event_keys_differ();
        }
        let mut found = take_fields(entries, &keys);
        let refusal_found = found.pop().unwrap();
        let output_index_found = found.pop().unwrap();
        let item_id_found = found.pop().unwrap();
        let content_index_found = found.pop().unwrap();
        let content_index = match take_count(content_index_found, "content_index") {
            Ok(x) => x,
            Err(e) => return Err(e),
        };
        let item_id = match take_text(item_id_found, "item_id") {
            Ok(x) => x,
            Err(e) => return Err(e),
        };
        let output_index = match take_count(output_index_found, "output_index") {
            Ok(x) => x,
            Err(e) => return Err(e),
        };
        let refusal = match take_text(refusal_found, "refusal") {
            Ok(x) => x,
            Err(e) => return Err(e),
        };
        Ok(Event::RefusalDone { content_index, item_id, output_index, refusal })
    }

    fn decode_function_call_arguments_delta(entries: Vec<(String, JsonValue)>) -> (r: Result<Event, DecodeError>)
        ensures
            r == Event::function_call_arguments_delta_of(entries@),
    {
        let mut keys: Vec<&str> = Vec::new();
        keys.push("delta");
        keys.push("item_id");
        keys.push("output_index");
        proof {
            lemma_event_keys_differ();
        }
        let mut found = take_fields(entries, &keys);
        let output_index_found = found.pop().unwrap();
        let item_id_found = found.pop().unwrap();
        let delta_found = found.pop().unwrap();
        let delta = match take_text(delta_found, "delta") {
            Ok(x) => x,
            Err(e) => return Err(e),
        };
        let item_id = match take_text(item_id_found, "item_id") {
            Ok(x) => x,
            Err(e) => return Err(e),
        };
        let output_index = match take_count(output_index_found, "output_index") {
            Ok(x) => x,
            Err(e) => return Err(e),
        };
        Ok(Event::FunctionCallArgumentsDelta { delta, item_id, output_index })
    }

    fn decode_function_call_arguments_done(entries: Vec<(String, JsonValue)>) -> (r: Result<Event, DecodeError>)
        ensures
            r == Event::function_call_arguments_done_of(entries@),
    {
        let mut keys: Vec<&str> = Vec::new();
        keys.push("arguments");
        keys.push("item_id");
        keys.push("output_index");
        proof {
            lemma_event_keys_differ();
        }
        let mut found = take_fields(entries, &keys);
        let output_index_found = found.pop().unwrap();
        let item_id_found = found.pop().unwrap();
        let arguments_found = found.pop().unwrap();
        let arguments = match take_text(arguments_found, "arguments") {
            Ok(x) => x,
            Err(e) => return Err(e),
        };
        let item_id = match take_text(item_id_found, "item_id") {
            Ok(x) => x,
            Err(e) => return Err(e),
        };
        let output_index = match take_count(output_index_found, "output_index") {
            Ok(x) => x,
            Err(e) => return Err(e),
        };
        Ok(Event::FunctionCallArgumentsDone { arguments, item_id, output_index })
    }

    fn decode_file_search_call_initiated(entries: Vec<(String, JsonValue)>) -> (r: Result<Event, DecodeError>)
        ensures
            r == Event::file_search_call_initiated_of(entries@),
    {
        let mut keys: Vec<&str> = Vec::new();
        keys.push("item_id");
        keys.push("output_index");
        proof {
            lemma_event_keys_differ();
        }
        let mut found = take_fields(entries, &keys);
        let output_index_found = found.pop().unwrap();
        let item_id_found = found.pop().unwrap();
        let item_id = match take_text(item_id_found, "item_id") {
            Ok(x) => x,
            Err(e) => return Err(e),
        };
        let output_index = match take_count(output_index_found, "output_index") {
            Ok(x) => x,
            Err(e) => return Err(e),
        };
        Ok(Event::FileSearchCallInitiated { item_id, output_index })
    }

    fn decode_file_search_call_searching(entries: Vec<(String, JsonValue)>) -> (r: Result<Event, DecodeError>)
        ensures
            r == Event::file_search_call_searching_of(entries@),
    {
        let mut keys: Vec<&str> = Vec::new();
        keys.push("item_id");
        keys.push("output_index");
        proof {
            lemma_event_keys_differ();
        }
        let mut found = take_fields(entries, &keys);
        let output_index_found = found.pop().unwrap();
        let item_id_found = found.pop().unwrap();
        let item_id = match take_text(item_id_found, "item_id") {
            Ok(x) => x,
            Err(e) => return Err(e),
        };
        let output_index = match take_count(output_index_found, "output_index") {
            Ok(x) => x,
            Err(e) => return Err(e),
        };
        Ok(Event::FileSearchCallSearching { item_id, output_index })
    }

    fn decode_file_search_call_completed(entries: Vec<(String, JsonValue)>) -> (r: Result<Event, DecodeError>)
        ensures
            r == Event::file_search_call_completed_of(entries@),
    {
        let mut keys: Vec<&str> = Vec::new();
        keys.push("item_id");
        keys.push("output_index");
        proof {
            lemma_event_keys_differ();
        }
        let mut found = take_fields(entries, &keys);
        let output_index_found = found.pop().unwrap();
        let item_id_found = found.pop().unwrap();
        let item_id = match take_text(item_id_found, "item_id") {
            Ok(x) => x,
            Err(e) => return Err(e),
        };
        let output_index = match take_count(output_index_found, "output_index") {
            Ok(x) => x,
            Err(e) => return Err(e),
        };
        Ok(Event::FileSearchCallCompleted { item_id, output_index })
    }

    fn decode_web_search_call_initiated(entries: Vec<(String, JsonValue)>) -> (r: Result<Event, DecodeError>)
        ensures
            r == Event::web_search_call_initiated_of(entries@),
    {
        let mut keys: Vec<&str> = Vec::new();
        keys.push("item_id");
        keys.push("output_index");
        proof {
            lemma_event_keys_differ();
        }
        let mut found = take_fields(entries, &keys);
        let output_index_found = found.pop().unwrap();
        let item_id_found = found.pop().unwrap();
        let item_id = match take_text(item_id_found, "item_id") {
            Ok(x) => x,
            Err(e) => return Err(e),
        };
        let output_index = match take_count(output_index_found, "output_index") {
            Ok(x) => x,
            Err(e) => return Err(e),
        };
        Ok(Event::WebSearchCallInitiated { item_id, output_index })
    }

    fn decode_web_search_call_searching(entries: Vec<(String, JsonValue)>) -> (r: Result<Event, DecodeError>)
        ensures
            r == Event::web_search_call_searching_of(entries@),
    {
        let mut keys: Vec<&str> = Vec::new();
        keys.push("item_id");
        keys.push("output_index");
        proof {
            lemma_event_keys_differ();
        }
        let mut found = take_fields(entries, &keys);
        let output_index_found = found.pop().unwrap();
        let item_id_found = found.pop().unwrap();
        let item_id = match take_text(item_id_found, "item_id") {
            Ok(x) => x,
            Err(e) => return Err(e),
        };
        let output_index = match take_count(output_index_found, "output_index") {
            Ok(x) => x,
            Err(e) => return Err(e),
        };
        Ok(Event::WebSearchCallSearching { item_id, output_index })
    }

    fn decode_web_search_call_completed(entries: Vec<(String, JsonValue)>) -> (r: Result<Event, DecodeError>)
        ensures
            r == Event::web_search_call_completed_of(entries@),
    {
        let mut keys: Vec<&str> = Vec::new();
        keys.push("item_id");
        keys.push("output_index");
        proof {
            lemma_event_keys_differ();
        }
        let mut found = take_fields(entries, &keys);
        let output_index_found = found.pop().unwrap();
        let item_id_found = found.pop().unwrap();
        let item_id = match take_text(item_id_found, "item_id") {
            Ok(x) => x,
            Err(e) => return Err(e),
        };
        let output_index = match take_count(output_index_found, "output_index") {
            Ok(x) => x,
            Err(e) => return Err(e),
        };
        Ok(Event::WebSearchCallCompleted { item_id, output_index })
    }

    fn decode_error(entries: Vec<(String, JsonValue)>) -> (r: Result<Event, DecodeError>)
        ensures
            r == Event::error_of(entries@),
    {
        let mut keys: Vec<&str> = Vec::new();
        keys.push("code");
        keys.push("message");
        keys.push("param");
        proof {
            lemma_event_keys_differ();
        }
        let mut found = take_fields(entries, &keys);
        let param_found = found.pop().unwrap();
        let message_found = found.pop().unwrap();
        let code_found = found.pop().unwrap();
        let code = match take_optional_text(code_found) {
            Ok(x) => x,
            Err(e) => return Err(e),
        };
        let message = match take_text(message_found, "message") {
            Ok(x) => x,
            Err(e) => return Err(e),
        };
        let param = match take_optional_text(param_found) {
            Ok(x) => x,
            Err(e) => return Err(e),
        };
        Ok(Event::Error { code, message, param })
    }

    /// Decodes one document into an event.
    pub fn decode(v: JsonValue) -> (r: Result<Event, DecodeError>)
        ensures
            r == Event::decoding(v),
    {
        let entries = match v {
            JsonValue::Object(entries) => entries,
            _ => return Err(DecodeError::InvalidType { expected: "an object" }),
        };
        let at = match find_field(&entries, "type") {
            Some(i) => i,
            None => return Err(DecodeError::MissingField("type")),
        };
        let tag = match &entries[at].1 {
            JsonValue::Str(t) => t.as_str(),
            _ => return Err(DecodeError::InvalidType { expected: "a string" }),
        };
        if same_text(tag, "response.created") {
            Event::decode_response_created(entries)
        } else if same_text(tag, "response.in_progress") {
            Event::decode_response_in_progress(entries)
        } else if same_text(tag, "response.completed") {
            Event::decode_response_completed(entries)
        } else if same_text(tag, "response.failed") {
            Event::decode_response_failed(entries)
        } else if same_text(tag, "response.incomplete") {
            Event::decode_response_incomplete(entries)
        } else if same_text(tag, "response.output_item.added") {
            Event::decode_output_item_added(entries)
        } else if same_text(tag, "response.output_item.done") {
            Event::decode_output_item_done(entries)
        } else if same_text(tag, "response.content_part.added") {
            Event::decode_content_part_added(entries)
        } else if same_text(tag, "response.content_part.done") {
            Event::decode_content_part_done(entries)
        } else if same_text(tag, "response.output_text.delta") {
            Event::decode_output_text_delta(entries)
        } else if same_text(tag, "response.output_text.annotation.added") {
            Event::decode_output_text_annotation_added(entries)
        } else if same_text(tag, "response.output_text.done") {
            Event::decode_output_text_done(entries)
        } else if same_text(tag, "response.refusal.delta") {
            Event::decode_refusal_delta(entries)
        } else if same_text(tag, "response.refusal.done") {
            Event::decode_refusal_done(entries)
        } else if same_text(tag, "response.function_call_arguments.delta") {
            Event::decode_function_call_arguments_delta(entries)
        } else if same_text(tag, "response.function_call_arguments.done") {
            Event::decode_function_call_arguments_done(entries)
        } else if same_text(tag, "response.file_search_call.in_progress") {
            Event::decode_file_search_call_initiated(entries)
        } else if same_text(tag, "response.file_search_call.searching") {
            Event::decode_file_search_call_searching(entries)
        } else if same_text(tag, "response.file_search_call.completed") {
            Event::decode_file_search_call_completed(entries)
        } else if same_text(tag, "response.web_search_call.in_progress") {
            Event::decode_web_search_call_initiated(entries)
        } else if same_text(tag, "response.web_search_call.searching") {
            Event::decode_web_search_call_searching(entries)
        } else if same_text(tag, "response.web_search_call.completed") {
            Event::decode_web_search_call_completed(entries)
        } else if same_text(tag, "error") {
            Event::decode_error(entries)
        } else {
            let mut keys: Vec<&str> = Vec::new();
            keys.push("type");
            let mut found = take_fields(entries, &keys);
            match found.pop().unwrap() {
                Some(JsonValue::Str(t)) => Err(DecodeError::UnknownVariant { found: t, expected: EVENT_TAGS }),
                _ => Err(DecodeError::MissingField("type")),
            }
        }
    }

    /// Reads one event from the JSON text of a transport message.
    pub fn from_json(text: &str) -> (r: Result<Event, DecodeError>)
        ensures
            r == Event::reading(text@),
    {
        match read_json(text) {
            Some(v) => Event::decode(v),
            None => Err(DecodeError::Syntax),
        }
    }
}

impl Event {
    /// The wire form of this event: an object with its fields and its tag
    /// under `"type"`; an optional field that is not set is left out.
    /// Decoding it gives back this very event.
    pub fn into_json(self) -> (r: JsonValue)
        ensures
            Event::decoding(r) == Ok::<Event, DecodeError>(self),
    {
        match self {
            Event::ResponseCreated { response } => Event::encode_response_created(response),
            Event::ResponseInProgress { response } => Event::encode_response_in_progress(response),
            Event::ResponseCompleted { response } => Event::encode_response_completed(response),
            Event::ResponseFailed { response } => Event::encode_response_failed(response),
            Event::ResponseIncomplete { response } => Event::encode_response_incomplete(response),
            Event::OutputItemAdded { item, output_index } => Event::encode_output_item_added(item, output_index),
            Event::OutputItemDone { item, output_index } => Event::encode_output_item_done(item, output_index),
            Event::ContentPartAdded { content_index, item_id, output_index, part } => Event::encode_content_part_added(content_index, item_id, output_index, part),
            Event::ContentPartDone { content_index, item_id, output_index, part } => Event::encode_content_part_done(content_index, item_id, output_index, part),
            Event::OutputTextDelta { content_index, delta, item_id, output_index } => Event::encode_output_text_delta(content_index, delta, item_id, output_index),
            Event::OutputTextAnnotationAdded { annotation, annotation_index, content_index, item_id, output_index } => Event::encode_output_text_annotation_added(annotation, annotation_index, content_index, item_id, output_index),
            Event::OutputTextDone { content_index, item_id, output_index, text } => Event::encode_output_text_done(content_index, item_id, output_index, text),
            Event::RefusalDelta { content_index, delta, item_id, output_index } => Event::encode_refusal_delta(content_index, delta, item_id, output_index),
            Event::RefusalDone { content_index, item_id, output_index, refusal } => Event::encode_refusal_done(content_index, item_id, output_index, refusal),
            Event::FunctionCallArgumentsDelta { delta, item_id, output_index } => Event::encode_function_call_arguments_delta(delta, item_id, output_index),
            Event::FunctionCallArgumentsDone { arguments, item_id, output_index } => Event::encode_function_call_arguments_done(arguments, item_id, output_index),
            Event::FileSearchCallInitiated { item_id, output_index } => Event::encode_file_search_call_initiated(item_id, output_index),
            Event::FileSearchCallSearching { item_id, output_index } => Event::encode_file_search_call_searching(item_id, output_index),
            Event::FileSearchCallCompleted { item_id, output_index } => Event::encode_file_search_call_completed(item_id, output_index),
            Event::WebSearchCallInitiated { item_id, output_index } => Event::encode_web_search_call_initiated(item_id, output_index),
            Event::WebSearchCallSearching { item_id, output_index } => Event::encode_web_search_call_searching(item_id, output_index),
            Event::WebSearchCallCompleted { item_id, output_index } => Event::encode_web_search_call_completed(item_id, output_index),
            Event::Error { code, message, param } => Event::encode_error(code, message, param),
        }
    }

    fn encode_response_created(response: JsonValue) -> (r: JsonValue)
        ensures
            Event::decoding(r) == Ok::<Event, DecodeError>(Event::ResponseCreated { response }),
    {
        proof {
            lemma_event_keys_differ();
            lemma_event_tags_differ();
        }
        let mut entries: Vec<(String, JsonValue)> = Vec::new();
        push_field(&mut entries, "response", response);
        push_field(&mut entries, "type", text_value("response.created"));
        JsonValue::Object(entries)
    }

    fn encode_response_in_progress(response: JsonValue) -> (r: JsonValue)
        ensures
            Event::decoding(r) == Ok::<Event, DecodeError>(Event::ResponseInProgress { response }),
    {
        proof {
            lemma_event_keys_differ();
            lemma_event_tags_differ();
        }
        let mut entries: Vec<(String, JsonValue)> = Vec::new();
        push_field(&mut entries, "response", response);
        push_field(&mut entries, "type", text_value("response.in_progress"));
        JsonValue::Object(entries)
    }

    fn encode_response_completed(response: JsonValue) -> (r: JsonValue)
        ensures
            Event::decoding(r) == Ok::<Event, DecodeError>(Event::ResponseCompleted { response }),
    {
        proof {
            lemma_event_keys_differ();
            lemma_event_tags_differ();
        }
        let mut entries: Vec<(String, JsonValue)> = Vec::new();
        push_field(&mut entries, "response", response);
        push_field(&mut entries, "type", text_value("response.completed"));
        JsonValue::Object(entries)
    }

    fn encode_response_failed(response: JsonValue) -> (r: JsonValue)
        ensures
            Event::decoding(r) == Ok::<Event, DecodeError>(Event::ResponseFailed { response }),
    {
        proof {
            lemma_event_keys_differ();
            lemma_event_tags_differ();
        }
        let mut entries: Vec<(String, JsonValue)> = Vec::new();
        push_field(&mut entries, "response", response);
        push_field(&mut entries, "type", text_value("response.failed"));
        JsonValue::Object(entries)
    }

    fn encode_response_incomplete(response: JsonValue) -> (r: JsonValue)
        ensures
            Event::decoding(r) == Ok::<Event, DecodeError>(Event::ResponseIncomplete { response }),
    {
        proof {
            lemma_event_keys_differ();
            lemma_event_tags_differ();
        }
        let mut entries: Vec<(String, JsonValue)> = Vec::new();
        push_field(&mut entries, "response", response);
        push_field(&mut entries, "type", text_value("response.incomplete"));
        JsonValue::Object(entries)
    }

    fn encode_output_item_added(item: JsonValue, output_index: u64) -> (r: JsonValue)
        ensures
            Event::decoding(r) == Ok::<Event, DecodeError>(Event::OutputItemAdded { item, output_index }),
    {
        proof {
            lemma_event_keys_differ();
            lemma_event_tags_differ();
        }
        let mut entries: Vec<(String, JsonValue)> = Vec::new();
        push_field(&mut entries, "item", item);
        push_field(&mut entries, "output_index", JsonValue::Number(JsonNumber::Unsigned(output_index)));
        push_field(&mut entries, "type", text_value("response.output_item.added"));
        JsonValue::Object(entries)
    }

    fn encode_output_item_done(item: JsonValue, output_index: u64) -> (r: JsonValue)
        ensures
            Event::decoding(r) == Ok::<Event, DecodeError>(Event::OutputItemDone { item, output_index }),
    {
        proof {
            lemma_event_keys_differ();
            lemma_event_tags_differ();
        }
        let mut entries: Vec<(String, JsonValue)> = Vec::new();
        push_field(&mut entries, "item", item);
        push_field(&mut entries, "output_index", JsonValue::Number(JsonNumber::Unsigned(output_index)));
        push_field(&mut entries, "type", text_value("response.output_item.done"));
        JsonValue::Object(entries)
    }

    fn encode_content_part_added(content_index: u64, item_id: String, output_index: u64, part: JsonValue) -> (r: JsonValue)
        ensures
            Event::decoding(r) == Ok::<Event, DecodeError>(Event::ContentPartAdded { content_index, item_id, output_index, part }),
    {
        proof {
            lemma_event_keys_differ();
            lemma_event_tags_differ();
        }
        let mut entries: Vec<(String, JsonValue)> = Vec::new();
        push_field(&mut entries, "content_index", JsonValue::Number(JsonNumber::Unsigned(content_index)));
        push_field(&mut entries, "item_id", JsonValue::Str(item_id));
        push_field(&mut entries, "output_index", JsonValue::Number(JsonNumber::Unsigned(output_index)));
        push_field(&mut entries, "part", part);
        push_field(&mut entries, "type", text_value("response.content_part.added"));
        JsonValue::Object(entries)
    }

    fn encode_content_part_done(content_index: u64, item_id: String, output_index: u64, part: JsonValue) -> (r: JsonValue)
        ensures
            Event::decoding(r) == Ok::<Event, DecodeError>(Event::ContentPartDone { content_index, item_id, output_index, part }),
    {
        proof {
            lemma_event_keys_differ();
            lemma_event_tags_differ();
        }
        let mut entries: Vec<(String, JsonValue)> = Vec::new();
        push_field(&mut entries, "content_index", JsonValue::Number(JsonNumber::Unsigned(content_index)));
        push_field(&mut entries, "item_id", JsonValue::Str(item_id));
        push_field(&mut entries, "output_index", JsonValue::Number(JsonNumber::Unsigned(output_index)));
        push_field(&mut entries, "part", part);
        push_field(&mut entries, "type", text_value("response.content_part.done"));
        JsonValue::Object(entries)
    }

    fn encode_output_text_delta(content_index: u64, delta: String, item_id: String, output_index: u64) -> (r: JsonValue)
        ensures
            Event::decoding(r) == Ok::<Event, DecodeError>(Event::OutputTextDelta { content_index, delta, item_id, output_index }),
    {
        proof {
            lemma_event_keys_differ();
            lemma_event_tags_differ();
        }
        let mut entries: Vec<(String, JsonValue)> = Vec::new();
        push_field(&mut entries, "content_index", JsonValue::Number(JsonNumber::Unsigned(content_index)));
        push_field(&mut entries, "delta", JsonValue::Str(delta));
        push_field(&mut entries, "item_id", JsonValue::Str(item_id));
        push_field(&mut entries, "output_index", JsonValue::Number(JsonNumber::Unsigned(output_index)));
        push_field(&mut entries, "type", text_value("response.output_text.delta"));
        JsonValue::Object(entries)
    }

    fn encode_output_text_annotation_added(annotation: JsonValue, annotation_index: u64, content_index: u64, item_id: String, output_index: u64) -> (r: JsonValue)
        ensures
            Event::decoding(r) == Ok::<Event, DecodeError>(Event::OutputTextAnnotationAdded { annotation, annotation_index, content_index, item_id, output_index }),
    {
        proof {
            lemma_event_keys_differ();
            lemma_event_tags_differ();
        }
        let mut entries: Vec<(String, JsonValue)> = Vec::new();
        push_field(&mut entries, "annotation", annotation);
        push_field(&mut entries, "annotation_index", JsonValue::Number(JsonNumber::Unsigned(annotation_index)));
        push_field(&mut entries, "content_index", JsonValue::Number(JsonNumber::Unsigned(content_index)));
        push_field(&mut entries, "item_id", JsonValue::Str(item_id));
        push_field(&mut entries, "output_index", JsonValue::Number(JsonNumber::Unsigned(output_index)));
        push_field(&mut entries, "type", text_value("response.output_text.annotation.added"));
        JsonValue::Object(entries)
    }

    fn encode_output_text_done(content_index: u64, item_id: String, output_index: u64, text: String) -> (r: JsonValue)
        ensures
            Event::decoding(r) == Ok::<Event, DecodeError>(Event::OutputTextDone { content_index, item_id, output_index, text }),
    {
        proof {
            lemma_event_keys_differ();
            lemma_event_tags_differ();
        }
        let mut entries: Vec<(String, JsonValue)> = Vec::new();
        push_field(&mut entries, "content_index", JsonValue::Number(JsonNumber::Unsigned(content_index)));
        push_field(&mut entries, "item_id", JsonValue::Str(item_id));
        push_field(&mut entries, "output_index", JsonValue::Number(JsonNumber::Unsigned(output_index)));
        push_field(&mut entries, "text", JsonValue::Str(text));
        push_field(&mut entries, "type", text_value("response.output_text.done"));
        JsonValue::Object(entries)
    }

    fn encode_refusal_delta(content_index: u64, delta: String, item_id: String, output_index: u64) -> (r: JsonValue)
        ensures
            Event::decoding(r) == Ok::<Event, DecodeError>(Event::RefusalDelta { content_index, delta, item_id, output_index }),
    {
        proof {
            lemma_event_keys_differ();
            lemma_event_tags_differ();
        }
        let mut entries: Vec<(String, JsonValue)> = Vec::new();
        push_field(&mut entries, "content_index", JsonValue::Number(JsonNumber::Unsigned(content_index)));
        push_field(&mut entries, "delta", JsonValue::Str(delta));
        push_field(&mut entries, "item_id", JsonValue::Str(item_id));
        push_field(&mut entries, "output_index", JsonValue::Number(JsonNumber::Unsigned(output_index)));
        push_field(&mut entries, "type", text_value("response.refusal.delta"));
        JsonValue::Object(entries)
    }

    fn encode_refusal_done(content_index: u64, item_id: String, output_index: u64, refusal: String) -> (r: JsonValue)
        ensures
            Event::decoding(r) == Ok::<Event, DecodeError>(Event::RefusalDone { content_index, item_id, output_index, refusal }),
    {
        proof {
            lemma_event_keys_differ();
            lemma_event_tags_differ();
        }
        let mut entries: Vec<(String, JsonValue)> = Vec::new();
        push_field(&mut entries, "content_index", JsonValue::Number(JsonNumber::Unsigned(content_index)));
        push_field(&mut entries, "item_id", JsonValue::Str(item_id));
        push_field(&mut entries, "output_index", JsonValue::Number(JsonNumber::Unsigned(output_index)));
        push_field(&mut entries, "refusal", JsonValue::Str(refusal));
        push_field(&mut entries, "type", text_value("response.refusal.done"));
        JsonValue::Object(entries)
    }

    fn encode_function_call_arguments_delta(delta: String, item_id: String, output_index: u64) -> (r: JsonValue)
        ensures
            Event::decoding(r) == Ok::<Event, DecodeError>(Event::FunctionCallArgumentsDelta { delta, item_id, output_index }),
    {
        proof {
            lemma_event_keys_differ();
            lemma_event_tags_differ();
        }
        let mut entries: Vec<(String, JsonValue)> = Vec::new();
        push_field(&mut entries, "delta", JsonValue::Str(delta));
        push_field(&mut entries, "item_id", JsonValue::Str(item_id));
        push_field(&mut entries, "output_index", JsonValue::Number(JsonNumber::Unsigned(output_index)));
        push_field(&mut entries, "type", text_value("response.function_call_arguments.delta"));
        JsonValue::Object(entries)
    }

    fn encode_function_call_arguments_done(arguments: String, item_id: String, output_index: u64) -> (r: JsonValue)
        ensures
            Event::decoding(r) == Ok::<Event, DecodeError>(Event::FunctionCallArgumentsDone { arguments, item_id, output_index }),
    {
        proof {
            lemma_event_keys_differ();
            lemma_event_tags_differ();
        }
        let mut entries: Vec<(String, JsonValue)> = Vec::new();
        push_field(&mut entries, "arguments", JsonValue::Str(arguments));
        push_field(&mut entries, "item_id", JsonValue::Str(item_id));
        push_field(&mut entries, "output_index", JsonValue::Number(JsonNumber::Unsigned(output_index)));
        push_field(&mut entries, "type", text_value("response.function_call_arguments.done"));
        JsonValue::Object(entries)
    }

    fn encode_file_search_call_initiated(item_id: String, output_index: u64) -> (r: JsonValue)
        ensures
            Event::decoding(r) == Ok::<Event, DecodeError>(Event::FileSearchCallInitiated { item_id, output_index }),
    {
        proof {
            lemma_event_keys_differ();
            lemma_event_tags_differ();
        }
        let mut entries: Vec<(String, JsonValue)> = Vec::new();
        push_field(&mut entries, "item_id", JsonValue::Str(item_id));
        push_field(&mut entries, "output_index", JsonValue::Number(JsonNumber::Unsigned(output_index)));
        push_field(&mut entries, "type", text_value("response.file_search_call.in_progress"));
        JsonValue::Object(entries)
    }

    fn encode_file_search_call_searching(item_id: String, output_index: u64) -> (r: JsonValue)
        ensures
            Event::decoding(r) == Ok::<Event, DecodeError>(Event::FileSearchCallSearching { item_id, output_index }),
    {
        proof {
            lemma_event_keys_differ();
            lemma_event_tags_differ();
        }
        let mut entries: Vec<(String, JsonValue)> = Vec::new();
        push_field(&mut entries, "item_id", JsonValue::Str(item_id));
        push_field(&mut entries, "output_index", JsonValue::Number(JsonNumber::Unsigned(output_index)));
        push_field(&mut entries, "type", text_value("response.file_search_call.searching"));
        JsonValue::Object(entries)
    }

    fn encode_file_search_call_completed(item_id: String, output_index: u64) -> (r: JsonValue)
        ensures
            Event::decoding(r) == Ok::<Event, DecodeError>(Event::FileSearchCallCompleted { item_id, output_index }),
    {
        proof {
            lemma_event_keys_differ();
            lemma_event_tags_differ();
        }
        let mut entries: Vec<(String, JsonValue)> = Vec::new();
        push_field(&mut entries, "item_id", JsonValue::Str(item_id));
        push_field(&mut entries, "output_index", JsonValue::Number(JsonNumber::Unsigned(output_index)));
        push_field(&mut entries, "type", text_value("response.file_search_call.completed"));
        JsonValue::Object(entries)
    }

    fn encode_web_search_call_initiated(item_id: String, output_index: u64) -> (r: JsonValue)
        ensures
            Event::decoding(r) == Ok::<Event, DecodeError>(Event::WebSearchCallInitiated { item_id, output_index }),
    {
        proof {
            lemma_event_keys_differ();
            lemma_event_tags_differ();
        }
        let mut entries: Vec<(String, JsonValue)> = Vec::new();
        push_field(&mut entries, "item_id", JsonValue::Str(item_id));
        push_field(&mut entries, "output_index", JsonValue::Number(JsonNumber::Unsigned(output_index)));
        push_field(&mut entries, "type", text_value("response.web_search_call.in_progress"));
        JsonValue::Object(entries)
    }

    fn encode_web_search_call_searching(item_id: String, output_index: u64) -> (r: JsonValue)
        ensures
            Event::decoding(r) == Ok::<Event, DecodeError>(Event::WebSearchCallSearching { item_id, output_index }),
    {
        proof {
            lemma_event_keys_differ();
            lemma_event_tags_differ();
        }
        let mut entries: Vec<(String, JsonValue)> = Vec::new();
        push_field(&mut entries, "item_id", JsonValue::Str(item_id));
        push_field(&mut entries, "output_index", JsonValue::Number(JsonNumber::Unsigned(output_index)));
        push_field(&mut entries, "type", text_value("response.web_search_call.searching"));
        JsonValue::Object(entries)
    }

    fn encode_web_search_call_completed(item_id: String, output_index: u64) -> (r: JsonValue)
        ensures
            Event::decoding(r) == Ok::<Event, DecodeError>(Event::WebSearchCallCompleted { item_id, output_index }),
    {
        proof {
            lemma_event_keys_differ();
            lemma_event_tags_differ();
        }
        let mut entries: Vec<(String, JsonValue)> = Vec::new();
        push_field(&mut entries, "item_id", JsonValue::Str(item_id));
        push_field(&mut entries, "output_index", JsonValue::Number(JsonNumber::Unsigned(output_index)));
        push_field(&mut entries, "type", text_value("response.web_search_call.completed"));
        JsonValue::Object(entries)
    }

    fn encode_error(code: Option<String>, message: String, param: Option<String>) -> (r: JsonValue)
        ensures
            Event::decoding(r) == Ok::<Event, DecodeError>(Event::Error { code, message, param }),
    {
        proof {
            lemma_event_keys_differ();
            lemma_event_tags_differ();
        }
        let mut entries: Vec<(String, JsonValue)> = Vec::new();
        if let Some(s) = code {
            push_field(&mut entries, "code", JsonValue::Str(s));
        }
        push_field(&mut entries, "message", JsonValue::Str(message));
        if let Some(s) = param {
            push_field(&mut entries, "param", JsonValue::Str(s));
        }
        push_field(&mut entries, "type", text_value("error"));
        JsonValue::Object(entries)
    }

}

/// The field names that one event carries, and `"type"`, are pairwise different.
proof fn lemma_event_keys_differ()
    ensures
        "annotation"@ != "annotation_index"@,
        "annotation"@ != "content_index"@,
        "annotation"@ != "item_id"@,
        "annotation"@ != "output_index"@,
        "annotation"@ != "type"@,
        "annotation_index"@ != "content_index"@,
        "annotation_index"@ != "item_id"@,
        "annotation_index"@ != "output_index"@,
        "annotation_index"@ != "type"@,
        "arguments"@ != "item_id"@,
        "arguments"@ != "output_index"@,
        "arguments"@ != "type"@,
        "code"@ != "message"@,
        "code"@ != "param"@,
        "code"@ != "type"@,
        "content_index"@ != "delta"@,
        "content_index"@ != "item_id"@,
        "content_index"@ != "output_index"@,
        "content_index"@ != "part"@,
        "content_index"@ != "refusal"@,
        "content_index"@ != "text"@,
        "content_index"@ != "type"@,
        "delta"@ != "item_id"@,
        "delta"@ != "output_index"@,
        "delta"@ != "type"@,
        "item"@ != "output_index"@,
        "item"@ != "type"@,
        "item_id"@ != "output_index"@,
        "item_id"@ != "part"@,
        "item_id"@ != "refusal"@,
        "item_id"@ != "text"@,
        "item_id"@ != "type"@,
        "message"@ != "param"@,
        "message"@ != "type"@,
        "output_index"@ != "part"@,
        "output_index"@ != "refusal"@,
        "output_index"@ != "text"@,
        "output_index"@ != "type"@,
        "param"@ != "type"@,
        "part"@ != "type"@,
        "refusal"@ != "type"@,
        "response"@ != "type"@,
        "text"@ != "type"@,
{
    reveal_strlit("annotation");
    reveal_strlit("annotation_index");
    reveal_strlit("arguments");
    reveal_strlit("code");
    reveal_strlit("content_index");
    reveal_strlit("delta");
    reveal_strlit("item");
    reveal_strlit("item_id");
    reveal_strlit("message");
    reveal_strlit("output_index");
    reveal_strlit("param");
    reveal_strlit("part");
    reveal_strlit("refusal");
    reveal_strlit("response");
    reveal_strlit("text");
    reveal_strlit("type");
    assert("annotation"@.len() != "annotation_index"@.len());
    assert("annotation"@.len() != "content_index"@.len());
    assert("annotation"@.len() != "item_id"@.len());
    assert("annotation"@.len() != "output_index"@.len());
    assert("annotation"@.len() != "type"@.len());
    assert("annotation_index"@.len() != "content_index"@.len());
    assert("annotation_index"@.len() != "item_id"@.len());
    assert("annotation_index"@.len() != "output_index"@.len());
    assert("annotation_index"@.len() != "type"@.len());
    assert("arguments"@.len() != "item_id"@.len());
    assert("arguments"@.len() != "output_index"@.len());
    assert("arguments"@.len() != "type"@.len());
    assert("code"@.len() != "message"@.len());
    assert("code"@.len() != "param"@.len());
    assert("code"@[0] != "type"@[0]);
    assert("content_index"@.len() != "delta"@.len());
    assert("content_index"@.len() != "item_id"@.len());
    assert("content_index"@.len() != "output_index"@.len());
    assert("content_index"@.len() != "part"@.len());
    assert("content_index"@.len() != "refusal"@.len());
    assert("content_index"@.len() != "text"@.len());
    assert("content_index"@.len() != "type"@.len());
    assert("delta"@.len() != "item_id"@.len());
    assert("delta"@.len() != "output_index"@.len());
    assert("delta"@.len() != "type"@.len());
    assert("item"@.len() != "output_index"@.len());
    assert("item"@[0] != "type"@[0]);
    assert("item_id"@.len() != "output_index"@.len());
    assert("item_id"@.len() != "part"@.len());
    assert("item_id"@[0] != "refusal"@[0]);
    assert("item_id"@.len() != "text"@.len());
    assert("item_id"@.len() != "type"@.len());
    assert("message"@.len() != "param"@.len());
    assert("message"@.len() != "type"@.len());
    assert("output_index"@.len() != "part"@.len());
    assert("output_index"@.len() != "refusal"@.len());
    assert("output_index"@.len() != "text"@.len());
    assert("output_index"@.len() != "type"@.len());
    assert("param"@.len() != "type"@.len());
    assert("part"@[0] != "type"@[0]);
    assert("refusal"@.len() != "type"@.len());
    assert("response"@.len() != "type"@.len());
    assert("text"@[1] != "type"@[1]);
}

/// The tags of the events are pairwise different.
proof fn lemma_event_tags_differ()
    ensures
        "response.created"@ != "response.in_progress"@,
        "response.created"@ != "response.completed"@,
        "response.created"@ != "response.failed"@,
        "response.created"@ != "response.incomplete"@,
        "response.created"@ != "response.output_item.added"@,
        "response.created"@ != "response.output_item.done"@,
        "response.created"@ != "response.content_part.added"@,
        "response.created"@ != "response.content_part.done"@,
        "response.created"@ != "response.output_text.delta"@,
        "response.created"@ != "response.output_text.annotation.added"@,
        "response.created"@ != "response.output_text.done"@,
        "response.created"@ != "response.refusal.delta"@,
        "response.created"@ != "response.refusal.done"@,
        "response.created"@ != "response.function_call_arguments.delta"@,
        "response.created"@ != "response.function_call_arguments.done"@,
        "response.created"@ != "response.file_search_call.in_progress"@,
        "response.created"@ != "response.file_search_call.searching"@,
        "response.created"@ != "response.file_search_call.completed"@,
        "response.created"@ != "response.web_search_call.in_progress"@,
        "response.created"@ != "response.web_search_call.searching"@,
        "response.created"@ != "response.web_search_call.completed"@,
        "response.created"@ != "error"@,
        "response.in_progress"@ != "response.completed"@,
        "response.in_progress"@ != "response.failed"@,
        "response.in_progress"@ != "response.incomplete"@,
        "response.in_progress"@ != "response.output_item.added"@,
        "response.in_progress"@ != "response.output_item.done"@,
        "response.in_progress"@ != "response.content_part.added"@,
        "response.in_progress"@ != "response.content_part.done"@,
        "response.in_progress"@ != "response.output_text.delta"@,
        "response.in_progress"@ != "response.output_text.annotation.added"@,
        "response.in_progress"@ != "response.output_text.done"@,
        "response.in_progress"@ != "response.refusal.delta"@,
        "response.in_progress"@ != "response.refusal.done"@,
        "response.in_progress"@ != "response.function_call_arguments.delta"@,
        "response.in_progress"@ != "response.function_call_arguments.done"@,
        "response.in_progress"@ != "response.file_search_call.in_progress"@,
        "response.in_progress"@ != "response.file_search_call.searching"@,
        "response.in_progress"@ != "response.file_search_call.completed"@,
        "response.in_progress"@ != "response.web_search_call.in_progress"@,
        "response.in_progress"@ != "response.web_search_call.searching"@,
        "response.in_progress"@ != "response.web_search_call.completed"@,
        "response.in_progress"@ != "error"@,
        "response.completed"@ != "response.failed"@,
        "response.completed"@ != "response.incomplete"@,
        "response.completed"@ != "response.output_item.added"@,
        "response.completed"@ != "response.output_item.done"@,
        "response.completed"@ != "response.content_part.added"@,
        "response.completed"@ != "response.content_part.done"@,
        "response.completed"@ != "response.output_text.delta"@,
        "response.completed"@ != "response.output_text.annotation.added"@,
        "response.completed"@ != "response.output_text.done"@,
        "response.completed"@ != "response.refusal.delta"@,
        "response.completed"@ != "response.refusal.done"@,
        "response.completed"@ != "response.function_call_arguments.delta"@,
        "response.completed"@ != "response.function_call_arguments.done"@,
        "response.completed"@ != "response.file_search_call.in_progress"@,
        "response.completed"@ != "response.file_search_call.searching"@,
        "response.completed"@ != "response.file_search_call.completed"@,
        "response.completed"@ != "response.web_search_call.in_progress"@,
        "response.completed"@ != "response.web_search_call.searching"@,
        "response.completed"@ != "response.web_search_call.completed"@,
        "response.completed"@ != "error"@,
        "response.failed"@ != "response.incomplete"@,
        "response.failed"@ != "response.output_item.added"@,
        "response.failed"@ != "response.output_item.done"@,
        "response.failed"@ != "response.content_part.added"@,
        "response.failed"@ != "response.content_part.done"@,
        "response.failed"@ != "response.output_text.delta"@,
        "response.failed"@ != "response.output_text.annotation.added"@,
        "response.failed"@ != "response.output_text.done"@,
        "response.failed"@ != "response.refusal.delta"@,
        "response.failed"@ != "response.refusal.done"@,
        "response.failed"@ != "response.function_call_arguments.delta"@,
        "response.failed"@ != "response.function_call_arguments.done"@,
        "response.failed"@ != "response.file_search_call.in_progress"@,
        "response.failed"@ != "response.file_search_call.searching"@,
        "response.failed"@ != "response.file_search_call.completed"@,
        "response.failed"@ != "response.web_search_call.in_progress"@,
        "response.failed"@ != "response.web_search_call.searching"@,
        "response.failed"@ != "response.web_search_call.completed"@,
        "response.failed"@ != "error"@,
        "response.incomplete"@ != "response.output_item.added"@,
        "response.incomplete"@ != "response.output_item.done"@,
        "response.incomplete"@ != "response.content_part.added"@,
        "response.incomplete"@ != "response.content_part.done"@,
        "response.incomplete"@ != "response.output_text.delta"@,
        "response.incomplete"@ != "response.output_text.annotation.added"@,
        "response.incomplete"@ != "response.output_text.done"@,
        "response.incomplete"@ != "response.refusal.delta"@,
        "response.incomplete"@ != "response.refusal.done"@,
        "response.incomplete"@ != "response.function_call_arguments.delta"@,
        "response.incomplete"@ != "response.function_call_arguments.done"@,
        "response.incomplete"@ != "response.file_search_call.in_progress"@,
        "response.incomplete"@ != "response.file_search_call.searching"@,
        "response.incomplete"@ != "response.file_search_call.completed"@,
        "response.incomplete"@ != "response.web_search_call.in_progress"@,
        "response.incomplete"@ != "response.web_search_call.searching"@,
        "response.incomplete"@ != "response.web_search_call.completed"@,
        "response.incomplete"@ != "error"@,
        "response.output_item.added"@ != "response.output_item.done"@,
        "response.output_item.added"@ != "response.content_part.added"@,
        "response.output_item.added"@ != "response.content_part.done"@,
        "response.output_item.added"@ != "response.output_text.delta"@,
        "response.output_item.added"@ != "response.output_text.annotation.added"@,
        "response.output_item.added"@ != "response.output_text.done"@,
        "response.output_item.added"@ != "response.refusal.delta"@,
        "response.output_item.added"@ != "response.refusal.done"@,
        "response.output_item.added"@ != "response.function_call_arguments.delta"@,
        "response.output_item.added"@ != "response.function_call_arguments.done"@,
        "response.output_item.added"@ != "response.file_search_call.in_progress"@,
        "response.output_item.added"@ != "response.file_search_call.searching"@,
        "response.output_item.added"@ != "response.file_search_call.completed"@,
        "response.output_item.added"@ != "response.web_search_call.in_progress"@,
        "response.output_item.added"@ != "response.web_search_call.searching"@,
        "response.output_item.added"@ != "response.web_search_call.completed"@,
        "response.output_item.added"@ != "error"@,
        "response.output_item.done"@ != "response.content_part.added"@,
        "response.output_item.done"@ != "response.content_part.done"@,
        "response.output_item.done"@ != "response.output_text.delta"@,
        "response.output_item.done"@ != "response.output_text.annotation.added"@,
        "response.output_item.done"@ != "response.output_text.done"@,
        "response.output_item.done"@ != "response.refusal.delta"@,
        "response.output_item.done"@ != "response.refusal.done"@,
        "response.output_item.done"@ != "response.function_call_arguments.delta"@,
        "response.output_item.done"@ != "response.function_call_arguments.done"@,
        "response.output_item.done"@ != "response.file_search_call.in_progress"@,
        "response.output_item.done"@ != "response.file_search_call.searching"@,
        "response.output_item.done"@ != "response.file_search_call.completed"@,
        "response.output_item.done"@ != "response.web_search_call.in_progress"@,
        "response.output_item.done"@ != "response.web_search_call.searching"@,
        "response.output_item.done"@ != "response.web_search_call.completed"@,
        "response.output_item.done"@ != "error"@,
        "response.content_part.added"@ != "response.content_part.done"@,
        "response.content_part.added"@ != "response.output_text.delta"@,
        "response.content_part.added"@ != "response.output_text.annotation.added"@,
        "response.content_part.added"@ != "response.output_text.done"@,
        "response.content_part.added"@ != "response.refusal.delta"@,
        "response.content_part.added"@ != "response.refusal.done"@,
        "response.content_part.added"@ != "response.function_call_arguments.delta"@,
        "response.content_part.added"@ != "response.function_call_arguments.done"@,
        "response.content_part.added"@ != "response.file_search_call.in_progress"@,
        "response.content_part.added"@ != "response.file_search_call.searching"@,
        "response.content_part.added"@ != "response.file_search_call.completed"@,
        "response.content_part.added"@ != "response.web_search_call.in_progress"@,
        "response.content_part.added"@ != "response.web_search_call.searching"@,
        "response.content_part.added"@ != "response.web_search_call.completed"@,
        "response.content_part.added"@ != "error"@,
        "response.content_part.done"@ != "response.output_text.delta"@,
        "response.content_part.done"@ != "response.output_text.annotation.added"@,
        "response.content_part.done"@ != "response.output_text.done"@,
        "response.content_part.done"@ != "response.refusal.delta"@,
        "response.content_part.done"@ != "response.refusal.done"@,
        "response.content_part.done"@ != "response.function_call_arguments.delta"@,
        "response.content_part.done"@ != "response.function_call_arguments.done"@,
        "response.content_part.done"@ != "response.file_search_call.in_progress"@,
        "response.content_part.done"@ != "response.file_search_call.searching"@,
        "response.content_part.done"@ != "response.file_search_call.completed"@,
        "response.content_part.done"@ != "response.web_search_call.in_progress"@,
        "response.content_part.done"@ != "response.web_search_call.searching"@,
        "response.content_part.done"@ != "response.web_search_call.completed"@,
        "response.content_part.done"@ != "error"@,
        "response.output_text.delta"@ != "response.output_text.annotation.added"@,
        "response.output_text.delta"@ != "response.output_text.done"@,
        "response.output_text.delta"@ != "response.refusal.delta"@,
        "response.output_text.delta"@ != "response.refusal.done"@,
        "response.output_text.delta"@ != "response.function_call_arguments.delta"@,
        "response.output_text.delta"@ != "response.function_call_arguments.done"@,
        "response.output_text.delta"@ != "response.file_search_call.in_progress"@,
        "response.output_text.delta"@ != "response.file_search_call.searching"@,
        "response.output_text.delta"@ != "response.file_search_call.completed"@,
        "response.output_text.delta"@ != "response.web_search_call.in_progress"@,
        "response.output_text.delta"@ != "response.web_search_call.searching"@,
        "response.output_text.delta"@ != "response.web_search_call.completed"@,
        "response.output_text.delta"@ != "error"@,
        "response.output_text.annotation.added"@ != "response.output_text.done"@,
        "response.output_text.annotation.added"@ != "response.refusal.delta"@,
        "response.output_text.annotation.added"@ != "response.refusal.done"@,
        "response.output_text.annotation.added"@ != "response.function_call_arguments.delta"@,
        "response.output_text.annotation.added"@ != "response.function_call_arguments.done"@,
        "response.output_text.annotation.added"@ != "response.file_search_call.in_progress"@,
        "response.output_text.annotation.added"@ != "response.file_search_call.searching"@,
        "response.output_text.annotation.added"@ != "response.file_search_call.completed"@,
        "response.output_text.annotation.added"@ != "response.web_search_call.in_progress"@,
        "response.output_text.annotation.added"@ != "response.web_search_call.searching"@,
        "response.output_text.annotation.added"@ != "response.web_search_call.completed"@,
        "response.output_text.annotation.added"@ != "error"@,
        "response.output_text.done"@ != "response.refusal.delta"@,
        "response.output_text.done"@ != "response.refusal.done"@,
        "response.output_text.done"@ != "response.function_call_arguments.delta"@,
        "response.output_text.done"@ != "response.function_call_arguments.done"@,
        "response.output_text.done"@ != "response.file_search_call.in_progress"@,
        "response.output_text.done"@ != "response.file_search_call.searching"@,
        "response.output_text.done"@ != "response.file_search_call.completed"@,
        "response.output_text.done"@ != "response.web_search_call.in_progress"@,
        "response.output_text.done"@ != "response.web_search_call.searching"@,
        "response.output_text.done"@ != "response.web_search_call.completed"@,
        "response.output_text.done"@ != "error"@,
        "response.refusal.delta"@ != "response.refusal.done"@,
        "response.refusal.delta"@ != "response.function_call_arguments.delta"@,
        "response.refusal.delta"@ != "response.function_call_arguments.done"@,
        "response.refusal.delta"@ != "response.file_search_call.in_progress"@,
        "response.refusal.delta"@ != "response.file_search_call.searching"@,
        "response.refusal.delta"@ != "response.file_search_call.completed"@,
        "response.refusal.delta"@ != "response.web_search_call.in_progress"@,
        "response.refusal.delta"@ != "response.web_search_call.searching"@,
        "response.refusal.delta"@ != "response.web_search_call.completed"@,
        "response.refusal.delta"@ != "error"@,
        "response.refusal.done"@ != "response.function_call_arguments.delta"@,
        "response.refusal.done"@ != "response.function_call_arguments.done"@,
        "response.refusal.done"@ != "response.file_search_call.in_progress"@,
        "response.refusal.done"@ != "response.file_search_call.searching"@,
        "response.refusal.done"@ != "response.file_search_call.completed"@,
        "response.refusal.done"@ != "response.web_search_call.in_progress"@,
        "response.refusal.done"@ != "response.web_search_call.searching"@,
        "response.refusal.done"@ != "response.web_search_call.completed"@,
        "response.refusal.done"@ != "error"@,
        "response.function_call_arguments.delta"@ != "response.function_call_arguments.done"@,
        "response.function_call_arguments.delta"@ != "response.file_search_call.in_progress"@,
        "response.function_call_arguments.delta"@ != "response.file_search_call.searching"@,
        "response.function_call_arguments.delta"@ != "response.file_search_call.completed"@,
        "response.function_call_arguments.delta"@ != "response.web_search_call.in_progress"@,
        "response.function_call_arguments.delta"@ != "response.web_search_call.searching"@,
        "response.function_call_arguments.delta"@ != "response.web_search_call.completed"@,
        "response.function_call_arguments.delta"@ != "error"@,
        "response.function_call_arguments.done"@ != "response.file_search_call.in_progress"@,
        "response.function_call_arguments.done"@ != "response.file_search_call.searching"@,
        "response.function_call_arguments.done"@ != "response.file_search_call.completed"@,
        "response.function_call_arguments.done"@ != "response.web_search_call.in_progress"@,
        "response.function_call_arguments.done"@ != "response.web_search_call.searching"@,
        "response.function_call_arguments.done"@ != "response.web_search_call.completed"@,
        "response.function_call_arguments.done"@ != "error"@,
        "response.file_search_call.in_progress"@ != "response.file_search_call.searching"@,
        "response.file_search_call.in_progress"@ != "response.file_search_call.completed"@,
        "response.file_search_call.in_progress"@ != "response.web_search_call.in_progress"@,
        "response.file_search_call.in_progress"@ != "response.web_search_call.searching"@,
        "response.file_search_call.in_progress"@ != "response.web_search_call.completed"@,
        "response.file_search_call.in_progress"@ != "error"@,
        "response.file_search_call.searching"@ != "response.file_search_call.completed"@,
        "response.file_search_call.searching"@ != "response.web_search_call.in_progress"@,
        "response.file_search_call.searching"@ != "response.web_search_call.searching"@,
        "response.file_search_call.searching"@ != "response.web_search_call.completed"@,
        "response.file_search_call.searching"@ != "error"@,
        "response.file_search_call.completed"@ != "response.web_search_call.in_progress"@,
        "response.file_search_call.completed"@ != "response.web_search_call.searching"@,
        "response.file_search_call.completed"@ != "response.web_search_call.completed"@,
        "response.file_search_call.completed"@ != "error"@,
        "response.web_search_call.in_progress"@ != "response.web_search_call.searching"@,
        "response.web_search_call.in_progress"@ != "response.web_search_call.completed"@,
        "response.web_search_call.in_progress"@ != "error"@,
        "response.web_search_call.searching"@ != "response.web_search_call.completed"@,
        "response.web_search_call.searching"@ != "error"@,
        "response.web_search_call.completed"@ != "error"@,
{
    reveal_strlit("response.created");
    reveal_strlit("response.in_progress");
    reveal_strlit("response.completed");
    reveal_strlit("response.failed");
    reveal_strlit("response.incomplete");
    reveal_strlit("response.output_item.added");
    reveal_strlit("response.output_item.done");
    reveal_strlit("response.content_part.added");
    reveal_strlit("response.content_part.done");
    reveal_strlit("response.output_text.delta");
    reveal_strlit("response.output_text.annotation.added");
    reveal_strlit("response.output_text.done");
    reveal_strlit("response.refusal.delta");
    reveal_strlit("response.refusal.done");
    reveal_strlit("response.function_call_arguments.delta");
    reveal_strlit("response.function_call_arguments.done");
    reveal_strlit("response.file_search_call.in_progress");
    reveal_strlit("response.file_search_call.searching");
    reveal_strlit("response.file_search_call.completed");
    reveal_strlit("response.web_search_call.in_progress");
    reveal_strlit("response.web_search_call.searching");
    reveal_strlit("response.web_search_call.completed");
    reveal_strlit("error");
    assert("response.created"@.len() != "response.in_progress"@.len());
    assert("response.created"@.len() != "response.completed"@.len());
    assert("response.created"@.len() != "response.failed"@.len());
    assert("response.created"@.len() != "response.incomplete"@.len());
    assert("response.created"@.len() != "response.output_item.added"@.len());
    assert("response.created"@.len() != "response.output_item.done"@.len());
    assert("response.created"@.len() != "response.content_part.added"@.len());
    assert("response.created"@.len() != "response.content_part.done"@.len());
    assert("response.created"@.len() != "response.output_text.delta"@.len());
    assert("response.created"@.len() != "response.output_text.annotation.added"@.len());
    assert("response.created"@.len() != "response.output_text.done"@.len());
    assert("response.created"@.len() != "response.refusal.delta"@.len());
    assert("response.created"@.len() != "response.refusal.done"@.len());
    assert("response.created"@.len() != "response.function_call_arguments.delta"@.len());
    assert("response.created"@.len() != "response.function_call_arguments.done"@.len());
    assert("response.created"@.len() != "response.file_search_call.in_progress"@.len());
    assert("response.created"@.len() != "response.file_search_call.searching"@.len());
    assert("response.created"@.len() != "response.file_search_call.completed"@.len());
    assert("response.created"@.len() != "response.web_search_call.in_progress"@.len());
    assert("response.created"@.len() != "response.web_search_call.searching"@.len());
    assert("response.created"@.len() != "response.web_search_call.completed"@.len());
    assert("response.created"@.len() != "error"@.len());
    assert("response.in_progress"@.len() != "response.completed"@.len());
    assert("response.in_progress"@.len() != "response.failed"@.len());
    assert("response.in_progress"@.len() != "response.incomplete"@.len());
    assert("response.in_progress"@.len() != "response.output_item.added"@.len());
    assert("response.in_progress"@.len() != "response.output_item.done"@.len());
    assert("response.in_progress"@.len() != "response.content_part.added"@.len());
    assert("response.in_progress"@.len() != "response.content_part.done"@.len());
    assert("response.in_progress"@.len() != "response.output_text.delta"@.len());
    assert("response.in_progress"@.len() != "response.output_text.annotation.added"@.len());
    assert("response.in_progress"@.len() != "response.output_text.done"@.len());
    assert("response.in_progress"@.len() != "response.refusal.delta"@.len());
    assert("response.in_progress"@.len() != "response.refusal.done"@.len());
    assert("response.in_progress"@.len() != "response.function_call_arguments.delta"@.len());
    assert("response.in_progress"@.len() != "response.function_call_arguments.done"@.len());
    assert("response.in_progress"@.len() != "response.file_search_call.in_progress"@.len());
    assert("response.in_progress"@.len() != "response.file_search_call.searching"@.len());
    assert("response.in_progress"@.len() != "response.file_search_call.completed"@.len());
    assert("response.in_progress"@.len() != "response.web_search_call.in_progress"@.len());
    assert("response.in_progress"@.len() != "response.web_search_call.searching"@.len());
    assert("response.in_progress"@.len() != "response.web_search_call.completed"@.len());
    assert("response.in_progress"@.len() != "error"@.len());
    assert("response.completed"@.len() != "response.failed"@.len());
    assert("response.completed"@.len() != "response.incomplete"@.len());
    assert("response.completed"@.len() != "response.output_item.added"@.len());
    assert("response.completed"@.len() != "response.output_item.done"@.len());
    assert("response.completed"@.len() != "response.content_part.added"@.len());
    assert("response.completed"@.len() != "response.content_part.done"@.len());
    assert("response.completed"@.len() != "response.output_text.delta"@.len());
    assert("response.completed"@.len() != "response.output_text.annotation.added"@.len());
    assert("response.completed"@.len() != "response.output_text.done"@.len());
    assert("response.completed"@.len() != "response.refusal.delta"@.len());
    assert("response.completed"@.len() != "response.refusal.done"@.len());
    assert("response.completed"@.len() != "response.function_call_arguments.delta"@.len());
    assert("response.completed"@.len() != "response.function_call_arguments.done"@.len());
    assert("response.completed"@.len() != "response.file_search_call.in_progress"@.len());
    assert("response.completed"@.len() != "response.file_search_call.searching"@.len());
    assert("response.completed"@.len() != "response.file_search_call.completed"@.len());
    assert("response.completed"@.len() != "response.web_search_call.in_progress"@.len());
    assert("response.completed"@.len() != "response.web_search_call.searching"@.len());
    assert("response.completed"@.len() != "response.web_search_call.completed"@.len());
    assert("response.completed"@.len() != "error"@.len());
    assert("response.failed"@.len() != "response.incomplete"@.len());
    assert("response.failed"@.len() != "response.output_item.added"@.len());
    assert("response.failed"@.len() != "response.output_item.done"@.len());
    assert("response.failed"@.len() != "response.content_part.added"@.len());
    assert("response.failed"@.len() != "response.content_part.done"@.len());
    assert("response.failed"@.len() != "response.output_text.delta"@.len());
    assert("response.failed"@.len() != "response.output_text.annotation.added"@.len());
    assert("response.failed"@.len() != "response.output_text.done"@.len());
    assert("response.failed"@.len() != "response.refusal.delta"@.len());
    assert("response.failed"@.len() != "response.refusal.done"@.len());
    assert("response.failed"@.len() != "response.function_call_arguments.delta"@.len());
    assert("response.failed"@.len() != "response.function_call_arguments.done"@.len());
    assert("response.failed"@.len() != "response.file_search_call.in_progress"@.len());
    assert("response.failed"@.len() != "response.file_search_call.searching"@.len());
    assert("response.failed"@.len() != "response.file_search_call.completed"@.len());
    assert("response.failed"@.len() != "response.web_search_call.in_progress"@.len());
    assert("response.failed"@.len() != "response.web_search_call.searching"@.len());
    assert("response.failed"@.len() != "response.web_search_call.completed"@.len());
    assert("response.failed"@.len() != "error"@.len());
    assert("response.incomplete"@.len() != "response.output_item.added"@.len());
    assert("response.incomplete"@.len() != "response.output_item.done"@.len());
    assert("response.incomplete"@.len() != "response.content_part.added"@.len());
    assert("response.incomplete"@.len() != "response.content_part.done"@.len());
    assert("response.incomplete"@.len() != "response.output_text.delta"@.len());
    assert("response.incomplete"@.len() != "response.output_text.annotation.added"@.len());
    assert("response.incomplete"@.len() != "response.output_text.done"@.len());
    assert("response.incomplete"@.len() != "response.refusal.delta"@.len());
    assert("response.incomplete"@.len() != "response.refusal.done"@.len());
    assert("response.incomplete"@.len() != "response.function_call_arguments.delta"@.len());
    assert("response.incomplete"@.len() != "response.function_call_arguments.done"@.len());
    assert("response.incomplete"@.len() != "response.file_search_call.in_progress"@.len());
    assert("response.incomplete"@.len() != "response.file_search_call.searching"@.len());
    assert("response.incomplete"@.len() != "response.file_search_call.completed"@.len());
    assert("response.incomplete"@.len() != "response.web_search_call.in_progress"@.len());
    assert("response.incomplete"@.len() != "response.web_search_call.searching"@.len());
    assert("response.incomplete"@.len() != "response.web_search_call.completed"@.len());
    assert("response.incomplete"@.len() != "error"@.len());
    assert("response.output_item.added"@.len() != "response.output_item.done"@.len());
    assert("response.output_item.added"@.len() != "response.content_part.added"@.len());
    assert("response.output_item.added"@[9] != "response.content_part.done"@[9]);
    assert("response.output_item.added"@[16] != "response.output_text.delta"@[16]);
    assert("response.output_item.added"@.len() != "response.output_text.annotation.added"@.len());
    assert("response.output_item.added"@.len() != "response.output_text.done"@.len());
    assert("response.output_item.added"@.len() != "response.refusal.delta"@.len());
    assert("response.output_item.added"@.len() != "response.refusal.done"@.len());
    assert("response.output_item.added"@.len() != "response.function_call_arguments.delta"@.len());
    assert("response.output_item.added"@.len() != "response.function_call_arguments.done"@.len());
    assert("response.output_item.added"@.len() != "response.file_search_call.in_progress"@.len());
    assert("response.output_item.added"@.len() != "response.file_search_call.searching"@.len());
    assert("response.output_item.added"@.len() != "response.file_search_call.completed"@.len());
    assert("response.output_item.added"@.len() != "response.web_search_call.in_progress"@.len());
    assert("response.output_item.added"@.len() != "response.web_search_call.searching"@.len());
    assert("response.output_item.added"@.len() != "response.web_search_call.completed"@.len());
    assert("response.output_item.added"@.len() != "error"@.len());
    assert("response.output_item.done"@.len() != "response.content_part.added"@.len());
    assert("response.output_item.done"@.len() != "response.content_part.done"@.len());
    assert("response.output_item.done"@.len() != "response.output_text.delta"@.len());
    assert("response.output_item.done"@.len() != "response.output_text.annotation.added"@.len());
    assert("response.output_item.done"@[16] != "response.output_text.done"@[16]);
    assert("response.output_item.done"@.len() != "response.refusal.delta"@.len());
    assert("response.output_item.done"@.len() != "response.refusal.done"@.len());
    assert("response.output_item.done"@.len() != "response.function_call_arguments.delta"@.len());
    assert("response.output_item.done"@.len() != "response.function_call_arguments.done"@.len());
    assert("response.output_item.done"@.len() != "response.file_search_call.in_progress"@.len());
    assert("response.output_item.done"@.len() != "response.file_search_call.searching"@.len());
    assert("response.output_item.done"@.len() != "response.file_search_call.completed"@.len());
    assert("response.output_item.done"@.len() != "response.web_search_call.in_progress"@.len());
    assert("response.output_item.done"@.len() != "response.web_search_call.searching"@.len());
    assert("response.output_item.done"@.len() != "response.web_search_call.completed"@.len());
    assert("response.output_item.done"@.len() != "error"@.len());
    assert("response.content_part.added"@.len() != "response.content_part.done"@.len());
    assert("response.content_part.added"@.len() != "response.output_text.delta"@.len());
    assert("response.content_part.added"@.len() != "response.output_text.annotation.added"@.len());
    assert("response.content_part.added"@.len() != "response.output_text.done"@.len());
    assert("response.content_part.added"@.len() != "response.refusal.delta"@.len());
    assert("response.content_part.added"@.len() != "response.refusal.done"@.len());
    assert("response.content_part.added"@.len() != "response.function_call_arguments.delta"@.len());
    assert("response.content_part.added"@.len() != "response.function_call_arguments.done"@.len());
    assert("response.content_part.added"@.len() != "response.file_search_call.in_progress"@.len());
    assert("response.content_part.added"@.len() != "response.file_search_call.searching"@.len());
    assert("response.content_part.added"@.len() != "response.file_search_call.completed"@.len());
    assert("response.content_part.added"@.len() != "response.web_search_call.in_progress"@.len());
    assert("response.content_part.added"@.len() != "response.web_search_call.searching"@.len());
    assert("response.content_part.added"@.len() != "response.web_search_call.completed"@.len());
    assert("response.content_part.added"@.len() != "error"@.len());
    assert("response.content_part.done"@[9] != "response.output_text.delta"@[9]);
    assert("response.content_part.done"@.len() != "response.output_text.annotation.added"@.len());
    assert("response.content_part.done"@.len() != "response.output_text.done"@.len());
    assert("response.content_part.done"@.len() != "response.refusal.delta"@.len());
    assert("response.content_part.done"@.len() != "response.refusal.done"@.len());
    assert("response.content_part.done"@.len() != "response.function_call_arguments.delta"@.len());
    assert("response.content_part.done"@.len() != "response.function_call_arguments.done"@.len());
    assert("response.content_part.done"@.len() != "response.file_search_call.in_progress"@.len());
    assert("response.content_part.done"@.len() != "response.file_search_call.searching"@.len());
    assert("response.content_part.done"@.len() != "response.file_search_call.completed"@.len());
    assert("response.content_part.done"@.len() != "response.web_search_call.in_progress"@.len());
    assert("response.content_part.done"@.len() != "response.web_search_call.searching"@.len());
    assert("response.content_part.done"@.len() != "response.web_search_call.completed"@.len());
    assert("response.content_part.done"@.len() != "error"@.len());
    assert("response.output_text.delta"@.len() != "response.output_text.annotation.added"@.len());
    assert("response.output_text.delta"@.len() != "response.output_text.done"@.len());
    assert("response.output_text.delta"@.len() != "response.refusal.delta"@.len());
    assert("response.output_text.delta"@.len() != "response.refusal.done"@.len());
    assert("response.output_text.delta"@.len() != "response.function_call_arguments.delta"@.len());
    assert("response.output_text.delta"@.len() != "response.function_call_arguments.done"@.len());
    assert("response.output_text.delta"@.len() != "response.file_search_call.in_progress"@.len());
    assert("response.output_text.delta"@.len() != "response.file_search_call.searching"@.len());
    assert("response.output_text.delta"@.len() != "response.file_search_call.completed"@.len());
    assert("response.output_text.delta"@.len() != "response.web_search_call.in_progress"@.len());
    assert("response.output_text.delta"@.len() != "response.web_search_call.searching"@.len());
    assert("response.output_text.delta"@.len() != "response.web_search_call.completed"@.len());
    assert("response.output_text.delta"@.len() != "error"@.len());
    assert("response.output_text.annotation.added"@.len() != "response.output_text.done"@.len());
    assert("response.output_text.annotation.added"@.len() != "response.refusal.delta"@.len());
    assert("response.output_text.annotation.added"@.len() != "response.refusal.done"@.len());
    assert("response.output_text.annotation.added"@.len() != "response.function_call_arguments.delta"@.len());
    assert("response.output_text.annotation.added"@[9] != "response.function_call_arguments.done"@[9]);
    assert("response.output_text.annotation.added"@[9] != "response.file_search_call.in_progress"@[9]);
    assert("response.output_text.annotation.added"@.len() != "response.file_search_call.searching"@.len());
    assert("response.output_text.annotation.added"@.len() != "response.file_search_call.completed"@.len());
    assert("response.output_text.annotation.added"@.len() != "response.web_search_call.in_progress"@.len());
    assert("response.output_text.annotation.added"@.len() != "response.web_search_call.searching"@.len());
    assert("response.output_text.annotation.added"@.len() != "response.web_search_call.completed"@.len());
    assert("response.output_text.annotation.added"@.len() != "error"@.len());
    assert("response.output_text.done"@.len() != "response.refusal.delta"@.len());
    assert("response.output_text.done"@.len() != "response.refusal.done"@.len());
    assert("response.output_text.done"@.len() != "response.function_call_arguments.delta"@.len());
    assert("response.output_text.done"@.len() != "response.function_call_arguments.done"@.len());
    assert("response.output_text.done"@.len() != "response.file_search_call.in_progress"@.len());
    assert("response.output_text.done"@.len() != "response.file_search_call.searching"@.len());
    assert("response.output_text.done"@.len() != "response.file_search_call.completed"@.len());
    assert("response.output_text.done"@.len() != "response.web_search_call.in_progress"@.len());
    assert("response.output_text.done"@.len() != "response.web_search_call.searching"@.len());
    assert("response.output_text.done"@.len() != "response.web_search_call.completed"@.len());
    assert("response.output_text.done"@.len() != "error"@.len());
    assert("response.refusal.delta"@.len() != "response.refusal.done"@.len());
    assert("response.refusal.delta"@.len() != "response.function_call_arguments.delta"@.len());
    assert("response.refusal.delta"@.len() != "response.function_call_arguments.done"@.len());
    assert("response.refusal.delta"@.len() != "response.file_search_call.in_progress"@.len());
    assert("response.refusal.delta"@.len() != "response.file_search_call.searching"@.len());
    assert("response.refusal.delta"@.len() != "response.file_search_call.completed"@.len());
    assert("response.refusal.delta"@.len() != "response.web_search_call.in_progress"@.len());
    assert("response.refusal.delta"@.len() != "response.web_search_call.searching"@.len());
    assert("response.refusal.delta"@.len() != "response.web_search_call.completed"@.len());
    assert("response.refusal.delta"@.len() != "error"@.len());
    assert("response.refusal.done"@.len() != "response.function_call_arguments.delta"@.len());
    assert("response.refusal.done"@.len() != "response.function_call_arguments.done"@.len());
    assert("response.refusal.done"@.len() != "response.file_search_call.in_progress"@.len());
    assert("response.refusal.done"@.len() != "response.file_search_call.searching"@.len());
    assert("response.refusal.done"@.len() != "response.file_search_call.completed"@.len());
    assert("response.refusal.done"@.len() != "response.web_search_call.in_progress"@.len());
    assert("response.refusal.done"@.len() != "response.web_search_call.searching"@.len());
    assert("response.refusal.done"@.len() != "response.web_search_call.completed"@.len());
    assert("response.refusal.done"@.len() != "error"@.len());
    assert("response.function_call_arguments.delta"@.len() != "response.function_call_arguments.done"@.len());
    assert("response.function_call_arguments.delta"@.len() != "response.file_search_call.in_progress"@.len());
    assert("response.function_call_arguments.delta"@.len() != "response.file_search_call.searching"@.len());
    assert("response.function_call_arguments.delta"@.len() != "response.file_search_call.completed"@.len());
    assert("response.function_call_arguments.delta"@.len() != "response.web_search_call.in_progress"@.len());
    assert("response.function_call_arguments.delta"@.len() != "response.web_search_call.searching"@.len());
    assert("response.function_call_arguments.delta"@.len() != "response.web_search_call.completed"@.len());
    assert("response.function_call_arguments.delta"@.len() != "error"@.len());
    assert("response.function_call_arguments.done"@[10] != "response.file_search_call.in_progress"@[10]);
    assert("response.function_call_arguments.done"@.len() != "response.file_search_call.searching"@.len());
    assert("response.function_call_arguments.done"@.len() != "response.file_search_call.completed"@.len());
    assert("response.function_call_arguments.done"@.len() != "response.web_search_call.in_progress"@.len());
    assert("response.function_call_arguments.done"@.len() != "response.web_search_call.searching"@.len());
    assert("response.function_call_arguments.done"@.len() != "response.web_search_call.completed"@.len());
    assert("response.function_call_arguments.done"@.len() != "error"@.len());
    assert("response.file_search_call.in_progress"@.len() != "response.file_search_call.searching"@.len());
    assert("response.file_search_call.in_progress"@.len() != "response.file_search_call.completed"@.len());
    assert("response.file_search_call.in_progress"@.len() != "response.web_search_call.in_progress"@.len());
    assert("response.file_search_call.in_progress"@.len() != "response.web_search_call.searching"@.len());
    assert("response.file_search_call.in_progress"@.len() != "response.web_search_call.completed"@.len());
    assert("response.file_search_call.in_progress"@.len() != "error"@.len());
    assert("response.file_search_call.searching"@[26] != "response.file_search_call.completed"@[26]);
    assert("response.file_search_call.searching"@.len() != "response.web_search_call.in_progress"@.len());
    assert("response.file_search_call.searching"@.len() != "response.web_search_call.searching"@.len());
    assert("response.file_search_call.searching"@.len() != "response.web_search_call.completed"@.len());
    assert("response.file_search_call.searching"@.len() != "error"@.len());
    assert("response.file_search_call.completed"@.len() != "response.web_search_call.in_progress"@.len());
    assert("response.file_search_call.completed"@.len() != "response.web_search_call.searching"@.len());
    assert("response.file_search_call.completed"@.len() != "response.web_search_call.completed"@.len());
    assert("response.file_search_call.completed"@.len() != "error"@.len());
    assert("response.web_search_call.in_progress"@.len() != "response.web_search_call.searching"@.len());
    assert("response.web_search_call.in_progress"@.len() != "response.web_search_call.completed"@.len());
    assert("response.web_search_call.in_progress"@.len() != "error"@.len());
    assert("response.web_search_call.searching"@[25] != "response.web_search_call.completed"@[25]);
    assert("response.web_search_call.searching"@.len() != "error"@.len());
    assert("response.web_search_call.completed"@.len() != "error"@.len());
}

} // verus!
