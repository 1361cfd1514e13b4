//! A typed client library for a model-response service.
//!
//! - `json`: the document tree that every wire form is built from, and the
//!   reading of JSON text.
//! - `request`, `config`, `tools`: the request schema, with encoders whose
//!   contracts state what each document holds and decoders that give it back.
//! - `tool_choice`: the hand-written codec of the one union whose wire form
//!   mixes bare words and tagged objects.
//! - `event`: the events of a streamed response and the decoder that turns
//!   one transport message into one event.
//! - `stream`: the state machine that turns transport notices into the
//!   ordered sequence of events the caller pulls.
//! - `client`: the client's headers, the document each entry point sends,
//!   and how a buffered reply is read.

pub mod client;
pub mod config;
pub mod event;
pub mod json;
pub mod request;
pub mod stream;
pub mod tool_choice;
pub mod tools;
