//! The client's configuration and the decisions of its entry points: the
//! default headers a client sends, the request document each entry point
//! sends, and how a buffered reply is read.

use crate::json::{
    field_of, json_reading, read_json, take_fields, take_optional_text, take_text,
    want_optional_text, want_text, DecodeError, JsonValue,
};
use crate::request::Request;
use vstd::prelude::*;
use vstd::string::StringExecFns;

verus! {

/// Why a client could not be made.
#[derive(Debug, Clone, PartialEq)]
pub enum CreateError {
    /// A header value holds characters that a header may not hold: only
    /// visible characters, spaces and tabs are permitted.
    InvalidApiKey,
    /// The HTTP client could not be created; the text says why.
    CouldNotCreateClient(String),
    /// No API key was given.
    ApiKeyNotFound,
}

/// Whether a text may stand as an HTTP header value: every character is a
/// tab, or at least a space and not DEL. This is the rule of the `http`
/// crate's `HeaderValue::from_str` on UTF-8 bytes: a character beyond ASCII
/// encodes to bytes of 128 and more, which it accepts.
pub open spec fn header_text(s: Seq<char>) -> bool {
    forall|i: int| 0 <= i < s.len() ==> (#[trigger] s[i] == '\t' || (' ' <= s[i] && s[i] != '\x7f'))
}

/// Whether a text may stand as an HTTP header value.
pub fn is_header_text(s: &str) -> (r: bool)
    ensures
        r == header_text(s@),
{
    let n = s.unicode_len();
    let mut i: usize = 0;
    while i < n
        invariant
            n == s@.len(),
            i <= n,
            forall|j: int| 0 <= j < i ==> (#[trigger] s@[j] == '\t' || (' ' <= s@[j] && s@[j] != '\x7f')),
        decreases n - i,
    {
        let c = s.get_char(i);
        if !(c == '\t' || (' ' <= c && c != '\x7f')) {
            return false;
        }
        i = i + 1;
    }
    true
}

/// The value of the authorization header for an API key.
pub open spec fn bearer(key: Seq<char>) -> Seq<char> {
    "Bearer "@ + key
}

/// Builder of a `Client`: the API key, and the optional organization and
/// project headers.
#[derive(Debug, Clone, Default)]
pub struct ClientBuilder {
    /// The API key, sent as `Bearer <key>` in the authorization header.
    pub api_key: Option<String>,
    /// The organization header (`OpenAI-Organization`).
    pub organization: Option<String>,
    /// The project header (`OpenAI-Project`).
    pub project: Option<String>,
}

/// The text held by an optional string.
pub open spec fn text_of(s: Option<String>) -> Option<Seq<char>> {
    match s {
        Some(t) => Some(t@),
        None => None,
    }
}

impl ClientBuilder {
    /// The API key set so far.
    pub open spec fn key(&self) -> Option<Seq<char>> {
        text_of(self.api_key)
    }

    /// The organization set so far.
    pub open spec fn org(&self) -> Option<Seq<char>> {
        text_of(self.organization)
    }

    /// The project set so far.
    pub open spec fn proj(&self) -> Option<Seq<char>> {
        text_of(self.project)
    }

    /// A builder with nothing set.
    pub fn new() -> (r: ClientBuilder)
        ensures
            r.key() is None,
            r.org() is None,
            r.proj() is None,
    {
        ClientBuilder { api_key: None, organization: None, project: None }
    }

    /// Sets the API key.
    pub fn api_key(self, api_key: &str) -> (r: ClientBuilder)
        ensures
            r.key() == Some(api_key@),
            r.org() == self.org(),
            r.proj() == self.proj(),
    {
        ClientBuilder { api_key: Some(String::from_str(api_key)), ..self }
    }

    /// Sets the organization header (`OpenAI-Organization`).
    pub fn organization(self, organization: &str) -> (r: ClientBuilder)
        ensures
            r.key() == self.key(),
            r.org() == Some(organization@),
            r.proj() == self.proj(),
    {
        ClientBuilder { organization: Some(String::from_str(organization)), ..self }
    }

    /// Sets the project header (`OpenAI-Project`).
    pub fn project(self, project: &str) -> (r: ClientBuilder)
        ensures
            r.key() == self.key(),
            r.org() == self.org(),
            r.proj() == Some(project@),
    {
        ClientBuilder { project: Some(String::from_str(project)), ..self }
    }

    /// Whether every header this builder would send may stand as a header.
    pub open spec fn headers_valid(&self) -> bool {
        &&& header_text(bearer(self.key()->Some_0))
        &&& (self.org() is Some ==> header_text(self.org()->Some_0))
        &&& (self.proj() is Some ==> header_text(self.proj()->Some_0))
    }

    /// Finishes the builder. Fails without an API key, and where a header
    /// value holds a character that a header may not hold.
    pub fn build(self) -> (r: Result<Client, CreateError>)
        ensures
            self.key() is None ==> r == Err::<Client, CreateError>(CreateError::ApiKeyNotFound),
            self.key() is Some && !self.headers_valid() ==> r == Err::<Client, CreateError>(
                CreateError::InvalidApiKey,
            ),
            self.key() is Some && self.headers_valid() ==> r is Ok && r->Ok_0.headers_hold(
                bearer(self.key()->Some_0),
                self.org(),
                self.proj(),
            ),
    {
        let key = match self.api_key {
            Some(k) => k,
            None => return Err(CreateError::ApiKeyNotFound),
        };
        let auth = String::from_str("Bearer ").concat(key.as_str());
        if !is_header_text(auth.as_str()) {
            return Err(CreateError::InvalidApiKey);
        }
        let mut headers: Vec<(String, String)> = Vec::new();
        headers.push((String::from_str("authorization"), auth));
        if let Some(org) = self.organization {
            if !is_header_text(org.as_str()) {
                return Err(CreateError::InvalidApiKey);
            }
            headers.push((String::from_str("openai-organization"), org));
        }
        if let Some(project) = self.project {
            if !is_header_text(project.as_str()) {
                return Err(CreateError::InvalidApiKey);
            }
            headers.push((String::from_str("openai-project"), project));
        }
        Ok(Client { headers })
    }
}

/// A configured client: the default headers that every call sends. The
/// calls themselves are made by the caller's HTTP transport.
#[derive(Debug, Clone)]
pub struct Client {
    /// The default headers, as name and value; `ClientBuilder::build` makes
    /// them only from values that may stand as header values.
    pub headers: Vec<(String, String)>,
}

impl Client {
    /// Whether the default headers are the authorization header holding
    /// `auth`, then the organization and the project headers where set.
    pub open spec fn headers_hold(
        &self,
        auth: Seq<char>,
        org: Option<Seq<char>>,
        proj: Option<Seq<char>>,
    ) -> bool {
        let h = self.headers@;
        let n = 1 + (if org is Some { 1int } else { 0 }) + (if proj is Some { 1int } else { 0 });
        &&& h.len() == n
        &&& h[0].0@ == "authorization"@ && h[0].1@ == auth
        &&& org is Some ==> h[1].0@ == "openai-organization"@ && h[1].1@ == org->Some_0
        &&& proj is Some ==> h[n - 1].0@ == "openai-project"@ && h[n - 1].1@ == proj->Some_0
    }

    /// A builder for a client.
    pub fn builder() -> (r: ClientBuilder)
        ensures
            r.key() is None,
            r.org() is None,
            r.proj() is None,
    {
        ClientBuilder::new()
    }

    /// A client with the given API key and no other header.
    pub fn new(api_key: &str) -> (r: Result<Client, CreateError>)
        ensures
            header_text(bearer(api_key@)) ==> r is Ok && r->Ok_0.headers_hold(bearer(api_key@), None, None),
            !header_text(bearer(api_key@)) ==> r == Err::<Client, CreateError>(CreateError::InvalidApiKey),
    {
        Client::builder().api_key(api_key).build()
    }

    /// The default headers, as name and value.
    pub open spec fn header_list(&self) -> Seq<(String, String)> {
        self.headers@
    }

    /// The default headers, as name and value.
    pub fn headers(&self) -> (r: &Vec<(String, String)>)
        ensures
            r@ == self.header_list(),
    {
        &self.headers
    }
    /// The document that the buffered entry point sends for `request`: the
    /// caller's request with its stream flag `false`, whatever the caller
    /// set; every other field as the caller set it, and unset ones absent.
    pub fn create_body(&self, request: Request) -> (r: JsonValue)
        ensures
            request.with_stream(false).encoded_as(r),
            field_of(r->Object_0@, "stream"@) == Some(JsonValue::Bool(false)),
    {
        request.into_wire(false)
    }

    /// The document that the streaming entry point sends for `request`: the
    /// caller's request with its stream flag `true`, whatever the caller set;
    /// every other field as the caller set it, and unset ones absent.
    pub fn stream_body(&self, request: Request) -> (r: JsonValue)
        ensures
            request.with_stream(true).encoded_as(r),
            field_of(r->Object_0@, "stream"@) == Some(JsonValue::Bool(true)),
    {
        request.into_wire(true)
    }
}

/// An error that the service itself reports, with a "bad request" status.
#[derive(Debug, PartialEq)]
pub struct ServiceError {
    /// The kind of error (`"type"` on the wire).
    pub kind: Option<String>,
    /// What went wrong.
    pub message: String,
    /// The parameter that the error concerns.
    pub param: Option<String>,
    /// The error code.
    pub code: Option<String>,
}

impl ServiceError {
    /// The service error that a reply body holds: an object whose `"error"`
    /// holds an object with a `message`, and optionally `type`, `param` and
    /// `code`.
    pub open spec fn decoding(body: JsonValue) -> Result<ServiceError, DecodeError> {
        match body {
            JsonValue::Object(outer) => match field_of(outer@, "error"@) {
                None => Err(DecodeError::MissingField("error")),
                Some(JsonValue::Object(entries)) => match want_optional_text(field_of(entries@, "type"@)) {
                    Err(e) => Err(e),
                    Ok(kind) => match want_text(field_of(entries@, "message"@), "message") {
                        Err(e) => Err(e),
                        Ok(message) => match want_optional_text(field_of(entries@, "param"@)) {
                            Err(e) => Err(e),
                            Ok(param) => match want_optional_text(field_of(entries@, "code"@)) {
                                Err(e) => Err(e),
                                Ok(code) => Ok(ServiceError { kind, message, param, code }),
                            },
                        },
                    },
                },
                Some(_) => Err(DecodeError::InvalidType { expected: "an object" }),
            },
            _ => Err(DecodeError::InvalidType { expected: "an object" }),
        }
    }

    /// Decodes the service error that a reply body holds.
    pub fn decode(body: JsonValue) -> (r: Result<ServiceError, DecodeError>)
        ensures
            r == ServiceError::decoding(body),
    {
        let outer = match body {
            JsonValue::Object(outer) => outer,
            _ => return Err(DecodeError::InvalidType { expected: "an object" }),
        };
        let mut keys: Vec<&str> = Vec::new();
        keys.push("error");
        let mut found = take_fields(outer, &keys);
        let entries = match found.pop().unwrap() {
            None => return Err(DecodeError::MissingField("error")),
            Some(JsonValue::Object(entries)) => entries,
            Some(_) => return Err(DecodeError::InvalidType { expected: "an object" }),
        };
        proof {
            lemma_error_keys_differ();
        }
        let mut keys: Vec<&str> = Vec::new();
        keys.push("type");
        keys.push("message");
        keys.push("param");
        keys.push("code");
        let mut found = take_fields(entries, &keys);
        let code_found = found.pop().unwrap();
        let param_found = found.pop().unwrap();
        let message_found = found.pop().unwrap();
        let kind_found = found.pop().unwrap();
        let kind = match take_optional_text(kind_found) {
            Ok(x) => x,
            Err(e) => return Err(e),
        };
        let message = match take_text(message_found, "message") {
            Ok(x) => x,
            Err(e) => return Err(e),
        };
        let param = match take_optional_text(param_found) {
            Ok(x) => x,
            Err(e) => return Err(e),
        };
        let code = match take_optional_text(code_found) {
            Ok(x) => x,
            Err(e) => return Err(e),
        };
        Ok(ServiceError { kind, message, param, code })
    }
}

/// The field names of a service error are pairwise different.
proof fn lemma_error_keys_differ()
    ensures
        "type"@ != "message"@,
        "type"@ != "param"@,
        "type"@ != "code"@,
        "message"@ != "param"@,
        "message"@ != "code"@,
        "param"@ != "code"@,
{
    reveal_strlit("type");
    reveal_strlit("message");
    reveal_strlit("param");
    reveal_strlit("code");
    assert("type"@.len() != "message"@.len());
    assert("type"@.len() != "param"@.len());
    assert("type"@[0] != "code"@[0]);
    assert("message"@.len() != "param"@.len());
    assert("message"@.len() != "code"@.len());
    assert("param"@.len() != "code"@.len());
}

/// Why a buffered call failed at the transport level.
#[derive(Debug, PartialEq)]
pub enum ReplyError {
    /// The service answered with a status that is neither a success nor
    /// "bad request".
    Status(u16),
    /// The body of the reply could not be decoded.
    Body(DecodeError),
}

/// Whether a status is a success status (200 to 299).
pub open spec fn is_success_status(status: u16) -> bool {
    200 <= status <= 299
}

/// The "bad request" status.
pub const BAD_REQUEST: u16 = 400;

/// What a buffered call returns for a reply: a service error for "bad
/// request", a failure for any other status that is not a success, and for
/// a success the response document.
pub open spec fn reply_outcome(status: u16, body: Seq<char>) -> Result<Result<JsonValue, ServiceError>, ReplyError> {
    if status == BAD_REQUEST {
        match json_reading(body) {
            None => Err(ReplyError::Body(DecodeError::Syntax)),
            Some(v) => match ServiceError::decoding(v) {
                Ok(e) => Ok(Err(e)),
                Err(d) => Err(ReplyError::Body(d)),
            },
        }
    } else if !is_success_status(status) {
        Err(ReplyError::Status(status))
    } else {
        match json_reading(body) {
            None => Err(ReplyError::Body(DecodeError::Syntax)),
            Some(v) => Ok(Ok(v)),
        }
    }
}

/// A "bad request" reply whose body holds a service error gives that error
/// as an ordinary result, not as a failure; every other status that is not a
/// success gives a failure, whatever the body holds.
pub proof fn lemma_bad_request_is_a_result(status: u16, body: Seq<char>)
    ensures
        status == BAD_REQUEST && json_reading(body) is Some && ServiceError::decoding(
            json_reading(body)->Some_0,
        ) is Ok ==> reply_outcome(status, body) == Ok::<Result<JsonValue, ServiceError>, ReplyError>(
            Err(ServiceError::decoding(json_reading(body)->Some_0)->Ok_0),
        ),
        !is_success_status(status) && status != BAD_REQUEST ==> reply_outcome(status, body) == Err::<
            Result<JsonValue, ServiceError>,
            ReplyError,
        >(ReplyError::Status(status)),
{
}

/// Reads the reply to a buffered call. A "bad request" status whose body
/// holds a service error gives that error as an ordinary result; every other
/// status outside 200 to 299 is a failure; a success gives the response
/// document.
pub fn read_reply(status: u16, body: &str) -> (r: Result<Result<JsonValue, ServiceError>, ReplyError>)
    ensures
        r == reply_outcome(status, body@),
{
    if status != BAD_REQUEST && !(200 <= status && status <= 299) {
        return Err(ReplyError::Status(status));
    }
    let v = match read_json(body) {
        Some(v) => v,
        None => return Err(ReplyError::Body(DecodeError::Syntax)),
    };
    if status == BAD_REQUEST {
        match ServiceError::decode(v) {
            Ok(e) => Ok(Err(e)),
            Err(d) => Err(ReplyError::Body(d)),
        }
    } else {
        Ok(Ok(v))
    }
}

} // verus!