//! A JSON document tree of plain values, and the reading of JSON text
//! through serde_json.

use vstd::prelude::*;

verus! {

/// A JSON number: a non-negative integer, a negative integer, or any other
/// number kept as its decimal text.
#[derive(Debug, Clone, PartialEq)]
pub enum JsonNumber {
    Unsigned(u64),
    Negative(i64),
    Decimal(String),
}

/// A JSON document. An object keeps its entries in the order it was built
/// with; where a key occurs twice, the later entry is the one that counts.
/// A document read from text by `read_json` has the keys of each object
/// sorted and unique, as serde_json's map keeps them.
#[derive(Debug, PartialEq)]
pub enum JsonValue {
    Null,
    Bool(bool),
    Number(JsonNumber),
    Str(String),
    Array(Vec<JsonValue>),
    Object(Vec<(String, JsonValue)>),
}

/// The value under `key` in a list of object entries: the last entry with
/// that key.
pub open spec fn field_of(entries: Seq<(String, JsonValue)>, key: Seq<char>) -> Option<JsonValue>
    decreases entries.len(),
{
    if entries.len() == 0 {
        None
    } else if entries.last().0@ == key {
        Some(entries.last().1)
    } else {
        field_of(entries.drop_last(), key)
    }
}

/// Whether `v` is a string holding `text`.
pub open spec fn is_text(v: JsonValue, text: Seq<char>) -> bool {
    v is Str && v->Str_0@ == text
}

/// The entries of an object that holds, under each of `keys`, the value at
/// the same place in `values` where that value is set, and holds nothing else.
pub fn object_of(keys: &Vec<&str>, values: Vec<Option<JsonValue>>) -> (r: Vec<(String, JsonValue)>)
    requires
        keys@.len() == values@.len(),
        forall|a: int, b: int| 0 <= a < b < keys@.len() ==> keys@[a]@ != keys@[b]@,
    ensures
        forall|j: int| 0 <= j < keys@.len() ==> field_of(r@, #[trigger] keys@[j]@) == values@[j],
        forall|k: Seq<char>|
            (forall|j: int| 0 <= j < keys@.len() ==> keys@[j]@ != k) ==> (#[trigger] field_of(r@, k)) is None,
{
    let ghost whole = values@;
    let mut rest = values;
    let mut out: Vec<(String, JsonValue)> = Vec::new();
    let mut j: usize = 0;
    while j < keys.len()
        invariant
            j <= keys@.len(),
            keys@.len() == whole.len(),
            rest@ == whole.subrange(j as int, whole.len() as int),
            forall|a: int, b: int| 0 <= a < b < keys@.len() ==> keys@[a]@ != keys@[b]@,
            forall|i: int| 0 <= i < j ==> field_of(out@, #[trigger] keys@[i]@) == whole[i],
            forall|k: Seq<char>|
                (forall|i: int| 0 <= i < j ==> keys@[i]@ != k) ==> (#[trigger] field_of(out@, k)) is None,
        decreases keys@.len() - j,
    {
        let ghost before = rest@;
        let ghost prev = out@;
        let v = rest.remove(0);
        assert(rest@ =~= before.drop_first());
        assert(v == whole[j as int]);
        assert forall|i: int| 0 <= i < j implies keys@[i]@ != keys@[j as int]@ by {}
        match v {
            Some(x) => push_field(&mut out, keys[j], x),
            None => {},
        }
        assert forall|i: int| 0 <= i < j + 1 implies field_of(out@, #[trigger] keys@[i]@) == whole[i] by {
            if i < j {
                assert(keys@[i]@ != keys@[j as int]@);
            }
        }
        assert forall|k: Seq<char>| (forall|i: int| 0 <= i < j + 1 ==> keys@[i]@ != k) implies (
        #[trigger] field_of(out@, k)) is None by {
            assert(keys@[j as int]@ != k);
            assert(forall|i: int| 0 <= i < j ==> keys@[i]@ != k);
        }
        j = j + 1;
    }
    out
}

/// Appends the entry `key: v` to the entries of an object.
pub fn push_field(entries: &mut Vec<(String, JsonValue)>, key: &str, v: JsonValue)
    ensures
        final(entries)@.len() == old(entries)@.len() + 1,
        final(entries)@.drop_last() == old(entries)@,
        final(entries)@.last().0@ == key@,
        forall|k: Seq<char>|
            #[trigger] field_of(final(entries)@, k) == if k == key@ {
                Some(v)
            } else {
                field_of(old(entries)@, k)
            },
{
    let ghost before = entries@;
    let ghost value = v;
    entries.push((key.to_owned(), v));
    assert(entries@.drop_last() =~= before);
    assert(entries@.last().1 == value);
}

/// The string value of an optional field, where it is set.
pub open spec fn optional_text(s: Option<String>) -> Option<JsonValue> {
    match s {
        Some(t) => Some(JsonValue::Str(t)),
        None => None,
    }
}

/// A string value holding `s`.
pub fn text_value(s: &str) -> (r: JsonValue)
    ensures
        r is Str,
        r->Str_0@ == s@,
{
    JsonValue::Str(s.to_owned())
}

/// In an object whose entries all hold strings, the value under any key is a
/// string.
pub proof fn lemma_field_of_text(entries: Seq<(String, JsonValue)>, key: Seq<char>)
    requires
        all_text(entries),
    ensures
        field_of(entries, key) is Some ==> field_of(entries, key)->Some_0 is Str,
    decreases entries.len(),
{
    if entries.len() > 0 {
        assert(entries[entries.len() - 1].1 is Str);
        assert(all_text(entries.drop_last())) by {
            assert forall|i: int| 0 <= i < entries.drop_last().len() implies (
            #[trigger] entries.drop_last()[i]).1 is Str by {
                assert(entries.drop_last()[i] == entries[i]);
            }
        }
        lemma_field_of_text(entries.drop_last(), key);
    }
}

/// Whether two texts hold the same characters.
pub fn same_text(a: &str, b: &str) -> (r: bool)
    ensures
        r == (a@ == b@),
{
    let n = a.unicode_len();
    if n != b.unicode_len() {
        return false;
    }
    let mut i: usize = 0;
    while i < n
        invariant
            n == a@.len(),
            n == b@.len(),
            i <= n,
            forall|j: int| 0 <= j < i ==> a@[j] == b@[j],
        decreases n - i,
    {
        if a.get_char(i) != b.get_char(i) {
            return false;
        }
        i = i + 1;
    }
    assert(a@ =~= b@);
    true
}

/// Where in `entries` the value under `key` stands, if anywhere.
pub fn find_field(entries: &Vec<(String, JsonValue)>, key: &str) -> (r: Option<usize>)
    ensures
        match r {
            Some(i) => i < entries@.len() && entries@[i as int].0@ == key@ && field_of(entries@, key@)
                == Some(entries@[i as int].1),
            None => field_of(entries@, key@) is None,
        },
{
    let mut n: usize = entries.len();
    assert(entries@.subrange(0, n as int) =~= entries@);
    while n > 0
        invariant
            n <= entries@.len(),
            field_of(entries@, key@) == field_of(entries@.subrange(0, n as int), key@),
        decreases n,
    {
        let ghost pre = entries@.subrange(0, n as int);
        assert(pre.drop_last() =~= entries@.subrange(0, n - 1));
        if same_text(entries[n - 1].0.as_str(), key) {
            return Some(n - 1);
        }
        n = n - 1;
    }
    assert(entries@.subrange(0, 0) =~= Seq::<(String, JsonValue)>::empty());
    None
}

/// Where `key` stands among `keys`, if anywhere.
fn key_index(keys: &Vec<&str>, key: &str) -> (r: Option<usize>)
    ensures
        match r {
            Some(m) => m < keys@.len() && keys@[m as int]@ == key@,
            None => forall|m: int| 0 <= m < keys@.len() ==> keys@[m]@ != key@,
        },
{
    let mut m: usize = 0;
    while m < keys.len()
        invariant
            m <= keys@.len(),
            forall|k: int| 0 <= k < m ==> keys@[k]@ != key@,
        decreases keys@.len() - m,
    {
        if same_text(keys[m], key) {
            return Some(m);
        }
        m = m + 1;
    }
    None
}

/// Takes the values under `keys` out of the entries of an object, each the
/// value of the last entry with that key.
pub fn take_fields(entries: Vec<(String, JsonValue)>, keys: &Vec<&str>) -> (r: Vec<Option<JsonValue>>)
    requires
        forall|a: int, b: int| 0 <= a < b < keys@.len() ==> keys@[a]@ != keys@[b]@,
    ensures
        r@.len() == keys@.len(),
        forall|k: int| 0 <= k < keys@.len() ==> r@[k] == field_of(entries@, keys@[k]@),
{
    let ghost whole = entries@;
    let mut rest = entries;
    let mut slots: Vec<Option<JsonValue>> = Vec::new();
    let mut j: usize = 0;
    while j < keys.len()
        invariant
            j <= keys@.len(),
            slots@.len() == j,
            rest@ == whole,
            forall|k: int| 0 <= k < j ==> slots@[k] is None,
        decreases keys@.len() - j,
    {
        slots.push(None);
        j = j + 1;
    }
    while rest.len() > 0
        invariant
            slots@.len() == keys@.len(),
            forall|a: int, b: int| 0 <= a < b < keys@.len() ==> keys@[a]@ != keys@[b]@,
            forall|k: int|
                0 <= k < keys@.len() ==> field_of(whole, keys@[k]@) == if slots@[k] is Some {
                    slots@[k]
                } else {
                    field_of(rest@, keys@[k]@)
                },
        decreases rest@.len(),
    {
        let ghost before = rest@;
        let (key, value) = rest.pop().unwrap();
        assert(rest@ =~= before.drop_last());
        match key_index(keys, key.as_str()) {
            Some(m) => {
                if slots[m].is_none() {
                    slots.set(m, Some(value));
                }
                assert forall|k: int| 0 <= k < keys@.len() && k != m implies keys@[k]@ != key@ by {
                    if k < m {
                        assert(keys@[k]@ != keys@[m as int]@);
                    } else {
                        assert(keys@[m as int]@ != keys@[k]@);
                    }
                }
            },
            None => {},
        }
    }
    slots
}

/// Whether every entry of an object holds a string.
pub open spec fn all_text(entries: Seq<(String, JsonValue)>) -> bool {
    forall|i: int| 0 <= i < entries.len() ==> (#[trigger] entries[i]).1 is Str
}

/// Whether every entry of an object holds a string.
pub fn entries_all_text(entries: &Vec<(String, JsonValue)>) -> (r: bool)
    ensures
        r == all_text(entries@),
{
    let mut i: usize = 0;
    while i < entries.len()
        invariant
            i <= entries@.len(),
            forall|j: int| 0 <= j < i ==> (#[trigger] entries@[j]).1 is Str,
        decreases entries@.len() - i,
    {
        match &entries[i].1 {
            JsonValue::Str(_) => {},
            _ => {
                assert(!(entries@[i as int].1 is Str));
                return false;
            },
        }
        i = i + 1;
    }
    true
}

#[verifier::external_type_specification]
#[verifier::external_body]
pub struct ExDocument(serde_json::Value);

/// What serde_json reads from a JSON text: `None` where the text is not
/// exactly one JSON value.
pub uninterp spec fn json_reading(text: Seq<char>) -> Option<JsonValue>;

/// Relies on `serde_json::from_str::<serde_json::Value>` to read JSON text;
/// the result depends on the text alone.
#[verifier::external_body]
pub(crate) fn read_json(text: &str) -> (r: Option<JsonValue>)
    ensures
        r == json_reading(text@),
{
    serde_json::from_str::<serde_json::Value>(text).ok().map(from_document)
}

#[verifier::external_type_specification]
#[verifier::external_body]
pub struct ExDocumentNumber(serde_json::Number);

/// Relies on the public variants of `serde_json::Value`: moves one document
/// tree into the other, node for node.
#[verifier::external_body]
fn from_document(v: serde_json::Value) -> JsonValue {
    match v {
        serde_json::Value::Null => JsonValue::Null,
        serde_json::Value::Bool(b) => JsonValue::Bool(b),
        serde_json::Value::Number(n) => JsonValue::Number(from_number(n)),
        serde_json::Value::String(s) => JsonValue::Str(s),
        serde_json::Value::Array(a) => JsonValue::Array(a.into_iter().map(from_document).collect()),
        serde_json::Value::Object(m) => JsonValue::Object(m.into_iter().map(|(k, x)| (k, from_document(x))).collect()),
    }
}

/// Relies on `serde_json::Number::as_u64`, `as_i64` and its `Display`, which
/// tell its three kinds (non-negative, negative, other) apart.
#[verifier::external_body]
fn from_number(n: serde_json::Number) -> JsonNumber {
    match (n.as_u64(), n.as_i64()) {
        (Some(u), _) => JsonNumber::Unsigned(u),
        (None, Some(i)) => JsonNumber::Negative(i),
        (None, None) => JsonNumber::Decimal(n.to_string()),
    }
}

/// Why a document does not decode into a schema type.
#[derive(Debug, Clone, PartialEq)]
pub enum DecodeError {
    /// The text is not exactly one JSON value.
    Syntax,
    /// A value has the wrong shape; `expected` names the shape wanted.
    InvalidType { expected: &'static str },
    /// A tag names no variant of the union at that place.
    UnknownVariant { found: String, expected: &'static str },
    /// A field that the variant requires is absent.
    MissingField(&'static str),
}

/// The string under a required field.
pub open spec fn want_text(f: Option<JsonValue>, key: &'static str) -> Result<String, DecodeError> {
    match f {
        None => Err(DecodeError::MissingField(key)),
        Some(JsonValue::Str(s)) => Ok(s),
        Some(_) => Err(DecodeError::InvalidType { expected: "a string" }),
    }
}

/// The non-negative integer under a required field.
pub open spec fn want_count(f: Option<JsonValue>, key: &'static str) -> Result<u64, DecodeError> {
    match f {
        None => Err(DecodeError::MissingField(key)),
        Some(JsonValue::Number(JsonNumber::Unsigned(n))) => Ok(n),
        Some(_) => Err(DecodeError::InvalidType { expected: "u64" }),
    }
}

/// The string under an optional field: absent and `null` both give `None`.
pub open spec fn want_optional_text(f: Option<JsonValue>) -> Result<Option<String>, DecodeError> {
    match f {
        None => Ok(None),
        Some(JsonValue::Null) => Ok(None),
        Some(JsonValue::Str(s)) => Ok(Some(s)),
        Some(_) => Err(DecodeError::InvalidType { expected: "a string" }),
    }
}

/// The value under a required field, whatever it is.
pub open spec fn want_present(f: Option<JsonValue>, key: &'static str) -> Result<JsonValue, DecodeError> {
    match f {
        None => Err(DecodeError::MissingField(key)),
        Some(v) => Ok(v),
    }
}

/// The string under a required field.
pub fn take_text(f: Option<JsonValue>, key: &'static str) -> (r: Result<String, DecodeError>)
    ensures
        r == want_text(f, key),
{
    match f {
        None => Err(DecodeError::MissingField(key)),
        Some(JsonValue::Str(s)) => Ok(s),
        Some(_) => Err(DecodeError::InvalidType { expected: "a string" }),
    }
}

/// The non-negative integer under a required field.
pub fn take_count(f: Option<JsonValue>, key: &'static str) -> (r: Result<u64, DecodeError>)
    ensures
        r == want_count(f, key),
{
    match f {
        None => Err(DecodeError::MissingField(key)),
        Some(JsonValue::Number(JsonNumber::Unsigned(n))) => Ok(n),
        Some(_) => Err(DecodeError::InvalidType { expected: "u64" }),
    }
}

/// The string under an optional field: absent and `null` both give `None`.
pub fn take_optional_text(f: Option<JsonValue>) -> (r: Result<Option<String>, DecodeError>)
    ensures
        r == want_optional_text(f),
{
    match f {
        None => Ok(None),
        Some(JsonValue::Null) => Ok(None),
        Some(JsonValue::Str(s)) => Ok(Some(s)),
        Some(_) => Err(DecodeError::InvalidType { expected: "a string" }),
    }
}

/// The value under a required field, whatever it is.
pub fn take_present(f: Option<JsonValue>, key: &'static str) -> (r: Result<JsonValue, DecodeError>)
    ensures
        r == want_present(f, key),
{
    match f {
        None => Err(DecodeError::MissingField(key)),
        Some(v) => Ok(v),
    }
}

} // verus!
