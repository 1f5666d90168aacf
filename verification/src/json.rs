use vstd::prelude::*;

verus! {

/// The outcome serde_json reports for parsing a text as a JSON document:
/// `None` when the text is a valid document, and `Some` of the parser's
/// error message otherwise. Parsing is a function of the text alone.
pub uninterp spec fn json_parse_error(text: Seq<char>) -> Option<Seq<char>>;

/// The top-level field named `key` of the valid JSON document `text`, when
/// the document is an object and the field's value is a JSON string;
/// `None` when the document is no object, the field is absent, or its
/// value has another type.
pub uninterp spec fn json_string_field(text: Seq<char>, key: Seq<char>) -> Option<Seq<char>>;

/// serde_json's compact encoding of the JSON object that maps `k1` to the
/// string `v1`, `k2` to `v2`, and `k3` to `v3`.
pub uninterp spec fn json_object3(
    k1: Seq<char>,
    v1: Seq<char>,
    k2: Seq<char>,
    v2: Seq<char>,
    k3: Seq<char>,
    v3: Seq<char>,
) -> Seq<char>;

/// Outcome of looking up a string field in a JSON document.
pub(crate) enum FieldLookup {
    /// The document was not valid JSON; carries the parser's error message.
    NotJson(String),
    /// The document was valid JSON and held the field as a string value.
    Found(String),
    /// The document was valid JSON, but the field was absent or not a string.
    Absent,
}

/// Relies on serde_json::from_str and serde_json::Value::get: `body` is
/// parsed as a JSON document, and the top-level field named `key` is
/// returned when its value is a string. Both results depend on the two
/// texts alone.
#[verifier::external_body]
pub(crate) fn lookup_string_field(body: &str, key: &str) -> (r: FieldLookup)
    ensures
        match r {
            FieldLookup::NotJson(m) => json_parse_error(body@) == Some(m@),
            FieldLookup::Found(t) => json_parse_error(body@) is None && json_string_field(
                body@,
                key@,
            ) == Some(t@),
            FieldLookup::Absent => json_parse_error(body@) is None && json_string_field(
                body@,
                key@,
            ) is None,
        },
{
    match serde_json::from_str::<serde_json::Value>(body) {
        Err(error) => FieldLookup::NotJson(error.to_string()),
        Ok(document) => match document.get(key) {
            Some(serde_json::Value::String(text)) => FieldLookup::Found(text.clone()),
            _ => FieldLookup::Absent,
        },
    }
}

/// Relies on serde_json's Display for Value, a compact encoding of the
/// document: the three keys and string values are put in a serde_json::Map
/// (ordered by key) and the object is encoded, a function of the six texts
/// alone.
#[verifier::external_body]
pub(crate) fn encode_object3(k1: &str, v1: &str, k2: &str, v2: &str, k3: &str, v3: &str) -> (r:
    String)
    ensures
        r@ == json_object3(k1@, v1@, k2@, v2@, k3@, v3@),
{
    let mut object = serde_json::Map::new();
    object.insert(k1.to_string(), serde_json::Value::String(v1.to_string()));
    object.insert(k2.to_string(), serde_json::Value::String(v2.to_string()));
    object.insert(k3.to_string(), serde_json::Value::String(v3.to_string()));
    serde_json::Value::Object(object).to_string()
}

} // verus!
