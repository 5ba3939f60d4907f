//! The configuration document: an opaque JSON value kept as pretty-printed text.
use vstd::prelude::*;

verus! {

#[verifier::external_type_specification]
#[verifier::external_body]
pub struct ExJsonValue(serde_json::Value);

#[verifier::external_type_specification]
#[verifier::external_body]
pub struct ExJsonError(serde_json::Error);

/// Text that serde_json reads as one JSON value.
pub uninterp spec fn is_json_text(text: Seq<char>) -> bool;

/// The value serde_json reads from `text`.
pub uninterp spec fn json_value_of(text: Seq<char>) -> serde_json::Value;

/// The indented JSON text serde_json writes for `value`.
pub uninterp spec fn pretty_text_of(value: serde_json::Value) -> Seq<char>;

/// Relies on serde_json::from_str: it reads a `Value` exactly when the text
/// is a JSON document it accepts, and the outcome depends on the text alone.
#[verifier::external_body]
fn parse_json(text: &str) -> (r: Result<serde_json::Value, serde_json::Error>)
    ensures
        r is Ok <==> is_json_text(text@),
        r matches Ok(v) ==> v == json_value_of(text@),
{
    serde_json::from_str::<serde_json::Value>(text)
}

/// Relies on serde_json::to_string_pretty: the value as indented JSON text,
/// which depends on the value alone. A `Value` always serializes: its
/// `Serialize` impl has no failing branch, and writing into memory cannot fail.
#[verifier::external_body]
fn pretty_json(value: &serde_json::Value) -> (r: Result<String, serde_json::Error>)
    ensures
        r is Ok,
        r matches Ok(t) ==> t@ == pretty_text_of(*value),
{
    serde_json::to_string_pretty(value)
}

/// Relies on serde_json::Error's `Display`: a readable description of the error.
#[verifier::external_body]
fn json_error_text(error: &serde_json::Error) -> (r: String) {
    error.to_string()
}

/// Why the configuration could not be read or written; each carries the
/// underlying description.
#[derive(Debug)]
pub enum ConfigError {
    /// The file is missing or cannot be read.
    Read(String),
    /// The file's content is not valid JSON.
    Parse(String),
    /// The value cannot be turned into JSON text.
    Serialize(String),
    /// The file cannot be written.
    Write(String),
}

/// The message shown to the user for `e`.
pub open spec fn message_of(e: ConfigError) -> Seq<char> {
    match e {
        ConfigError::Read(d) => "Failed to read file: "@ + d@,
        ConfigError::Parse(d) => "Failed to parse JSON from file: "@ + d@,
        ConfigError::Serialize(d) => "Failed to serialize JSON: "@ + d@,
        ConfigError::Write(d) => "Failed to write file: "@ + d@,
    }
}

impl ConfigError {
    /// A human-readable message naming the step that failed and why.
    pub fn message(&self) -> (r: String)
        ensures
            r@ == message_of(*self),
    {
        match self {
            ConfigError::Read(d) => String::from_str("Failed to read file: ").concat(d.as_str()),
            ConfigError::Parse(d) => String::from_str("Failed to parse JSON from file: ").concat(
                d.as_str(),
            ),
            ConfigError::Serialize(d) => String::from_str("Failed to serialize JSON: ").concat(
                d.as_str(),
            ),
            ConfigError::Write(d) => String::from_str("Failed to write file: ").concat(d.as_str()),
        }
    }
}

/// Reads the configuration from the outcome of reading its file: the file's
/// text, or the description of why it could not be read.
pub fn read_config(content: Result<String, String>) -> (r: Result<serde_json::Value, ConfigError>)
    ensures
        match content {
            Err(d) => r matches Err(ConfigError::Read(e)) && e == d,
            Ok(text) => {
                &&& r is Ok <==> is_json_text(text@)
                &&& r matches Ok(v) ==> v == json_value_of(text@)
                &&& r is Err ==> r->Err_0 is Parse
            },
        },
{
    match content {
        Err(d) => Err(ConfigError::Read(d)),
        Ok(text) => match parse_json(text.as_str()) {
            Ok(value) => Ok(value),
            Err(e) => Err(ConfigError::Parse(json_error_text(&e))),
        },
    }
}

/// The text to store for `value`: pretty-printed JSON. Serializing a value
/// never fails, so the text is always there.
pub fn write_config(value: &serde_json::Value) -> (r: Result<String, ConfigError>)
    ensures
        r is Ok,
        r matches Ok(t) ==> t@ == pretty_text_of(*value),
{
    match pretty_json(value) {
        Ok(text) => Ok(text),
        Err(e) => Err(ConfigError::Serialize(json_error_text(&e))),
    }
}

} // verus!
