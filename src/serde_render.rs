use vstd::prelude::*;
use crate::doc::Doc;
use crate::doc::DocView;
use crate::output_type::SerializeType;

verus! {

#[verifier::external_type_specification]
#[verifier::external_body]
pub struct ExJsonValue(serde_json::Value);

#[verifier::external_type_specification]
#[verifier::external_body]
pub struct ExJsonError(serde_json::Error);

#[verifier::external_type_specification]
#[verifier::external_body]
pub struct ExYamlError(serde_yaml::Error);

/// Why a structured rendering failed: the serializer's own error, kept whole.
#[derive(Debug)]
pub enum OutputError {
    SerdeJson { source: serde_json::Error },
    SerdeYamlError { source: serde_yaml::Error },
}

/// The text that serde_json's `to_string_pretty` writes for a document.
pub uninterp spec fn json_pretty_of(d: DocView) -> Seq<char>;

/// The text that serde_yaml's `to_string` writes for a document.
pub uninterp spec fn yaml_of(d: DocView) -> Seq<char>;

/// Relies on serde_json's `Value` variants and its `From` impls for numbers
/// and strings: each node becomes the `Value` of the same shape. With
/// `preserve_order`, object fields keep their order; a repeated key keeps
/// its first place and its last value.
#[verifier::external_body]
fn json_value(d: &Doc) -> (r: serde_json::Value) {
    match d {
        Doc::Null => serde_json::Value::Null,
        Doc::Bool(b) => serde_json::Value::Bool(*b),
        Doc::Int(n) => serde_json::Value::from(*n),
        Doc::Uint(n) => serde_json::Value::from(*n),
        Doc::Str(s) => serde_json::Value::from(s.as_str()),
        Doc::List(items) => serde_json::Value::Array(items.iter().map(json_value).collect()),
        Doc::Object(fields) => serde_json::Value::Object(
            fields.iter().map(|(k, v)| (k.clone(), json_value(v))).collect(),
        ),
    }
}

/// Relies on serde_json::to_string_pretty: indented JSON, which cannot fail
/// on a `Value` (its map keys are strings and its `Serialize` never fails).
#[verifier::external_body]
fn to_json_pretty(d: &Doc) -> (r: Result<String, serde_json::Error>)
    ensures
        r is Ok && r->Ok_0@ == json_pretty_of(d@),
{
    serde_json::to_string_pretty(&json_value(d))
}

/// Relies on serde_yaml::to_string: a YAML document, which cannot fail on a
/// `Value` (its `Serialize` never fails).
#[verifier::external_body]
fn to_yaml(d: &Doc) -> (r: Result<String, serde_yaml::Error>)
    ensures
        r is Ok && r->Ok_0@ == yaml_of(d@),
{
    serde_yaml::to_string(&json_value(d))
}

/// The text followed by a line break, unless it already ends with one.
pub open spec fn line_terminated(text: Seq<char>) -> Seq<char> {
    if text.len() > 0 && text.last() == '\n' {
        text
    } else {
        text.push('\n')
    }
}

/// Ends the text with a line break unless it already ends with one.
pub fn terminate_line(text: String) -> (r: String)
    ensures
        r@ == line_terminated(text@),
{
    let n = text.as_str().unicode_len();
    if n > 0 && text.as_str().get_char(n - 1) == '\n' {
        text
    } else {
        let mut t = text;
        t.append("\n");
        proof {
            reveal_strlit("\n");
        }
        assert(t@ =~= line_terminated(text@));
        t
    }
}

/// The text written for a document in the given format: the serializer's
/// output, ended with a line break unless it already has one.
pub open spec fn document_text(d: DocView, mode: SerializeType) -> Seq<char> {
    match mode {
        SerializeType::json => line_terminated(json_pretty_of(d)),
        SerializeType::yaml => line_terminated(yaml_of(d)),
    }
}

/// Serializes the document in the given format and ends the text with a
/// line break. A serializer's error would be returned whole, under the
/// variant of its format.
pub fn serde_text(d: &Doc, mode: SerializeType) -> (r: Result<String, OutputError>)
    ensures
        r is Ok && r->Ok_0@ == document_text(d@, mode),
{
    match mode {
        SerializeType::json => match to_json_pretty(d) {
            Ok(s) => Ok(terminate_line(s)),
            Err(e) => Err(OutputError::SerdeJson { source: e }),
        },
        SerializeType::yaml => match to_yaml(d) {
            Ok(s) => Ok(terminate_line(s)),
            Err(e) => Err(OutputError::SerdeYamlError { source: e }),
        },
    }
}

} // verus!
