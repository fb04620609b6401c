//! The YAML boundary: declarations of the outside parser's types and the
//! trusted wrappers through which the library parses and serializes YAML.
//! Every wrapper's result is deterministic in its arguments, so each is named
//! by an uninterpreted spec function that the verified layers build on.
use vstd::prelude::*;
use serde::Deserialize;
use crate::HelmError;

verus! {

#[verifier::external_type_specification]
#[verifier::external_body]
pub struct ExValue(serde_yaml::Value);

#[verifier::external_type_specification]
#[verifier::external_body]
pub struct ExMapping(serde_yaml::Mapping);

#[verifier::external_type_specification]
#[verifier::external_body]
pub struct ExYamlError(serde_yaml::Error);

/// The key-value mapping that a YAML text parses to, if it is one
/// well-formed mapping document.
pub uninterp spec fn mapping_of(text: Seq<char>) -> Option<serde_yaml::Mapping>;

/// The canonical YAML serialization of a mapping, where one exists.
pub uninterp spec fn yaml_text_of(m: serde_yaml::Mapping) -> Option<Seq<char>>;

/// The mappings that a `---`-separated multi-document YAML stream parses to,
/// if every document is a well-formed mapping.
pub uninterp spec fn documents_of(text: Seq<char>) -> Option<Seq<serde_yaml::Mapping>>;

/// The values that a YAML text parses to, if it is one sequence document.
pub uninterp spec fn value_sequence_of(bytes: Seq<u8>) -> Option<Seq<serde_yaml::Value>>;

/// The value stored under a string key of a mapping, if present.
pub uninterp spec fn mapping_field_of(m: serde_yaml::Mapping, key: Seq<char>) -> Option<
    serde_yaml::Value,
>;

/// The value stored under a string key of a mapping value, if the value is a
/// mapping and the key is present.
pub uninterp spec fn value_field_of(v: serde_yaml::Value, key: Seq<char>) -> Option<
    serde_yaml::Value,
>;

/// The characters of a value, if it is a string value.
pub uninterp spec fn value_str_of(v: serde_yaml::Value) -> Option<Seq<char>>;

/// Relies on serde_yaml::from_str::<Mapping>: parsing is a function of the
/// text alone and fails exactly where the text is not one well-formed mapping
/// document.
#[verifier::external_body]
fn parse_mapping_raw(text: &str) -> (r: Result<serde_yaml::Mapping, serde_yaml::Error>)
    ensures
        r is Ok <==> mapping_of(text@) is Some,
        r is Ok ==> r->Ok_0 == mapping_of(text@)->Some_0,
{
    serde_yaml::from_str(text)
}

/// Relies on serde_yaml::to_string: serialization is a function of the value
/// alone.
#[verifier::external_body]
fn to_yaml_raw(m: &serde_yaml::Mapping) -> (r: Result<String, serde_yaml::Error>)
    ensures
        r is Ok <==> yaml_text_of(*m) is Some,
        r is Ok ==> r->Ok_0@ == yaml_text_of(*m)->Some_0,
{
    serde_yaml::to_string(m)
}

/// Relies on serde_yaml::Deserializer (iterated per document) with
/// Mapping::deserialize: the parse is a function of the text alone, and one
/// document that is not a well-formed mapping fails the whole stream. Note
/// that the parser reads a fully empty document as the empty mapping and
/// keeps it, rather than failing the stream.
#[verifier::external_body]
pub(crate) fn parse_documents(text: &str) -> (r: Result<
    Vec<serde_yaml::Mapping>,
    serde_yaml::Error,
>)
    ensures
        r is Ok <==> documents_of(text@) is Some,
        r is Ok ==> r->Ok_0@ == documents_of(text@)->Some_0,
{
    let mut out: Vec<serde_yaml::Mapping> = Vec::new();
    for doc in serde_yaml::Deserializer::from_str(text) {
        out.push(serde_yaml::Mapping::deserialize(doc)?);
    }
    Ok(out)
}

/// Relies on serde_yaml::from_slice::<Vec<Value>>: the parse is a function of
/// the bytes alone and fails exactly where they are not one sequence document.
#[verifier::external_body]
pub(crate) fn parse_value_sequence(bytes: &[u8]) -> (r: Result<
    Vec<serde_yaml::Value>,
    serde_yaml::Error,
>)
    ensures
        r is Ok <==> value_sequence_of(bytes@) is Some,
        r is Ok ==> r->Ok_0@ == value_sequence_of(bytes@)->Some_0,
{
    serde_yaml::from_slice(bytes)
}

/// Relies on serde_yaml::Mapping::get: the lookup is a function of the
/// mapping and the key alone.
#[verifier::external_body]
pub(crate) fn mapping_field<'a>(m: &'a serde_yaml::Mapping, key: &str) -> (r: Option<
    &'a serde_yaml::Value,
>)
    ensures
        r is Some <==> mapping_field_of(*m, key@) is Some,
        r is Some ==> *r->Some_0 == mapping_field_of(*m, key@)->Some_0,
{
    m.get(key)
}

/// Relies on serde_yaml::Value::get: the lookup is a function of the value
/// and the key alone, and is absent where the value is not a mapping.
#[verifier::external_body]
pub(crate) fn value_field<'a>(v: &'a serde_yaml::Value, key: &str) -> (r: Option<
    &'a serde_yaml::Value,
>)
    ensures
        r is Some <==> value_field_of(*v, key@) is Some,
        r is Some ==> *r->Some_0 == value_field_of(*v, key@)->Some_0,
{
    v.get(key)
}

/// Relies on serde_yaml::Value::as_str: present exactly where the value is a
/// string value, and a function of the value alone.
#[verifier::external_body]
pub(crate) fn value_as_str<'a>(v: &'a serde_yaml::Value) -> (r: Option<&'a str>)
    ensures
        r is Some <==> value_str_of(*v) is Some,
        r is Some ==> r->Some_0@ == value_str_of(*v)->Some_0,
{
    v.as_str()
}

/// Relies on String::from_utf8: it succeeds exactly on valid UTF-8 input, and
/// the result holds the characters those bytes encode.
#[verifier::external_body]
pub(crate) fn decode_utf8(bytes: Vec<u8>) -> (r: Option<String>)
    ensures
        r is Some <==> vstd::utf8::valid_utf8(bytes@),
        r is Some ==> r->Some_0@ == vstd::utf8::decode_utf8(bytes@),
{
    String::from_utf8(bytes).ok()
}

/// The string under a key of a value: present where the value is a mapping
/// that holds the key, and the field is a string.
pub open spec fn value_str_field(v: serde_yaml::Value, key: Seq<char>) -> Option<Seq<char>> {
    match value_field_of(v, key) {
        Some(f) => value_str_of(f),
        None => None,
    }
}

/// Reads the string field under a key of a parsed value, where one is there.
pub fn get_str_field(v: &serde_yaml::Value, key: &str) -> (r: Option<String>)
    ensures
        r is Some <==> value_str_field(*v, key@) is Some,
        r is Some ==> r->Some_0@ == value_str_field(*v, key@)->Some_0,
{
    match value_field(v, key) {
        Some(f) => match value_as_str(f) {
            Some(s) => Some(s.to_owned()),
            None => None,
        },
        None => None,
    }
}

/// Parses a user-supplied values document: one YAML mapping of override keys.
pub fn parse_values(text: &str) -> (r: Result<serde_yaml::Mapping, HelmError>)
    ensures
        r is Ok <==> mapping_of(text@) is Some,
        r is Ok ==> r->Ok_0 == mapping_of(text@)->Some_0,
        r is Err ==> r->Err_0 == HelmError::YamlParse,
{
    match parse_mapping_raw(text) {
        Ok(m) => Ok(m),
        Err(_) => Err(HelmError::YamlParse),
    }
}

/// Serializes a values document to its canonical YAML text.
pub fn values_to_yaml(m: &serde_yaml::Mapping) -> (r: Result<String, HelmError>)
    ensures
        r is Ok <==> yaml_text_of(*m) is Some,
        r is Ok ==> r->Ok_0@ == yaml_text_of(*m)->Some_0,
        r is Err ==> r->Err_0 == HelmError::YamlParse,
{
    match to_yaml_raw(m) {
        Ok(s) => Ok(s),
        Err(_) => Err(HelmError::YamlParse),
    }
}

} // verus!
