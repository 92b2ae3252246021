use vstd::prelude::*;

use crate::tree::{Tree, GenericValue};

verus! {

/// The grammar that a manifest text is written in.
#[derive(Clone, Copy, PartialEq, Eq, Structural, Debug)]
pub enum ContentType {
    Yaml,
    Json,
    Toml,
}

/// The text is not well-formed in the grammar it was declared to be in.
#[derive(Clone, Copy, PartialEq, Eq, Structural, Debug)]
pub enum SyntaxError {
    Toml,
    Json,
    Yaml,
}

/// The value tree of the `toml` crate, handed from `toml::from_str` to `from_toml`.
#[verifier::external_type_specification]
#[verifier::external_body]
pub struct ExTomlValue(toml::Value);

/// The value tree of `serde_json`, handed from `serde_json::from_str` to `from_json`.
#[verifier::external_type_specification]
#[verifier::external_body]
pub struct ExJsonValue(serde_json::Value);

/// The value tree of `serde_yml`, handed from `serde_yml::from_str` to `from_yaml`.
#[verifier::external_type_specification]
#[verifier::external_body]
pub struct ExYamlValue(serde_yml::Value);

/// The error of `toml::from_str`; only told apart from success.
#[verifier::external_type_specification]
#[verifier::external_body]
pub struct ExTomlError(toml::de::Error);

/// The error of `serde_json::from_str`; only told apart from success.
#[verifier::external_type_specification]
#[verifier::external_body]
pub struct ExJsonError(serde_json::Error);

/// The error of `serde_yml::from_str`; only told apart from success.
#[verifier::external_type_specification]
#[verifier::external_body]
pub struct ExYamlError(serde_yml::Error);

/// The tree that `toml::from_str` reads from a TOML document; `None` where the text is no
/// TOML document.
pub uninterp spec fn toml_document(text: Seq<char>) -> Option<Tree>;

/// The tree that `serde_json::from_str` reads from a JSON text; `None` where the text is no
/// JSON value.
pub uninterp spec fn json_document(text: Seq<char>) -> Option<Tree>;

/// The tree that `serde_yml::from_str` reads from a YAML document; `None` where the text is
/// no YAML document.
pub uninterp spec fn yaml_document(text: Seq<char>) -> Option<Tree>;

/// The tree that `text`, declared to be written in `format`, stands for.
pub open spec fn decoded(text: Seq<char>, format: ContentType) -> Option<Tree> {
    match format {
        ContentType::Toml => toml_document(text),
        ContentType::Json => json_document(text),
        ContentType::Yaml => yaml_document(text),
    }
}

/// Copies a `toml::Value` node for node (a date-time becomes `Other`); called only from
/// `parse_toml`.
#[verifier::external_body]
fn from_toml(v: toml::Value) -> GenericValue {
    match v {
        toml::Value::String(s) => GenericValue::Str(s),
        toml::Value::Integer(n) => GenericValue::Integer(n as i128),
        toml::Value::Float(_) => GenericValue::Float,
        toml::Value::Boolean(b) => GenericValue::Boolean(b),
        toml::Value::Datetime(_) => GenericValue::Other,
        toml::Value::Array(a) => GenericValue::Sequence(a.into_iter().map(from_toml).collect()),
        toml::Value::Table(t) => GenericValue::Table(t.into_iter().map(|(k, v)| (k, from_toml(v))).collect()),
    }
}

/// Copies a `serde_json::Value` node for node, reading numbers with `Number::as_i128` (a number
/// that it gives no integer for is a float); called only from `parse_json`.
#[verifier::external_body]
fn from_json(v: serde_json::Value) -> GenericValue {
    match v {
        serde_json::Value::Null => GenericValue::Null,
        serde_json::Value::Bool(b) => GenericValue::Boolean(b),
        serde_json::Value::Number(n) => n.as_i128().map_or(GenericValue::Float, GenericValue::Integer),
        serde_json::Value::String(s) => GenericValue::Str(s),
        serde_json::Value::Array(a) => GenericValue::Sequence(a.into_iter().map(from_json).collect()),
        serde_json::Value::Object(m) => GenericValue::Table(m.into_iter().map(|(k, v)| (k, from_json(v))).collect()),
    }
}

/// Copies a `serde_yml::Value` node for node (a tagged node becomes `Other`); called only from
/// `parse_yaml`.
#[verifier::external_body]
fn from_yaml(v: serde_yml::Value) -> GenericValue {
    match v {
        serde_yml::Value::Null => GenericValue::Null,
        serde_yml::Value::Bool(b) => GenericValue::Boolean(b),
        serde_yml::Value::Number(serde_yml::Number::Integer(n)) => GenericValue::Integer(n as i128),
        serde_yml::Value::Number(serde_yml::Number::Float(_)) => GenericValue::Float,
        serde_yml::Value::String(s) => GenericValue::Str(s),
        serde_yml::Value::Sequence(a) => GenericValue::Sequence(a.into_iter().map(from_yaml).collect()),
        serde_yml::Value::Mapping(m) => GenericValue::Table(m.into_iter().map(|(k, v)| (k, from_yaml(v))).collect()),
        serde_yml::Value::Tagged(_) => GenericValue::Other,
    }
}

/// Relies on `toml::from_str` read into a `toml::Value`: the outcome depends on the text alone.
#[verifier::external_body]
fn parse_toml(text: &str) -> (r: Result<GenericValue, toml::de::Error>)
    ensures
        match r {
            Ok(v) => toml_document(text@) == Some(v@),
            Err(_) => toml_document(text@) is None,
        },
{
    toml::from_str::<toml::Value>(text).map(from_toml)
}

/// Relies on `serde_json::from_str` read into a `serde_json::Value`: the outcome depends on the
/// text alone.
#[verifier::external_body]
fn parse_json(text: &str) -> (r: Result<GenericValue, serde_json::Error>)
    ensures
        match r {
            Ok(v) => json_document(text@) == Some(v@),
            Err(_) => json_document(text@) is None,
        },
{
    serde_json::from_str::<serde_json::Value>(text).map(from_json)
}

/// Relies on `serde_yml::from_str` read into a `serde_yml::Value`: the outcome depends on the
/// text alone.
#[verifier::external_body]
fn parse_yaml(text: &str) -> (r: Result<GenericValue, serde_yml::Error>)
    ensures
        match r {
            Ok(v) => yaml_document(text@) == Some(v@),
            Err(_) => yaml_document(text@) is None,
        },
{
    serde_yml::from_str::<serde_yml::Value>(text).map(from_yaml)
}

/// Reads `text` in the grammar `format` into a format-neutral tree.
pub fn decode(text: &str, format: ContentType) -> (r: Result<GenericValue, SyntaxError>)
    ensures
        match r {
            Ok(v) => decoded(text@, format) == Some(v@),
            Err(e) => decoded(text@, format) is None && e == match format {
                ContentType::Toml => SyntaxError::Toml,
                ContentType::Json => SyntaxError::Json,
                ContentType::Yaml => SyntaxError::Yaml,
            },
        },
{
    match format {
        ContentType::Toml => match parse_toml(text) {
            Ok(v) => Ok(v),
            Err(_) => Err(SyntaxError::Toml),
        },
        ContentType::Json => match parse_json(text) {
            Ok(v) => Ok(v),
            Err(_) => Err(SyntaxError::Json),
        },
        ContentType::Yaml => match parse_yaml(text) {
            Ok(v) => Ok(v),
            Err(_) => Err(SyntaxError::Yaml),
        },
    }
}

} // verus!
