//! The boundary to the YAML parser. The `serde_yaml` crate turns the
//! configuration text into a document tree; the small trusted functions
//! here hand that tree to the verified configuration logic as plain
//! values, one shape question at a time.

use vstd::prelude::*;

verus! {

#[verifier::external_type_specification]
#[verifier::external_body]
pub struct ExYamlValue(serde_yaml::Value);

/// A scalar read from the configuration document, reduced to the value
/// kinds the configuration knows: text, an unsigned integer, a flag, or
/// something else (which no field accepts).
#[derive(Debug)]
pub enum YamlScalar {
    /// A YAML string.
    Text(String),
    /// A YAML number that fits an unsigned 64-bit integer.
    UInt(u64),
    /// A YAML boolean.
    Flag(bool),
    /// Any other YAML value.
    Other,
}

/// The shape of the top level of the configuration document: an empty
/// document, a mapping with its entries, or something that is no mapping.
pub enum YamlTop {
    /// The document is empty (YAML null).
    Empty,
    /// The document is a mapping; the entries come in document order.
    Entries(Vec<(serde_yaml::Value, serde_yaml::Value)>),
    /// The document is a scalar or a sequence.
    NotMapping,
}

/// Relies on `serde_yaml::from_str::<Value>`: parses a YAML document into
/// a value tree, or reports a syntax error as text.
#[verifier::external_body]
pub fn yaml_from_str(s: &str) -> Result<serde_yaml::Value, String> {
    serde_yaml::from_str::<serde_yaml::Value>(s).map_err(|e| format!("{}", e))
}

/// Relies on `serde_yaml::Mapping::iter`: hands out the top-level mapping
/// entries in document order. The match only tells the `Value` variants
/// apart.
#[verifier::external_body]
pub fn yaml_top_entries(v: &serde_yaml::Value) -> YamlTop {
    match v {
        serde_yaml::Value::Null => YamlTop::Empty,
        serde_yaml::Value::Mapping(m) => YamlTop::Entries(
            m.iter().map(|(k, x)| (k.clone(), x.clone())).collect(),
        ),
        _ => YamlTop::NotMapping,
    }
}

/// Relies on `serde_yaml::Number::as_u64` and the `Value` variants: reads
/// a scalar from the document tree.
#[verifier::external_body]
pub fn yaml_scalar(v: &serde_yaml::Value) -> YamlScalar {
    match v {
        serde_yaml::Value::String(s) => YamlScalar::Text(s.clone()),
        serde_yaml::Value::Bool(b) => YamlScalar::Flag(*b),
        serde_yaml::Value::Number(n) => match n.as_u64() {
            Some(u) => YamlScalar::UInt(u),
            None => YamlScalar::Other,
        },
        _ => YamlScalar::Other,
    }
}

} // verus!
