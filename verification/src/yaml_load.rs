//! Reading YAML text into the plain-value node model.
use vstd::prelude::*;
use saphyr::LoadableYamlNode;
use crate::yaml::{YamlNode, YamlValue, items_value};

verus! {

#[verifier::external_type_specification]
#[verifier::external_body]
pub struct ExSaphyrYaml<'input>(saphyr::Yaml<'input>);

#[verifier::external_type_specification]
#[verifier::external_body]
pub struct ExSaphyrScalar<'input>(saphyr::Scalar<'input>);

/// The documents that `saphyr` reads from a text, or its error message.
pub uninterp spec fn yaml_documents(text: Seq<char>) -> Result<Seq<YamlValue>, Seq<char>>;

/// A `saphyr` scalar as a plain value.
#[verifier::external_body]
fn scalar_from_saphyr(v: &saphyr::Scalar) -> YamlNode {
    match v {
        saphyr::Scalar::Null => YamlNode::Null,
        saphyr::Scalar::Boolean(b) => YamlNode::Bool(*b),
        saphyr::Scalar::Integer(i) => YamlNode::Int(*i),
        saphyr::Scalar::FloatingPoint(x) => YamlNode::Real(x.to_string()),
        saphyr::Scalar::String(s) => YamlNode::Str(s.to_string()),
    }
}

/// One node of a `saphyr` document as a plain value (sequences, mappings
/// in document order, tags by their suffix).
#[verifier::external_body]
fn node_from_saphyr(y: &saphyr::Yaml) -> YamlNode {
    match y {
        saphyr::Yaml::Representation(s, _, _) => YamlNode::Repr(s.to_string()),
        saphyr::Yaml::Value(v) => scalar_from_saphyr(v),
        saphyr::Yaml::Sequence(v) => YamlNode::Sequence(v.iter().map(node_from_saphyr).collect()),
        saphyr::Yaml::Mapping(m) => YamlNode::Mapping(m.iter().map(|(k, v)| (node_from_saphyr(k), node_from_saphyr(v))).collect()),
        saphyr::Yaml::Tagged(t, inner) => YamlNode::Tagged(t.suffix.clone(), Box::new(node_from_saphyr(inner))),
        saphyr::Yaml::Alias(n) => YamlNode::Alias(*n),
        saphyr::Yaml::BadValue => YamlNode::BadValue,
    }
}

/// Calls `saphyr::Yaml::load_from_str` and converts the documents it returns
/// (or its error's message). The result is named `yaml_documents`.
#[verifier::external_body]
pub(crate) fn load_yaml_documents(text: &str) -> (r: Result<Vec<YamlNode>, String>)
    ensures
        match r {
            Ok(docs) => yaml_documents(text@) == Ok::<Seq<YamlValue>, Seq<char>>(items_value(docs@)),
            Err(e) => yaml_documents(text@) == Err::<Seq<YamlValue>, Seq<char>>(e@),
        },
{
    match saphyr::Yaml::load_from_str(text) {
        Ok(docs) => Ok(docs.iter().map(node_from_saphyr).collect()),
        Err(e) => Err(e.to_string()),
    }
}

} // verus!
