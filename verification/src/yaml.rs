//! Access to parsed YAML documents.
//!
//! The parser and its node type belong to the `yaml_rust` crate. Nothing in
//! this file is proved: each function states what the one function of the
//! crate that it calls does, over a name for that function's result.

use vstd::prelude::*;
use yaml_rust::scanner::ScanError;
use yaml_rust::Yaml;
use yaml_rust::YamlLoader;

verus! {

/// A node of a parsed YAML document, opaque to the verifier.
#[verifier::external_type_specification]
#[verifier::external_body]
pub struct ExYaml(Yaml);

/// The failure that the YAML scanner reports on malformed input.
#[verifier::external_type_specification]
#[verifier::external_body]
pub struct ExScanError(ScanError);

/// The documents that `YamlLoader::load_from_str` reads from `source`, or
/// `None` where it reports a scan error.
pub uninterp spec fn yaml_documents(source: Seq<char>) -> Option<Seq<Yaml>>;

/// `YamlLoader::load_from_str`: the documents of `source`, in order.
#[verifier::external_body]
pub(crate) fn load_documents(source: &str) -> (loaded: Result<Vec<Yaml>, ScanError>)
    ensures
        match loaded {
            Ok(documents) => yaml_documents(source@) == Some(documents@),
            Err(_) => yaml_documents(source@) is None,
        },
{
    YamlLoader::load_from_str(source)
}

/// The node that indexing `node` by the string `key` yields: the value that
/// a mapping holds under that key, and the bad value where `node` is no
/// mapping or has no such key.
pub uninterp spec fn yaml_member(node: Yaml, key: Seq<char>) -> Yaml;

/// `Index<&str>` of `Yaml`: the value stored under `key`.
#[verifier::external_body]
pub(crate) fn member<'a>(node: &'a Yaml, key: &str) -> (found: &'a Yaml)
    ensures
        *found == yaml_member(*node, key@),
{
    &node[key]
}

/// Whether `node` is the bad value.
pub uninterp spec fn yaml_is_bad(node: Yaml) -> bool;

/// `Yaml::is_badvalue`: whether the node is the bad value.
#[verifier::external_body]
pub(crate) fn is_bad(node: &Yaml) -> (bad: bool)
    ensures
        bad == yaml_is_bad(*node),
{
    node.is_badvalue()
}

/// The elements of `node` where it is a sequence.
pub uninterp spec fn yaml_items(node: Yaml) -> Option<Seq<Yaml>>;

/// `Yaml::as_vec`: the elements of a sequence node, `None` for any other.
#[verifier::external_body]
pub(crate) fn items<'a>(node: &'a Yaml) -> (found: Option<&'a Vec<Yaml>>)
    ensures
        match found {
            Some(elements) => yaml_items(*node) == Some(elements@),
            None => yaml_items(*node) is None,
        },
{
    node.as_vec()
}

/// The text of `node` where it is a string scalar.
pub uninterp spec fn yaml_text(node: Yaml) -> Option<Seq<char>>;

/// `Yaml::as_str`: the text of a string node, `None` for any other.
#[verifier::external_body]
pub(crate) fn text<'a>(node: &'a Yaml) -> (found: Option<&'a str>)
    ensures
        match found {
            Some(value) => yaml_text(*node) == Some(value@),
            None => yaml_text(*node) is None,
        },
{
    node.as_str()
}

} // verus!
