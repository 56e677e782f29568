//! A YAML document as plain values, and the lookups the workflow logic makes in it.
use vstd::prelude::*;
use crate::text::{chars, str_eq};

verus! {

/// A YAML value: scalars, sequences, mappings (in document order) and tagged values.
#[derive(Debug)]
pub enum YamlValue {
    Null,
    Bool(bool),
    /// A number, in the text form the document gives it.
    Number(String),
    String(String),
    Sequence(Vec<YamlValue>),
    Mapping(Vec<(YamlValue, YamlValue)>),
    Tagged(String, Box<YamlValue>),
}

/// The document a YAML text holds, in the library's form; none when the
/// text is not YAML.
pub uninterp spec fn yaml_parsed(text: Seq<char>) -> Option<YamlValue>;

/// serde_yaml's value, carried only from the parse to its conversion.
#[verifier::external_type_specification]
#[verifier::external_body]
pub struct ExYamlDocument(serde_yaml::Value);

/// Converts a serde_yaml value into the library's form, variant by variant:
/// a number as the text serde_yaml prints for it, a tag as its text.
///
/// Trusted: `serde_yaml::Number`'s and `Tag`'s `Display`; nothing is stated
/// here, the claim is `parse_yaml_text`'s.
#[verifier::external_body]
fn yaml_from_value(v: &serde_yaml::Value) -> YamlValue {
    match v {
        serde_yaml::Value::Null => YamlValue::Null,
        serde_yaml::Value::Bool(b) => YamlValue::Bool(*b),
        serde_yaml::Value::Number(n) => YamlValue::Number(n.to_string()),
        serde_yaml::Value::String(s) => YamlValue::String(s.clone()),
        serde_yaml::Value::Sequence(items) => YamlValue::Sequence(items.iter().map(yaml_from_value).collect()),
        serde_yaml::Value::Mapping(m) => {
            YamlValue::Mapping(m.iter().map(|(k, v)| (yaml_from_value(k), yaml_from_value(v))).collect())
        },
        serde_yaml::Value::Tagged(t) => YamlValue::Tagged(t.tag.to_string(), Box::new(yaml_from_value(&t.value))),
    }
}

/// Parses a YAML text.
///
/// Trusted: `serde_yaml::from_str::<serde_yaml::Value>`, then the
/// conversion above. The document is named `yaml_parsed`; the YAML grammar
/// is not restated. On failure serde_yaml's message is passed on, and
/// nothing is stated of it.
#[verifier::external_body]
pub(crate) fn parse_yaml_text(text: &str) -> (r: Result<YamlValue, String>)
    ensures
        match r {
            Ok(v) => yaml_parsed(text@) == Some(v),
            Err(_) => yaml_parsed(text@) is None,
        },
{
    match serde_yaml::from_str::<serde_yaml::Value>(text) {
        Ok(v) => Ok(yaml_from_value(&v)),
        Err(e) => Err(e.to_string()),
    }
}

/// `v` with any tags taken off.
pub open spec fn untag(v: YamlValue) -> YamlValue
    decreases v,
{
    match v {
        YamlValue::Tagged(_, inner) => untag(*inner),
        _ => v,
    }
}

/// The text of `v`, if it is a string.
pub open spec fn yaml_str(v: YamlValue) -> Option<Seq<char>> {
    match untag(v) {
        YamlValue::String(s) => Some(s@),
        _ => None,
    }
}

/// The items of `v`, if it is a sequence.
pub open spec fn yaml_seq(v: YamlValue) -> Option<Seq<YamlValue>> {
    match untag(v) {
        YamlValue::Sequence(items) => Some(items@),
        _ => None,
    }
}

/// The entries of `v`, if it is a mapping.
pub open spec fn yaml_map(v: YamlValue) -> Option<Seq<(YamlValue, YamlValue)>> {
    match untag(v) {
        YamlValue::Mapping(entries) => Some(entries@),
        _ => None,
    }
}

/// The entry key is the string `key`.
pub open spec fn key_is(k: YamlValue, key: Seq<char>) -> bool {
    match k {
        YamlValue::String(s) => s@ == key,
        _ => false,
    }
}

/// The value of the first entry whose key is the string `key`.
pub open spec fn map_lookup(entries: Seq<(YamlValue, YamlValue)>, key: Seq<char>) -> Option<YamlValue>
    decreases entries.len(),
{
    if entries.len() == 0 {
        None
    } else if key_is(entries[0].0, key) {
        Some(entries[0].1)
    } else {
        map_lookup(entries.drop_first(), key)
    }
}

/// The value under the string key `key` of `v`, if `v` is a mapping that has one.
pub open spec fn yaml_get(v: YamlValue, key: Seq<char>) -> Option<YamlValue> {
    match yaml_map(v) {
        Some(entries) => map_lookup(entries, key),
        None => None,
    }
}

/// `v` with any tags taken off.
pub fn untag_ref(v: &YamlValue) -> (r: &YamlValue)
    ensures
        *r == untag(*v),
    decreases v,
{
    match v {
        YamlValue::Tagged(_, inner) => untag_ref(inner),
        _ => v,
    }
}

/// The text of `v`, if it is a string.
pub fn as_str(v: &YamlValue) -> (r: Option<&String>)
    ensures
        match r {
            Some(s) => yaml_str(*v) == Some(s@),
            None => yaml_str(*v) is None,
        },
{
    match untag_ref(v) {
        YamlValue::String(s) => Some(s),
        _ => None,
    }
}

/// The items of `v`, if it is a sequence.
pub fn as_sequence(v: &YamlValue) -> (r: Option<&Vec<YamlValue>>)
    ensures
        match r {
            Some(items) => yaml_seq(*v) == Some(items@),
            None => yaml_seq(*v) is None,
        },
{
    match untag_ref(v) {
        YamlValue::Sequence(items) => Some(items),
        _ => None,
    }
}

/// The entries of `v`, if it is a mapping.
pub fn as_mapping(v: &YamlValue) -> (r: Option<&Vec<(YamlValue, YamlValue)>>)
    ensures
        match r {
            Some(entries) => yaml_map(*v) == Some(entries@),
            None => yaml_map(*v) is None,
        },
{
    match untag_ref(v) {
        YamlValue::Mapping(entries) => Some(entries),
        _ => None,
    }
}

/// Whether the entry key `k` is the string `key`.
fn key_matches(k: &YamlValue, key: &str) -> (r: bool)
    ensures
        r == key_is(*k, key@),
{
    match k {
        YamlValue::String(s) => str_eq(s.as_str(), key),
        _ => false,
    }
}

/// The value of the first entry whose key is the string `key`.
pub fn lookup<'a>(entries: &'a Vec<(YamlValue, YamlValue)>, key: &str) -> (r: Option<&'a YamlValue>)
    ensures
        match r {
            Some(x) => map_lookup(entries@, key@) == Some(*x),
            None => map_lookup(entries@, key@) is None,
        },
{
    let mut i: usize = 0;
    assert(entries@.skip(0) =~= entries@);
    while i < entries.len()
        invariant
            i <= entries@.len(),
            map_lookup(entries@, key@) == map_lookup(entries@.skip(i as int), key@),
        decreases entries@.len() - i,
    {
        let ghost rest = entries@.skip(i as int);
        assert(rest[0] == entries@[i as int]);
        if key_matches(&entries[i].0, key) {
            return Some(&entries[i].1);
        }
        assert(rest.drop_first() =~= entries@.skip(i + 1));
        i = i + 1;
    }
    None
}

/// The value under the string key `key` of `v`.
pub fn get<'a>(v: &'a YamlValue, key: &str) -> (r: Option<&'a YamlValue>)
    ensures
        match r {
            Some(x) => yaml_get(*v, key@) == Some(*x),
            None => yaml_get(*v, key@) is None,
        },
{
    match as_mapping(v) {
        Some(entries) => lookup(entries, key),
        None => None,
    }
}

} // verus!
