use vstd::prelude::*;

verus! {

/// What a YAML value holds, as far as this library builds such values:
/// strings, booleans, sequences and mappings. `Other` stands for a null, a
/// number or a tagged value, of which the model keeps nothing.
pub enum Yaml {
    Text(Seq<char>),
    Flag(bool),
    List(Seq<Yaml>),
    Table(Seq<(Yaml, Yaml)>),
    Other,
}

/// `serde_yml::Value`, carried through as it is.
#[verifier::external_type_specification]
#[verifier::external_body]
pub struct ExValue(serde_yml::Value);

/// `serde_yml::Mapping`, carried through as it is.
#[verifier::external_type_specification]
#[verifier::external_body]
pub struct ExMapping(serde_yml::Mapping);

/// `serde_yml::Error`, carried through as it is.
#[verifier::external_type_specification]
#[verifier::external_body]
pub struct ExYamlError(serde_yml::Error);

/// What a `serde_yml::Value` holds.
pub uninterp spec fn value_model(v: serde_yml::Value) -> Yaml;

/// The entries of a `serde_yml::Mapping`, in the order in which it walks them.
pub uninterp spec fn mapping_entries(m: serde_yml::Mapping) -> Seq<(Yaml, Yaml)>;

/// The text that `serde_yml::to_string` gives for a mapping with these
/// entries, or `None` where it gives an error.
pub uninterp spec fn yaml_text(entries: Seq<(Yaml, Yaml)>) -> Option<Seq<char>>;

/// The models of a list of values, one for one.
pub open spec fn value_models(items: Seq<serde_yml::Value>) -> Seq<Yaml> {
    Seq::new(items.len(), |i: int| value_model(items[i]))
}

/// Whether the string `key` is a key among `entries`.
pub open spec fn has_key(entries: Seq<(Yaml, Yaml)>, key: Seq<char>) -> bool {
    exists|i: int| 0 <= i < entries.len() && #[trigger] entries[i].0 == Yaml::Text(key)
}

/// A position at which the string `key` stands among `entries`; in a
/// mapping there is at most one.
pub open spec fn key_position(entries: Seq<(Yaml, Yaml)>, key: Seq<char>) -> int {
    choose|i: int| 0 <= i < entries.len() && #[trigger] entries[i].0 == Yaml::Text(key)
}

/// The entries after `key` was set to `value`: a new key goes last, a key
/// that is there keeps its place and takes the new value.
pub open spec fn with_entry(entries: Seq<(Yaml, Yaml)>, key: Seq<char>, value: Yaml) -> Seq<
    (Yaml, Yaml),
> {
    if has_key(entries, key) {
        entries.update(key_position(entries, key), (Yaml::Text(key), value))
    } else {
        entries.push((Yaml::Text(key), value))
    }
}

/// Whether a value is built from strings, booleans, sequences and mappings
/// alone.
pub open spec fn is_plain(y: Yaml) -> bool
    decreases y,
{
    match y {
        Yaml::Text(_) => true,
        Yaml::Flag(_) => true,
        Yaml::List(items) => plain_items(items),
        Yaml::Table(entries) => plain_entries(entries),
        Yaml::Other => false,
    }
}

/// Whether every item is plain.
pub open spec fn plain_items(items: Seq<Yaml>) -> bool
    decreases items,
{
    forall|i: int| 0 <= i < items.len() ==> is_plain(#[trigger] items[i])
}

/// Whether every key and value among `entries` is plain.
pub open spec fn plain_entries(entries: Seq<(Yaml, Yaml)>) -> bool
    decreases entries,
{
    forall|i: int|
        0 <= i < entries.len() ==> is_plain((#[trigger] entries[i]).0) && is_plain(entries[i].1)
}

/// `serde_yml::Value::String`: the value holds the string.
#[verifier::external_body]
pub(crate) fn text_value(s: String) -> (r: serde_yml::Value)
    ensures
        value_model(r) == Yaml::Text(s@),
{
    serde_yml::Value::String(s)
}

/// `serde_yml::Value::Bool`: the value holds the boolean.
#[verifier::external_body]
pub(crate) fn flag_value(b: bool) -> (r: serde_yml::Value)
    ensures
        value_model(r) == Yaml::Flag(b),
{
    serde_yml::Value::Bool(b)
}

/// `serde_yml::Value::Sequence`: the value holds the items, in order.
#[verifier::external_body]
pub(crate) fn list_value(items: Vec<serde_yml::Value>) -> (r: serde_yml::Value)
    ensures
        value_model(r) == Yaml::List(value_models(items@)),
{
    serde_yml::Value::Sequence(items)
}

/// `serde_yml::Value::Mapping`: the value holds the mapping's entries.
#[verifier::external_body]
pub(crate) fn table_value(m: serde_yml::Mapping) -> (r: serde_yml::Value)
    ensures
        value_model(r) == Yaml::Table(mapping_entries(m)),
{
    serde_yml::Value::Mapping(m)
}

/// `serde_yml::Mapping::new`: a mapping without entries.
#[verifier::external_body]
pub(crate) fn new_mapping() -> (r: serde_yml::Mapping)
    ensures
        mapping_entries(r) == Seq::<(Yaml, Yaml)>::empty(),
{
    serde_yml::Mapping::new()
}

/// `serde_yml::Mapping::insert` with a string key: a key that the mapping
/// lacks is added last; a key that it has keeps its place and gets the new
/// value.
#[verifier::external_body]
pub(crate) fn mapping_insert(m: &mut serde_yml::Mapping, key: String, value: serde_yml::Value)
    ensures
        mapping_entries(*final(m)) == with_entry(
            mapping_entries(*old(m)),
            key@,
            value_model(value),
        ),
{
    m.insert(serde_yml::Value::String(key), value);
}

/// `serde_yml::to_string` on a mapping of plain values: whether a text comes
/// back, and which, depends on the entries and their order alone.
#[verifier::external_body]
pub(crate) fn mapping_to_text(m: &serde_yml::Mapping) -> (r: Result<String, serde_yml::Error>)
    requires
        plain_entries(mapping_entries(*m)),
    ensures
        match r {
            Ok(s) => yaml_text(mapping_entries(*m)) == Some(s@),
            Err(_) => yaml_text(mapping_entries(*m)) is None,
        },
{
    serde_yml::to_string(m)
}

} // verus!
