//! Reading scalar entries of a TOML table through the `toml` crate.
use vstd::prelude::*;

verus! {

#[verifier::external_type_specification]
#[verifier::external_body]
#[verifier::reject_recursive_types(K)]
#[verifier::reject_recursive_types(V)]
pub struct ExTomlMap<K, V>(toml::map::Map<K, V>);

#[verifier::external_type_specification]
#[verifier::external_body]
pub struct ExTomlValue(toml::Value);

/// A TOML value as far as the configuration reads it.
pub enum TomlScalar {
    Str(Seq<char>),
    Integer(i64),
    Boolean(bool),
    /// A float, datetime, array or table.
    Other,
}

/// What a TOML table holds: each key with its value.
pub uninterp spec fn toml_table_entries(t: toml::Table) -> Map<Seq<char>, TomlScalar>;

/// What a TOML value is.
pub uninterp spec fn toml_value_scalar(v: toml::Value) -> TomlScalar;

/// `toml::map::Map::get`: the value stored under `key`, if any.
#[verifier::external_body]
pub(crate) fn table_get<'a>(t: &'a toml::Table, key: &str) -> (r: Option<&'a toml::Value>)
    ensures
        r is Some <==> toml_table_entries(*t).contains_key(key@),
        r matches Some(v) ==> toml_value_scalar(*v) == toml_table_entries(*t)[key@],
{
    t.get(key)
}

/// `toml::Value::as_str`: the text of a string value.
#[verifier::external_body]
pub(crate) fn value_as_str(v: &toml::Value) -> (r: Option<&str>)
    ensures
        match toml_value_scalar(*v) {
            TomlScalar::Str(s) => r matches Some(x) && x@ == s,
            _ => r is None,
        },
{
    v.as_str()
}

/// `toml::Value::as_integer`: the number of an integer value.
#[verifier::external_body]
pub(crate) fn value_as_integer(v: &toml::Value) -> (r: Option<i64>)
    ensures
        match toml_value_scalar(*v) {
            TomlScalar::Integer(i) => r == Some(i),
            _ => r is None,
        },
{
    v.as_integer()
}

/// `toml::Value::as_bool`: the truth value of a boolean value.
#[verifier::external_body]
pub(crate) fn value_as_bool(v: &toml::Value) -> (r: Option<bool>)
    ensures
        match toml_value_scalar(*v) {
            TomlScalar::Boolean(b) => r == Some(b),
            _ => r is None,
        },
{
    v.as_bool()
}

/// The text stored under `key`, when it is a string.
pub open spec fn entry_str(e: Map<Seq<char>, TomlScalar>, key: Seq<char>) -> Option<Seq<char>> {
    if e.contains_key(key) {
        match e[key] {
            TomlScalar::Str(s) => Some(s),
            _ => None,
        }
    } else {
        None
    }
}

/// The integer stored under `key`, when it is an integer.
pub open spec fn entry_int(e: Map<Seq<char>, TomlScalar>, key: Seq<char>) -> Option<i64> {
    if e.contains_key(key) {
        match e[key] {
            TomlScalar::Integer(i) => Some(i),
            _ => None,
        }
    } else {
        None
    }
}

/// The boolean stored under `key`, false when absent or of another kind.
pub open spec fn entry_flag(e: Map<Seq<char>, TomlScalar>, key: Seq<char>) -> bool {
    e.contains_key(key) && e[key] == TomlScalar::Boolean(true)
}

/// The text stored under `key`, when it is a string.
pub fn get_str<'a>(t: &'a toml::Table, key: &str) -> (r: Option<&'a str>)
    ensures
        match entry_str(toml_table_entries(*t), key@) {
            Some(s) => r matches Some(x) && x@ == s,
            None => r is None,
        },
{
    match table_get(t, key) {
        Some(v) => value_as_str(v),
        None => None,
    }
}

/// The integer stored under `key`, when it is an integer.
pub fn get_integer(t: &toml::Table, key: &str) -> (r: Option<i64>)
    ensures
        r == entry_int(toml_table_entries(*t), key@),
{
    match table_get(t, key) {
        Some(v) => value_as_integer(v),
        None => None,
    }
}

/// The boolean stored under `key`, or false.
pub fn get_flag(t: &toml::Table, key: &str) -> (r: bool)
    ensures
        r == entry_flag(toml_table_entries(*t), key@),
{
    match table_get(t, key) {
        Some(v) => match value_as_bool(v) {
            Some(b) => b,
            None => false,
        },
        None => false,
    }
}

} // verus!
