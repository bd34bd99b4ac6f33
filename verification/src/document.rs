//! Reading TOML documents with the `toml` crate.
//!
//! A parsed value stays a `toml::Value`. The functions below say what the
//! crate's parser and the accessors of `toml::Value` return; none of it is
//! proved here.

use vstd::prelude::*;

verus! {

/// `toml::Value`: a value of a TOML document. What is inside is reached
/// through the accessors below only.
#[verifier::external_type_specification]
#[verifier::external_body]
pub struct ExValue(toml::Value);

/// `toml::de::Error`: why a text is no TOML document.
#[verifier::external_type_specification]
#[verifier::external_body]
pub struct ExError(toml::de::Error);

/// What `toml::from_str` makes of the document `text`.
pub uninterp spec fn toml_parsed(text: Seq<char>) -> Result<toml::Value, toml::de::Error>;

/// The text that the `Display` impl of `toml::de::Error` writes for `e`.
pub uninterp spec fn toml_error_text(e: toml::de::Error) -> Seq<char>;

/// The value that the table `v` holds under `key`: what `toml::Value::get`
/// returns for a string index.
pub uninterp spec fn toml_entry(v: toml::Value, key: Seq<char>) -> Option<toml::Value>;

/// The characters of `v` where it is a string: what `toml::Value::as_str` returns.
pub uninterp spec fn toml_text(v: toml::Value) -> Option<Seq<char>>;

/// The truth value of `v` where it is a boolean: what `toml::Value::as_bool` returns.
pub uninterp spec fn toml_flag(v: toml::Value) -> Option<bool>;

/// The items of `v` where it is an array: what `toml::Value::as_array` returns.
pub uninterp spec fn toml_list(v: toml::Value) -> Option<Seq<toml::Value>>;

/// Whether `v` is a table: what `toml::Value::is_table` returns.
pub uninterp spec fn toml_is_table(v: toml::Value) -> bool;

/// `toml::from_str` at the type `toml::Value`: parses `text` as a TOML
/// document. The outcome depends on the characters of `text` alone.
#[verifier::external_body]
pub(crate) fn parse_document(text: &str) -> (r: Result<toml::Value, toml::de::Error>)
    ensures
        r == toml_parsed(text@),
{
    toml::from_str::<toml::Value>(text)
}

/// `toml::Value::get` with a string index: the value under `key` where `v`
/// is a table that has the key, nothing otherwise.
#[verifier::external_body]
pub(crate) fn entry<'a>(v: &'a toml::Value, key: &str) -> (r: Option<&'a toml::Value>)
    ensures
        match r {
            Some(x) => toml_entry(*v, key@) == Some(*x),
            None => toml_entry(*v, key@) is None,
        },
{
    v.get(key)
}

/// `to_string` on a `toml::de::Error`: the text that its `Display` impl
/// writes, which says what is wrong and where in the document.
#[verifier::external_body]
pub(crate) fn error_text(e: &toml::de::Error) -> (r: String)
    ensures
        r@ == toml_error_text(*e),
{
    e.to_string()
}

/// `toml::Value::as_str`: the string that the value holds, if it is one.
pub assume_specification[ toml::Value::as_str ](v: &toml::Value) -> (r: Option<&str>)
    ensures
        match r {
            Some(s) => toml_text(*v) == Some(s@),
            None => toml_text(*v) is None,
        },
;

/// `toml::Value::as_bool`: the boolean that the value holds, if it is one.
pub assume_specification[ toml::Value::as_bool ](v: &toml::Value) -> (r: Option<bool>)
    ensures
        r == toml_flag(*v),
;

/// `toml::Value::as_array`: the items of the value, if it is an array.
pub assume_specification[ toml::Value::as_array ](v: &toml::Value) -> (r: Option<
    &Vec<toml::Value>,
>)
    ensures
        match r {
            Some(items) => toml_list(*v) == Some(items@),
            None => toml_list(*v) is None,
        },
;

/// `toml::Value::is_table`: whether the value is a table.
pub assume_specification[ toml::Value::is_table ](v: &toml::Value) -> (r: bool)
    ensures
        r == toml_is_table(*v),
;

/// `Clone::clone` of `toml::Value`, which the crate derives: the copy is
/// the same value.
pub assume_specification[ <toml::Value as Clone>::clone ](v: &toml::Value) -> (r: toml::Value)
    ensures
        r == *v,
;

} // verus!
