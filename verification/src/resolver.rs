//! Resolution of declared values against the configuration store.
//!
//! A declared value is either a literal, passed through unchanged, or a
//! placeholder: `${key}` demands that the store holds `key`, while
//! `${key:default}` falls back to the written default.  Malformed
//! placeholders — a missing closing brace, or text after it — are a
//! registration-time concern (see [`crate::validate`]); resolution assumes
//! well-formed input.

use vstd::prelude::*;
use vstd::string::StrSliceExecFns;

use crate::store::{config_entries, config_get_string};
use crate::strutil::{first_index_of, scan_for_char};

verus! {

/// Error from resolving a configuration placeholder.
#[derive(Debug, PartialEq, Eq)]
pub enum ConfigError {
    /// A `${key}` placeholder without a default named a key the store
    /// does not hold.  No fallback exists for this form; the design
    /// forces explicit defaults.
    MissingRequiredKey(String),
}

impl ConfigError {
    /// The missing key, for logs and error reports.
    pub fn key(&self) -> (r: &String)
        ensures
            *self matches ConfigError::MissingRequiredKey(k) && r@ == k@,
    {
        match self {
            ConfigError::MissingRequiredKey(k) => k,
        }
    }
}

/// The inside of a well-formed `${...}` token, when `s` is one.
pub open spec fn spec_placeholder_inner(s: Seq<char>) -> Option<Seq<char>> {
    if s.len() >= 3 && s[0] == '$' && s[1] == '{' && s[s.len() - 1] == '}' {
        Some(s.subrange(2, s.len() - 1))
    } else {
        None
    }
}

/// What resolution yields: the literal itself, the stored value, the
/// written default, or the missing key.
pub open spec fn spec_resolve(raw: Seq<char>, entries: Map<Seq<char>, Seq<char>>) -> Result<
    Seq<char>,
    Seq<char>,
> {
    match spec_placeholder_inner(raw) {
        None => Ok(raw),
        Some(inner) => match first_index_of(inner, ':') {
            Some(ci) => {
                let key = inner.subrange(0, ci);
                let dflt = inner.subrange(ci + 1, inner.len() as int);
                if entries.dom().contains(key) {
                    Ok(entries[key])
                } else {
                    Ok(dflt)
                }
            },
            None => if entries.dom().contains(inner) {
                Ok(entries[inner])
            } else {
                Err(inner)
            },
        },
    }
}

/// Resolves a declared value that may be a literal, `${key}`, or
/// `${key:default}` against the store.
pub fn resolve_config_value(value: &str, config: &config::Config) -> (r: Result<
    String,
    ConfigError,
>)
    ensures
        r is Ok <==> spec_resolve(value@, config_entries(*config)) is Ok,
        r is Ok ==> r->Ok_0@ == spec_resolve(value@, config_entries(*config))->Ok_0,
        r is Err ==> (r->Err_0 matches ConfigError::MissingRequiredKey(k) && k@ == spec_resolve(
            value@,
            config_entries(*config),
        )->Err_0),
{
    let len = value.unicode_len();
    if !(len >= 3 && value.get_char(0) == '$' && value.get_char(1) == '{' && value.get_char(len - 1)
        == '}') {
        return Ok(value.to_owned());
    }
    let inner = value.substring_char(2, len - 1);
    let ilen = inner.unicode_len();
    let ci = scan_for_char(inner, ':');
    if ci < ilen {
        let key = inner.substring_char(0, ci);
        let dflt = inner.substring_char(ci + 1, ilen);
        match config_get_string(config, key) {
            Some(v) => Ok(v),
            None => Ok(dflt.to_owned()),
        }
    } else {
        match config_get_string(config, inner) {
            Some(v) => Ok(v),
            None => Err(ConfigError::MissingRequiredKey(inner.to_owned())),
        }
    }
}

} // verus!
