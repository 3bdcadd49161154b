//! The configuration store, seen through a trusted interface.
//!
//! The store itself comes from the `config` crate: a prioritized set of
//! sources frozen into a cache when it is built.  The library treats a
//! built store as an opaque map from dotted key paths to string values,
//! named by [`config_entries`]; the two functions below are the only
//! places where the outside crate is called.

use vstd::prelude::*;

verus! {

#[verifier::external_type_specification]
#[verifier::external_body]
pub struct ExConfig(config::Config);

/// The contents of a built configuration store: the string value at each
/// dotted key path that holds one.
pub uninterp spec fn config_entries(c: config::Config) -> Map<Seq<char>, Seq<char>>;

/// Relies on `config::Config::get_string`: a lookup in the cache the
/// builder froze, converted to a string — a function of the store value
/// and the key alone.
#[verifier::external_body]
pub fn config_get_string(c: &config::Config, key: &str) -> (r: Option<String>)
    ensures
        r is Some <==> config_entries(*c).dom().contains(key@),
        r is Some ==> r->0@ == config_entries(*c)[key@],
{
    c.get_string(key).ok()
}

/// The contents of a store that holds nothing.
pub open spec fn no_entries() -> Map<Seq<char>, Seq<char>> {
    Map::empty()
}

/// Relies on `config::Config::default`: its cache starts as an empty
/// table, so no key holds a value.
#[verifier::external_body]
pub fn empty_config() -> (r: config::Config)
    ensures
        config_entries(r) == no_entries(),
{
    config::Config::default()
}

} // verus!
