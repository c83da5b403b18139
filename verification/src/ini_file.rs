//! Trusted bridge to the `ini` crate (the `rust-ini` package), which owns
//! the parsing and printing of INI-format configuration files.
//!
//! The library models a loaded document as a map from section names to
//! section contents, and a section as a map from keys to values. The
//! `ini` crate stores both as ordered multimaps; where a name occurs more
//! than once, the model holds the first section with that name, and for a
//! key with several values the first value, matching what `Ini::section`
//! and `Properties::get` return. Loading a document from disk and writing
//! one back are I/O and happen outside the library.
use vstd::prelude::*;

verus! {

#[verifier::external_type_specification]
#[verifier::external_body]
pub struct ExIni(ini::Ini);

#[verifier::external_type_specification]
#[verifier::external_body]
pub struct ExProperties(ini::Properties);

/// The named sections a loaded INI document holds: each name is mapped to
/// the contents of the first section carrying it. The unnamed general
/// section is not part of the model; the library never reads it.
pub uninterp spec fn ini_view(config: ini::Ini) -> Map<Seq<char>, Map<Seq<char>, Seq<char>>>;

/// The key-value pairs a section holds: each key is mapped to the first
/// value recorded for it.
pub uninterp spec fn props_view(props: ini::Properties) -> Map<Seq<char>, Seq<char>>;

/// Relies on ini::Ini::section: returns the first section with the given
/// name, if any.
#[verifier::external_body]
pub fn ini_section<'a>(config: &'a ini::Ini, name: &str) -> (r: Option<&'a ini::Properties>)
    ensures
        r.is_some() == ini_view(*config).dom().contains(name@),
        r matches Some(props) ==> props_view(*props) == ini_view(*config)[name@],
{
    config.section(Some(name))
}

/// Relies on ini::Properties::get: returns the first value recorded for
/// the key, if any.
#[verifier::external_body]
pub fn props_get<'a>(props: &'a ini::Properties, key: &str) -> (r: Option<&'a str>)
    ensures
        r.is_some() == props_view(*props).dom().contains(key@),
        r matches Some(value) ==> value@ == props_view(*props)[key@],
{
    props.get(key)
}

/// Relies on ini::Ini::section_mut and ini::Properties::insert: replaces
/// the values of `key` in the first section named `name` with the single
/// `value`, leaving every other entry alone; does nothing when no such
/// section exists.
#[verifier::external_body]
pub fn ini_insert(config: &mut ini::Ini, name: &str, key: &str, value: &str) -> (ok: bool)
    ensures
        ok == ini_view(*old(config)).dom().contains(name@),
        ok ==> ini_view(*final(config)) == ini_view(*old(config)).insert(
            name@,
            ini_view(*old(config))[name@].insert(key@, value@),
        ),
        !ok ==> ini_view(*final(config)) == ini_view(*old(config)),
{
    match config.section_mut(Some(name)) {
        Some(props) => {
            props.insert(key, value);
            true
        },
        None => false,
    }
}

} // verus!
