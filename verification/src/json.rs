//! Reading the printer configuration file's JSON.
//!
//! The `serde_json` crate parses the text and looks the three fields
//! up.  Parsing and lookup are deterministic, so each lookup's result
//! is a function of the document text alone; it is given a name here,
//! and the trusted wrappers tie what they return to those names.
//! [`read_file_fields`] assembles the plain optional fields that the
//! configuration tiers are defined over, pinned to the text by
//! [`fields_of`].

use vstd::prelude::*;

verus! {

/// Whether `serde_json` accepts the text `s` as JSON.  Parsing is
/// deterministic, so this is a function of `s` alone.
pub uninterp spec fn json_parses(s: Seq<char>) -> bool;

/// The `host` lookup on the document `s`: the string under that key
/// when `s` parses to an object carrying one, nothing otherwise.
pub uninterp spec fn json_host_of(s: Seq<char>) -> Option<Seq<char>>;

/// The `port` lookup on the document `s`: the integer under that key
/// when `s` parses to an object carrying one that a `u64` holds.
pub uninterp spec fn json_port_of(s: Seq<char>) -> Option<u64>;

/// The `simulate` lookup on the document `s`: the boolean under that
/// key when `s` parses to an object carrying one.
pub uninterp spec fn json_simulate_of(s: Seq<char>) -> Option<bool>;

/// Relies on `serde_json::from_str::<Value>`: it returns `Ok` exactly
/// when the text is well-formed JSON.
#[verifier::external_body]
fn check_json(content: &str) -> (r: bool)
    ensures
        r == json_parses(content@),
{
    serde_json::from_str::<serde_json::Value>(content).is_ok()
}

/// Relies on `serde_json::from_str::<Value>`, `Value::get` and
/// `Value::as_str`: together the deterministic `host` lookup that
/// `json_host_of` names.
#[verifier::external_body]
fn json_field_host(content: &str) -> (r: Option<String>)
    ensures
        r matches Some(h) ==> json_host_of(content@) == Some(h@),
        r is Some <==> json_host_of(content@) is Some,
{
    serde_json::from_str::<serde_json::Value>(content)
        .ok()
        .and_then(|v| v.get("host").and_then(|f| f.as_str()).map(|s| s.to_owned()))
}

/// Relies on `serde_json::from_str::<Value>`, `Value::get` and
/// `Value::as_u64`: together the deterministic `port` lookup that
/// `json_port_of` names.
#[verifier::external_body]
fn json_field_port(content: &str) -> (r: Option<u64>)
    ensures
        r == json_port_of(content@),
{
    serde_json::from_str::<serde_json::Value>(content)
        .ok()
        .and_then(|v| v.get("port").and_then(|f| f.as_u64()))
}

/// Relies on `serde_json::from_str::<Value>`, `Value::get` and
/// `Value::as_bool`: together the deterministic `simulate` lookup that
/// `json_simulate_of` names.
#[verifier::external_body]
fn json_field_simulate(content: &str) -> (r: Option<bool>)
    ensures
        r == json_simulate_of(content@),
{
    serde_json::from_str::<serde_json::Value>(content)
        .ok()
        .and_then(|v| v.get("simulate").and_then(|f| f.as_bool()))
}

/// What the configuration file tier reads from the parsed JSON: each
/// field is present exactly when the document carries it with the
/// right type.
pub struct FileFields {
    pub host: Option<String>,
    pub port: Option<u64>,
    pub simulate: Option<bool>,
}

/// Whether `f` holds exactly the three lookups of the document `s`.
pub open spec fn fields_of(s: Seq<char>, f: FileFields) -> bool {
    &&& (match f.host {
        Some(h) => json_host_of(s) == Some(h@),
        None => json_host_of(s) is None,
    })
    &&& f.port == json_port_of(s)
    &&& f.simulate == json_simulate_of(s)
}

/// Extract the configuration fields from the file's text.  Returns
/// `None` exactly when the text is not well-formed JSON; a well-formed
/// document yields its three lookups, each absent or wrongly typed
/// field coming out `None`.
pub fn read_file_fields(content: &str) -> (r: Option<FileFields>)
    ensures
        r is Some <==> json_parses(content@),
        (r matches Some(f) ==> fields_of(content@, f)),
{
    if !check_json(content) {
        return None;
    }
    let host = json_field_host(content);
    let port = json_field_port(content);
    let simulate = json_field_simulate(content);
    Some(FileFields { host, port, simulate })
}

} // verus!
