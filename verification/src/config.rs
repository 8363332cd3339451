//! Printer connection settings and their layered resolution.
//!
//! An effective configuration is a `{host, port, simulate}` triple.  It
//! is resolved from three tiers, the first applicable tier winning
//! entirely: a snapshot of the process environment, the contents of a
//! per-user JSON file, and built-in defaults.

use vstd::prelude::*;
use vstd::string::StrSliceExecFns;
use crate::json::fields_of;
use crate::json::json_host_of;
use crate::json::json_parses;
use crate::json::json_port_of;
use crate::json::json_simulate_of;
use crate::json::read_file_fields;
use crate::json::FileFields;

verus! {

/// The default printer host.
pub open spec fn default_host() -> Seq<char> {
    "127.0.0.1"@
}

/// The default printer port.
pub const DEFAULT_PORT: u16 = 9100;

/// Effective printer connection settings, always fully populated.
#[derive(Clone)]
pub struct PrinterConfig {
    pub host: String,
    pub port: u16,
    pub simulate: bool,
}

/// The mathematical value of a [`PrinterConfig`].
pub ghost struct ConfigModel {
    pub host: Seq<char>,
    pub port: u16,
    pub simulate: bool,
}

impl View for PrinterConfig {
    type V = ConfigModel;

    open spec fn view(&self) -> ConfigModel {
        ConfigModel { host: self.host@, port: self.port, simulate: self.simulate }
    }
}

/// The built-in tier: `127.0.0.1:9100`, simulate on.
pub open spec fn default_model() -> ConfigModel {
    ConfigModel { host: default_host(), port: DEFAULT_PORT, simulate: true }
}

impl Default for PrinterConfig {
    /// The built-in default configuration, used when no other tier applies.
    fn default() -> (c: Self)
        ensures
            c@ == default_model(),
    {
        PrinterConfig { host: "127.0.0.1".to_owned(), port: 9100, simulate: true }
    }
}

/// Whether `c` is a decimal digit.
pub open spec fn is_digit(c: char) -> bool {
    '0' <= c && c <= '9'
}

/// The numeric value of the digit `c`.
pub open spec fn digit_val(c: char) -> nat {
    ((c as int) - ('0' as int)) as nat
}

/// Whether every character of `s` is a decimal digit.
pub open spec fn all_digits(s: Seq<char>) -> bool {
    forall|i: int| 0 <= i < s.len() ==> is_digit(#[trigger] s[i])
}

/// The value of `s` read as a decimal numeral (most significant digit first).
pub open spec fn dec_val(s: Seq<char>) -> nat
    decreases s.len(),
{
    if s.len() == 0 {
        0
    } else {
        dec_val(s.drop_last()) * 10 + digit_val(s.last())
    }
}

/// The digit part of a decimal numeral: everything after an optional
/// leading plus sign.
pub open spec fn digits_of(s: Seq<char>) -> Seq<char> {
    if s.len() > 0 && s[0] == '+' {
        s.subrange(1, s.len() as int)
    } else {
        s
    }
}

/// The port denoted by `s`, read as std reads an unsigned decimal: an
/// optional leading plus sign, then one or more digits, the value
/// fitting in sixteen bits.
pub open spec fn parse_port_spec(s: Seq<char>) -> Option<u16> {
    if digits_of(s).len() > 0 && all_digits(digits_of(s)) && dec_val(digits_of(s)) <= u16::MAX {
        Some(dec_val(digits_of(s)) as u16)
    } else {
        None
    }
}

/// Extending a numeral on the right can only increase its value.
proof fn lemma_dec_val_extend(s: Seq<char>, i: int)
    requires
        0 <= i < s.len(),
    ensures
        dec_val(s.subrange(0, i)) <= dec_val(s.subrange(0, i + 1)),
{
    let prefix = s.subrange(0, i + 1);
    assert(prefix.drop_last() =~= s.subrange(0, i));
}

/// A numeral is worth at least any of its prefixes.
proof fn lemma_dec_val_prefix(s: Seq<char>, i: int)
    requires
        0 <= i <= s.len(),
    ensures
        dec_val(s.subrange(0, i)) <= dec_val(s),
    decreases s.len() - i,
{
    if i == s.len() {
        assert(s.subrange(0, i) =~= s);
    } else {
        lemma_dec_val_extend(s, i);
        lemma_dec_val_prefix(s, i + 1);
    }
}

/// Parse a decimal port number as std parses a `u16`: an optional
/// leading plus sign, then at least one digit, value at most 65535.
pub fn parse_port(s: &str) -> (r: Option<u16>)
    ensures
        r == parse_port_spec(s@),
{
    let len = s.unicode_len();
    let start: usize = if len > 0 && s.get_char(0) == '+' {
        1
    } else {
        0
    };
    let ghost d = digits_of(s@);
    proof {
        assert(d =~= s@.subrange(start as int, len as int));
    }
    if len == start {
        return None;
    }
    let mut value: u32 = 0;
    let mut i: usize = start;
    while i < len
        invariant
            len == s@.len(),
            start <= i <= len,
            d == digits_of(s@),
            d =~= s@.subrange(start as int, len as int),
            forall|j: int| 0 <= j < i - start ==> is_digit(#[trigger] d[j]),
            value == dec_val(d.subrange(0, i - start)),
            value <= u16::MAX,
        decreases len - i,
    {
        let c = s.get_char(i);
        proof {
            assert(d[i - start] == s@[i as int]);
        }
        if c < '0' || c > '9' {
            return None;
        }
        let dv: u32 = (c as u32) - ('0' as u32);
        proof {
            assert(d.subrange(0, i - start + 1).drop_last() =~= d.subrange(0, i - start));
        }
        let next: u32 = value * 10 + dv;
        if next > u16::MAX as u32 {
            proof {
                lemma_dec_val_prefix(d, i - start + 1);
            }
            return None;
        }
        value = next;
        i += 1;
    }
    proof {
        assert(d.subrange(0, (len - start) as int) =~= d);
    }
    Some(value as u16)
}

/// A snapshot of the three printer-related environment variables, each
/// `Some` exactly when the variable is set.
pub struct EnvVars {
    pub simulate: Option<String>,
    pub host: Option<String>,
    pub port: Option<String>,
}

/// The host the environment tier yields: the host variable's value, or
/// the default when the variable is unset.
pub open spec fn env_host_val(h: Option<String>) -> Seq<char> {
    match h {
        Some(s) => s@,
        None => default_host(),
    }
}

/// The port the environment tier yields: the port variable's value
/// when it parses as a sixteen-bit decimal, the default otherwise.
pub open spec fn env_port_val(p: Option<String>) -> u16 {
    match p {
        Some(s) => match parse_port_spec(s@) {
            Some(v) => v,
            None => DEFAULT_PORT,
        },
        None => DEFAULT_PORT,
    }
}

/// The environment tier: applies when the simulate variable is set;
/// simulate mode holds exactly when its value is the string `true`.
pub open spec fn env_model(e: EnvVars) -> ConfigModel
    recommends
        e.simulate is Some,
{
    ConfigModel {
        host: env_host_val(e.host),
        port: env_port_val(e.port),
        simulate: e.simulate matches Some(v) && v@ == "true"@,
    }
}

/// The file tier, over the fields read from the configuration file.
/// Each absent field falls back to its default; a port outside the
/// sixteen-bit range is rejected and the default port used (the range
/// check is deliberate: nothing is truncated).
pub open spec fn file_model(f: FileFields) -> ConfigModel {
    ConfigModel {
        host: match f.host {
            Some(h) => h@,
            None => default_host(),
        },
        port: match f.port {
            Some(p) => if p <= u16::MAX { p as u16 } else { DEFAULT_PORT },
            None => DEFAULT_PORT,
        },
        simulate: match f.simulate {
            Some(b) => b,
            None => true,
        },
    }
}

/// The whole resolution chain: the environment tier when the simulate
/// variable is set, else the file tier when the file yielded fields,
/// else the built-in defaults.
pub open spec fn resolve_model(e: EnvVars, f: Option<FileFields>) -> ConfigModel {
    if e.simulate is Some {
        env_model(e)
    } else {
        match f {
            Some(ff) => file_model(ff),
            None => default_model(),
        }
    }
}

/// Build the configuration from the environment tier.
pub fn config_from_env(e: &EnvVars) -> (c: PrinterConfig)
    requires
        e.simulate is Some,
    ensures
        c@ == env_model(*e),
{
    let host = match &e.host {
        Some(h) => h.clone(),
        None => "127.0.0.1".to_owned(),
    };
    let port = match &e.port {
        Some(p) => match parse_port(p.as_str()) {
            Some(v) => v,
            None => DEFAULT_PORT,
        },
        None => DEFAULT_PORT,
    };
    let truth: String = "true".to_owned();
    let simulate = match &e.simulate {
        Some(v) => *v == truth,
        None => true,
    };
    PrinterConfig { host, port, simulate }
}

/// Build the configuration from the file tier's fields.
pub fn config_from_file(f: &FileFields) -> (c: PrinterConfig)
    ensures
        c@ == file_model(*f),
{
    let host = match &f.host {
        Some(h) => h.clone(),
        None => "127.0.0.1".to_owned(),
    };
    let port = match f.port {
        Some(p) => if p <= u16::MAX as u64 {
            p as u16
        } else {
            DEFAULT_PORT
        },
        None => DEFAULT_PORT,
    };
    let simulate = match f.simulate {
        Some(b) => b,
        None => true,
    };
    PrinterConfig { host, port, simulate }
}

/// Resolve the effective configuration from an environment snapshot
/// and the fields read from the configuration file (`None` when the
/// file is absent, unreadable or not JSON).  Never fails: every lookup
/// failure falls through to the next tier.
pub fn resolve_config(e: &EnvVars, f: &Option<FileFields>) -> (c: PrinterConfig)
    ensures
        c@ == resolve_model(*e, *f),
{
    if e.simulate.is_some() {
        config_from_env(e)
    } else {
        match f {
            Some(ff) => config_from_file(ff),
            None => PrinterConfig::default(),
        }
    }
}

/// The file tier, pinned to the document text itself: each of the
/// three lookups with its own default, the port rejected to the
/// default when out of the sixteen-bit range.
pub open spec fn file_model_of(s: Seq<char>) -> ConfigModel {
    ConfigModel {
        host: match json_host_of(s) {
            Some(h) => h,
            None => default_host(),
        },
        port: match json_port_of(s) {
            Some(p) => if p <= u16::MAX { p as u16 } else { DEFAULT_PORT },
            None => DEFAULT_PORT,
        },
        simulate: match json_simulate_of(s) {
            Some(b) => b,
            None => true,
        },
    }
}

/// Fields that are exactly a document's lookups give exactly the
/// document's file tier.
proof fn lemma_fields_model(s: Seq<char>, f: FileFields)
    requires
        fields_of(s, f),
    ensures
        file_model(f) == file_model_of(s),
{
}

/// The whole resolution chain from the raw sources: the environment
/// tier when the simulate variable is set, else the file tier on a
/// well-formed document, else the built-in defaults.
pub open spec fn load_model(e: EnvVars, file_content: Option<String>) -> ConfigModel {
    if e.simulate is Some {
        env_model(e)
    } else {
        match file_content {
            Some(t) => if json_parses(t@) {
                file_model_of(t@)
            } else {
                default_model()
            },
            None => default_model(),
        }
    }
}

/// Resolve the effective configuration from an environment snapshot
/// and the configuration file's text (`None` when the file is absent
/// or unreadable).  Never fails: an unset variable, a missing file or
/// a malformed document silently degrades to the next tier.
pub fn load_printer_config(e: &EnvVars, file_content: &Option<String>) -> (c: PrinterConfig)
    ensures
        c@ == load_model(*e, *file_content),
{
    if e.simulate.is_some() {
        config_from_env(e)
    } else {
        match file_content {
            Some(t) => match read_file_fields(t.as_str()) {
                Some(f) => {
                    proof {
                        lemma_fields_model(t@, f);
                    }
                    config_from_file(&f)
                },
                None => PrinterConfig::default(),
            },
            None => PrinterConfig::default(),
        }
    }
}

/// Law: when the simulate variable is set, the environment tier alone
/// determines the configuration — the file's fields, present or not,
/// have no bearing on the result.
pub proof fn lemma_env_tier_wins(e: EnvVars, f1: Option<FileFields>, f2: Option<FileFields>)
    requires
        e.simulate is Some,
    ensures
        resolve_model(e, f1) == resolve_model(e, f2),
        resolve_model(e, f1) == env_model(e),
{
}

/// Law: when the simulate variable is unset and the file yielded
/// fields, those fields, with their per-field defaults, determine the
/// configuration.
pub proof fn lemma_file_tier_applies(e: EnvVars, f: FileFields)
    requires
        e.simulate is None,
    ensures
        resolve_model(e, Some(f)) == file_model(f),
{
}

/// Law: when the simulate variable is unset and the file's text is
/// well-formed JSON, the document's three lookups, each with its own
/// default, fully determine the configuration.
pub proof fn lemma_file_tier_from_text(e: EnvVars, t: String)
    requires
        e.simulate is None,
        json_parses(t@),
    ensures
        load_model(e, Some(t)) == file_model_of(t@),
{
}

/// Law: when neither the environment nor the file contributes, the
/// configuration is exactly `{127.0.0.1, 9100, simulate on}`.
pub proof fn lemma_default_tier(e: EnvVars)
    requires
        e.simulate is None,
    ensures
        resolve_model(e, None) == default_model(),
        resolve_model(e, None).host == "127.0.0.1"@,
        resolve_model(e, None).port == 9100,
        resolve_model(e, None).simulate,
{
}

} // verus!
