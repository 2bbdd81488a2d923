//! Program configuration: where the roster lives, with a safe fallback.
//!
//! A missing, unreadable or malformed configuration is never fatal: the
//! default roster path is used and one warning is owed to the user.

use vstd::prelude::*;

verus! {

/// Roster location used when no configuration names one.
pub const DEFAULT_ROSTER_FILENAME: &'static str = "src/roster.csv";

/// Where the configuration file is expected.
pub const DEFAULT_CONFIG_PATH: &'static str = "src/conf.toml";

/// The string at key `key` of table `section` of the TOML document `s`, if
/// `s` parses as TOML and holds a string there.
pub uninterp spec fn toml_str_at(s: Seq<char>, section: Seq<char>, key: Seq<char>) -> Option<
    Seq<char>,
>;

/// Relies on `toml::Table::from_str`, `toml::Value::get` and
/// `toml::Value::as_str`: parses `text` as a TOML document and hands back
/// the string at `key` within the table `section`; `None` where the
/// document does not parse or holds no string there. The result is a
/// function of the three arguments alone.
#[verifier::external_body]
fn toml_lookup_str(text: &str, section: &str, key: &str) -> (r: Option<String>)
    ensures
        match r {
            Some(v) => toml_str_at(text@, section@, key@) == Some(v@),
            None => toml_str_at(text@, section@, key@) is None,
        },
{
    let table = match <toml::Table as core::str::FromStr>::from_str(text) {
        Ok(t) => t,
        Err(_) => return None,
    };
    match table.get(section).and_then(|v| v.get(key)).and_then(|v| v.as_str()) {
        Some(s) => Some(s.to_owned()),
        None => None,
    }
}

/// How the roster path was settled.
pub struct ConfigOutcome {
    /// The roster path the run will read.
    pub roster_path: String,
    /// The configuration was absent, unreadable or malformed: the default
    /// path is in use and exactly one warning is owed to the user.
    pub fallback: bool,
}

/// Settles the roster path from the configuration file's text, or from
/// `None` where the file was absent or unreadable. Configuration trouble is
/// recovered locally: the default roster path is chosen and `fallback` set,
/// never an error.
pub fn resolve_roster_path(source: Option<&str>) -> (r: ConfigOutcome)
    ensures
        match source {
            Some(text) => match toml_str_at(text@, "config"@, "roster_path"@) {
                Some(p) => r.roster_path@ == p && !r.fallback,
                None => r.roster_path@ == DEFAULT_ROSTER_FILENAME@ && r.fallback,
            },
            None => r.roster_path@ == DEFAULT_ROSTER_FILENAME@ && r.fallback,
        },
{
    match source {
        Some(text) => match toml_lookup_str(text, "config", "roster_path") {
            Some(p) => ConfigOutcome { roster_path: p, fallback: false },
            None => ConfigOutcome {
                roster_path: DEFAULT_ROSTER_FILENAME.to_owned(),
                fallback: true,
            },
        },
        None => ConfigOutcome { roster_path: DEFAULT_ROSTER_FILENAME.to_owned(), fallback: true },
    }
}

} // verus!
