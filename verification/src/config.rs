//! User settings: built-in defaults, optionally overridden by a TOML file.
//!
//! Reading the file and parsing the TOML happen at the program's edge; this
//! module decides what configuration results from what was found there.
use vstd::prelude::*;

use crate::text::{push_str, trim, trim_str};

verus! {

/// User settings.
///
/// Load order:
/// 1. Built-in defaults (`Default`)
/// 2. Optional TOML file
///
/// A missing file is fine: defaults are used. An invalid file yields a warning
/// and also falls back to defaults.
#[derive(Debug, Clone, PartialEq)]
pub struct Config {
    /// How often the dashboard refreshes data (seconds).
    pub refresh_secs: u64,
    /// Listening ports hidden in the Ports tab.
    pub ignored_ports: Vec<u16>,
    /// Extra substrings treated as "dev" processes (added on top of builtins).
    pub extra_dev_markers: Vec<String>,
    /// Docker endpoint override.
    pub docker_host: Option<String>,
}

/// The refresh period used when none is configured.
pub fn default_refresh_secs() -> (r: u64)
    ensures
        r == 3,
{
    3
}

/// The ports hidden when none are configured.
pub fn default_ignored_ports() -> (r: Vec<u16>)
    ensures
        r@ == seq![53u16, 323u16, 5353u16, 0u16],
{
    vec![53, 323, 5353, 0]
}

/// `c` is the built-in default configuration.
pub open spec fn is_default(c: Config) -> bool {
    &&& c.refresh_secs == 3
    &&& c.ignored_ports@ == seq![53u16, 323u16, 5353u16, 0u16]
    &&& c.extra_dev_markers@.len() == 0
    &&& c.docker_host is None
}

impl Default for Config {
    fn default() -> (r: Self)
        ensures
            is_default(r),
    {
        Config {
            refresh_secs: default_refresh_secs(),
            ignored_ports: default_ignored_ports(),
            extra_dev_markers: Vec::new(),
            docker_host: None,
        }
    }
}

/// The effective Docker host: the configured value without surrounding
/// whitespace, unless that leaves nothing.
pub open spec fn effective_docker_host(host: Option<String>) -> Option<Seq<char>> {
    match host {
        Some(h) => if trim(h@).len() > 0 {
            Some(trim(h@))
        } else {
            None
        },
        None => None,
    }
}

impl Config {
    /// Trimmed docker host override, if set.
    pub fn docker_host(&self) -> (r: Option<&str>)
        ensures
            r is Some == effective_docker_host(self.docker_host) is Some,
            r matches Some(h) ==> Some(h@) == effective_docker_host(self.docker_host),
    {
        match &self.docker_host {
            Some(h) => {
                let t = trim_str(h.as_str());
                if t.is_empty() {
                    None
                } else {
                    Some(t)
                }
            },
            None => None,
        }
    }

    /// Seconds between automatic refreshes: the configured interval, and at
    /// least one.
    pub fn refresh_interval_secs(&self) -> (r: u64)
        ensures
            r == (if self.refresh_secs >= 1 {
                self.refresh_secs
            } else {
                1
            }),
    {
        if self.refresh_secs >= 1 {
            self.refresh_secs
        } else {
            1
        }
    }
}

/// What was found where the configuration file should be.
pub enum ConfigFile {
    /// No readable file.
    Missing,
    /// A file that parsed into these settings.
    Parsed(Config),
    /// A file at `path` that did not parse, with the parser's message.
    Invalid { path: String, error: String },
}

/// The warning for a file that did not parse.
pub open spec fn invalid_config_warning(path: Seq<char>, error: Seq<char>) -> Seq<char> {
    "light-stripe: invalid config at "@ + path + ": "@ + error + "; using defaults"@
}

/// The configuration that results from what was found, and the warning to
/// print, if any.
pub fn load(file: ConfigFile) -> (r: (Config, Option<String>))
    ensures
        match file {
            ConfigFile::Missing => is_default(r.0) && r.1 is None,
            ConfigFile::Parsed(c) => r.0 == c && r.1 is None,
            ConfigFile::Invalid { path, error } => is_default(r.0) && r.1 is Some
                && r.1.unwrap()@ == invalid_config_warning(path@, error@),
        },
{
    match file {
        ConfigFile::Missing => (Config::default(), None),
        ConfigFile::Parsed(c) => (c, None),
        ConfigFile::Invalid { path, error } => {
            let mut msg = String::new();
            push_str(&mut msg, "light-stripe: invalid config at ");
            push_str(&mut msg, path.as_str());
            push_str(&mut msg, ": ");
            push_str(&mut msg, error.as_str());
            push_str(&mut msg, "; using defaults");
            assert(msg@ =~= invalid_config_warning(path@, error@));
            (Config::default(), Some(msg))
        },
    }
}

} // verus!
