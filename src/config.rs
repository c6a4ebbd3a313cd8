//! The defaults a user keeps: organisation and provider.
use vstd::prelude::*;

verus! {

/// Default organisation and provider.
#[derive(Debug, Clone, PartialEq, Eq)]
pub struct Config {
    pub org: Option<String>,
    pub provider: Option<String>,
}

/// `value` if there is one, else `fallback`.
pub open spec fn or_else<T>(value: Option<T>, fallback: Option<T>) -> Option<T> {
    match value {
        Some(v) => Some(v),
        None => fallback,
    }
}

impl Config {
    /// The defaults to keep: the given organisation, or else the logged-in
    /// user's login, and the given provider.
    pub fn new(org: Option<String>, provider: Option<String>, logged_in_user: String) -> (r: Config)
        ensures
            r.org == Some(
                match org {
                    Some(o) => o,
                    None => logged_in_user,
                },
            ),
            r.provider == provider,
    {
        let unwrapped_org = match org {
            Some(o) => o,
            None => logged_in_user,
        };
        Config { org: Some(unwrapped_org), provider }
    }

    /// The settings in force: each one given on the command line wins over
    /// the one stored.
    pub fn merged(org: Option<String>, provider: Option<String>, stored: Config) -> (r: Config)
        ensures
            r.org == or_else(org, stored.org),
            r.provider == or_else(provider, stored.provider),
    {
        let org = match org {
            Some(o) => Some(o),
            None => stored.org,
        };
        let provider = match provider {
            Some(p) => Some(p),
            None => stored.provider,
        };
        Config { org, provider }
    }
}

} // verus!
