//! The persisted configuration: one refresh token, kept by an external
//! secure credential store under a fixed service and entry name and
//! overwritten on every successful token exchange or refresh.

use vstd::prelude::*;

verus! {

/// The service identifier under which this application stores its state.
pub fn service_name() -> (s: &'static str)
    ensures
        s@ == "discord-vc-status"@,
{
    "discord-vc-status"
}

/// The entry name under which the refresh token is stored.
pub fn token_entry_name() -> (s: &'static str)
    ensures
        s@ == "refresh_token"@,
{
    "refresh_token"
}

/// The stored configuration.
#[derive(Debug)]
pub struct Config {
    pub refresh_token: String,
}

impl Default for Config {
    /// A configuration with no stored refresh token.
    fn default() -> (c: Config)
        ensures
            c.refresh_token@ == Seq::<char>::empty(),
    {
        Config { refresh_token: String::new() }
    }
}

impl Config {
    /// The configuration after a token rotation: the new refresh token
    /// fully supersedes the stored one.
    pub fn with_refresh_token(self, refresh_token: String) -> (c: Config)
        ensures
            c.refresh_token@ == refresh_token@,
    {
        Config { refresh_token }
    }
}

} // verus!
