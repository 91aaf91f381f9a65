//! Runtime configuration. Every setting has a default, so the service runs
//! without any environment variable; `MEDIA_ROOT` and `API_URL` are the ones
//! a deployment sets.

use vstd::prelude::*;

use crate::text::owned;

verus! {

/// The runtime configuration.
#[derive(Clone, Debug)]
pub struct Config {
    pub addr: String,
    pub api_url: String,
    pub media_root: String,
    pub radarr_url: String,
    pub radarr_api_key: String,
    pub sonarr_url: String,
    pub sonarr_api_key: String,
}

/// The environment's values for the configuration, each `None` where the
/// variable is unset (or not valid Unicode): `ADDR`, `API_URL`,
/// `MEDIA_ROOT`, `RADARR_URL`, `RADARR_API_KEY`, `SONARR_URL`,
/// `SONARR_API_KEY`.
pub struct ConfigEnv {
    pub addr: Option<String>,
    pub api_url: Option<String>,
    pub media_root: Option<String>,
    pub radarr_url: Option<String>,
    pub radarr_api_key: Option<String>,
    pub sonarr_url: Option<String>,
    pub sonarr_api_key: Option<String>,
}

/// Why a configuration is refused.
#[derive(Debug, Clone, Copy, PartialEq, Eq, Structural)]
pub enum ConfigError {
    /// `ADDR` is empty.
    EmptyAddr,
}

/// The value of a variable, or `fallback` when it is unset.
pub open spec fn env_or_spec(value: Option<String>, fallback: Seq<char>) -> Seq<char> {
    match value {
        Some(s) => s@,
        None => fallback,
    }
}

/// The value of a variable, or `fallback` when it is unset.
pub fn env_or(value: Option<String>, fallback: &str) -> (s: String)
    ensures
        s@ == env_or_spec(value, fallback@),
{
    match value {
        Some(s) => s,
        None => owned(fallback),
    }
}

impl Config {
    /// The configuration from the environment's values, with the defaults
    /// `0.0.0.0:9090`, `http://localhost:8080`, `/media`,
    /// `http://localhost:7878`, no Radarr key, `http://localhost:8989`, no
    /// Sonarr key.
    pub fn from_env(env: ConfigEnv) -> (r: Result<Config, ConfigError>)
        ensures
            r matches Ok(c) && c.addr@ == env_or_spec(env.addr, "0.0.0.0:9090"@) && c.api_url@
                == env_or_spec(env.api_url, "http://localhost:8080"@) && c.media_root@
                == env_or_spec(env.media_root, "/media"@) && c.radarr_url@ == env_or_spec(
                env.radarr_url,
                "http://localhost:7878"@,
            ) && c.radarr_api_key@ == env_or_spec(env.radarr_api_key, ""@) && c.sonarr_url@
                == env_or_spec(env.sonarr_url, "http://localhost:8989"@) && c.sonarr_api_key@
                == env_or_spec(env.sonarr_api_key, ""@),
    {
        Ok(Config {
            addr: env_or(env.addr, "0.0.0.0:9090"),
            api_url: env_or(env.api_url, "http://localhost:8080"),
            media_root: env_or(env.media_root, "/media"),
            radarr_url: env_or(env.radarr_url, "http://localhost:7878"),
            radarr_api_key: env_or(env.radarr_api_key, ""),
            sonarr_url: env_or(env.sonarr_url, "http://localhost:8989"),
            sonarr_api_key: env_or(env.sonarr_api_key, ""),
        })
    }

    /// Refuses a configuration whose listen address is empty.
    pub fn validate(&self) -> (r: Result<(), ConfigError>)
        ensures
            r is Err <==> self.addr@.len() == 0,
            r matches Err(e) ==> e == ConfigError::EmptyAddr,
    {
        if self.addr.as_str().is_empty() {
            return Err(ConfigError::EmptyAddr);
        }
        Ok(())
    }

    /// The Radarr integration is on when a Radarr API key is set.
    pub fn radarr_enabled(&self) -> (b: bool)
        ensures
            b == (self.radarr_api_key@.len() > 0),
    {
        !self.radarr_api_key.as_str().is_empty()
    }

    /// The Sonarr integration is on when a Sonarr API key is set.
    pub fn sonarr_enabled(&self) -> (b: bool)
        ensures
            b == (self.sonarr_api_key@.len() > 0),
    {
        !self.sonarr_api_key.as_str().is_empty()
    }
}

/// The service runs without any environment variable: the default listen
/// address is not empty, so the default configuration validates.
pub proof fn lemma_default_addr_validates()
    ensures
        env_or_spec(None, "0.0.0.0:9090"@).len() > 0,
{
    reveal_strlit("0.0.0.0:9090");
}

} // verus!
