use vstd::prelude::*;

verus! {

/// A validated application configuration, as handed over by the external
/// configuration source. Only the values the core reads are kept: where the
/// listener binds, and the hostname of the managed dependency.
pub struct AppConfig {
    /// Address the API listener binds to.
    pub api_address: String,
    /// Port the API listener binds to.
    pub api_port: u16,
    /// Hostname of the managed dependency the service calls.
    pub server_hostname: String,
}

/// A structured validation error from the configuration source, carrying a
/// human-readable reason.
pub struct ConfigError {
    /// Why the configuration was rejected.
    pub reason: String,
}

/// State derived from validated configuration and embedded into the handler
/// installed for normal operation; recomputed on every successful reload.
#[derive(Debug)]
pub struct DependencyState {
    /// Where the managed dependency is reached.
    pub server_hostname: String,
}

impl DependencyState {
    /// Derive the dependency state from a validated configuration.
    pub fn from_config(app_config: &AppConfig) -> (s: Self)
        ensures
            s.server_hostname == app_config.server_hostname,
    {
        Self {
            server_hostname: app_config.server_hostname.clone(),
        }
    }
}

} // verus!
