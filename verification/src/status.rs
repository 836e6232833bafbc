use vstd::prelude::*;

verus! {

/// Status code reported by the health check while the process has not yet
/// loaded its first configuration.
pub const HEALTH_TOO_EARLY: u16 = 425;
/// Status code reported by the health check during normal operation.
pub const HEALTH_OK: u16 = 200;
/// Status code reported by the health check while a dependency restart is in
/// progress or has failed.
pub const HEALTH_UNAVAILABLE: u16 = 503;
/// Status code reported by the health check after a configuration reload
/// failed validation.
pub const HEALTH_INTERNAL_ERROR: u16 = 500;

/// Operational state of the process.
///
/// Created as `Starting` when the process boots, and changed only by the
/// control operations; it never reverts on its own. The health check derives
/// its answer from this value alone.
#[derive(Debug)]
pub enum AppStatus {
    /// Process booted, before the first successful configuration load.
    Starting,
    /// Normal operation: a configuration-derived handler is installed.
    Running,
    /// A managed dependency is being restarted; normal endpoints are offline.
    Restarting,
    /// A dependency restart did not complete; the service is degraded.
    RestartFailed,
    /// The last configuration reload failed validation, for this reason.
    Misconfigured { reason: String },
}

impl AppStatus {
    /// The health-check answer owed in each state.
    pub open spec fn spec_health_code(&self) -> u16 {
        match self {
            AppStatus::Starting => HEALTH_TOO_EARLY,
            AppStatus::Running => HEALTH_OK,
            AppStatus::Restarting => HEALTH_UNAVAILABLE,
            AppStatus::RestartFailed => HEALTH_UNAVAILABLE,
            AppStatus::Misconfigured { .. } => HEALTH_INTERNAL_ERROR,
        }
    }

    /// Answer a health check: the status code owed in the current state.
    pub fn health_code(&self) -> (code: u16)
        ensures
            code == self.spec_health_code(),
    {
        match self {
            AppStatus::Starting => HEALTH_TOO_EARLY,
            AppStatus::Running => HEALTH_OK,
            AppStatus::Restarting => HEALTH_UNAVAILABLE,
            AppStatus::RestartFailed => HEALTH_UNAVAILABLE,
            AppStatus::Misconfigured { .. } => HEALTH_INTERNAL_ERROR,
        }
    }
}

impl Default for AppStatus {
    /// A process starts in `Starting`.
    fn default() -> (s: Self)
        ensures
            s is Starting,
    {
        AppStatus::Starting
    }
}

} // verus!
