use vstd::prelude::*;

use crate::config::{AppConfig, ConfigError, DependencyState};
use crate::dispatch::Dispatcher;
use crate::handler::{Action, Body, Handler, Request, Response, Routed};
use crate::status::{AppStatus, HEALTH_INTERNAL_ERROR, HEALTH_OK, HEALTH_UNAVAILABLE};

verus! {

/// The operational core of the process: the status the health check reads,
/// the dispatcher the transport feeds requests into, and the
/// configuration-derived state of the last successful reload.
///
/// Control operations update status and installed handler together; the
/// well-formedness invariant [`Server::wf`] states the coherence the two must
/// keep once an operation has returned.
pub struct Server {
    /// The operational state, read by the health check.
    pub status: AppStatus,
    /// The hot-swap slot the transport dispatches through.
    pub dispatcher: Dispatcher,
    /// Dependency state derived from the last successfully loaded
    /// configuration, if any; the normal handler is rebuilt from it after a
    /// dependency restart.
    pub dependency: Option<DependencyState>,
}

/// The handler each operational state owes: a health check and a request to a
/// state-specific endpoint must never contradict each other.
pub open spec fn coherent(status: AppStatus, handler: Handler) -> bool {
    match status {
        AppStatus::Starting => handler is Blank,
        AppStatus::Running => handler is Normal,
        AppStatus::Restarting => handler is ServerRestarting,
        AppStatus::RestartFailed => handler is ServerUnavailable,
        AppStatus::Misconfigured { .. } => handler is AppMisconfigured,
    }
}

impl Server {
    /// Well-formedness: status and installed handler agree, the normal
    /// handler carries exactly the dependency state of the last successful
    /// reload, and any state reached only through a successful reload still
    /// holds that state.
    pub open spec fn wf(&self) -> bool {
        &&& coherent(self.status, self.dispatcher.current)
        &&& (self.dispatcher.current matches Handler::Normal { dependency }
            ==> self.dependency == Some(dependency))
        &&& ((self.status is Restarting || self.status is RestartFailed)
            ==> self.dependency is Some)
    }

    /// A process starts in `Starting`, with the empty handler installed and
    /// no configuration loaded yet.
    pub fn new() -> (s: Server)
        ensures
            s.status is Starting,
            s.dispatcher.current is Blank,
            s.dependency is None,
            s.wf(),
    {
        Server {
            status: AppStatus::Starting,
            dispatcher: Dispatcher::new(Handler::Blank),
            dependency: None,
        }
    }

    /// Answer a health check from the operational state alone.
    pub fn health(&self) -> (code: u16)
        ensures
            code == self.status.spec_health_code(),
    {
        self.status.health_code()
    }

    /// Route one request through the currently installed handler. The
    /// snapshot taken here is fixed for the call; a concurrent publish never
    /// changes a dispatch already under way.
    pub fn dispatch(&self, req: &Request) -> (r: Routed)
        ensures
            r == self.dispatcher.spec_dispatch(*req),
    {
        self.dispatcher.dispatch(req)
    }

    /// The reload control operation, given the outcome of the external
    /// configuration source.
    ///
    /// On a validated configuration: derive the dependency state, install the
    /// normal handler over it, set the status to `Running`, and answer ok. On
    /// a validation error: set the status to `Misconfigured` with the
    /// error's reason, install the narrow recovery handler, and answer
    /// internal-error. Either way the operation returns a well-formed server:
    /// it never crashes on bad configuration.
    pub fn reload(&mut self, config: Result<AppConfig, ConfigError>) -> (code: u16)
        requires
            old(self).wf(),
        ensures
            final(self).wf(),
            match config {
                Ok(app_config) => {
                    &&& final(self).status is Running
                    &&& final(self).dispatcher.current matches Handler::Normal { dependency }
                        && dependency.server_hostname == app_config.server_hostname
                    &&& final(self).dependency matches Some(dependency)
                        && dependency.server_hostname == app_config.server_hostname
                    &&& code == HEALTH_OK
                },
                Err(err) => {
                    &&& final(self).status matches AppStatus::Misconfigured { reason }
                        && reason == err.reason
                    &&& final(self).dispatcher.current is AppMisconfigured
                    &&& final(self).dependency == old(self).dependency
                    &&& code == HEALTH_INTERNAL_ERROR
                },
            },
    {
        match config {
            Ok(app_config) => {
                self.status = AppStatus::Running;
                let dependency = DependencyState::from_config(&app_config);
                let installed = DependencyState { server_hostname: dependency.server_hostname.clone() };
                self.dependency = Some(dependency);
                self.dispatcher.set(Handler::Normal { dependency: installed });
                HEALTH_OK
            },
            Err(err) => {
                self.status = AppStatus::Misconfigured { reason: err.reason };
                self.dispatcher.set(Handler::AppMisconfigured);
                HEALTH_INTERNAL_ERROR
            },
        }
    }

    /// First half of the restart-dependency control operation: take the
    /// normal endpoints offline before the external restart action begins.
    /// Requires a configuration to have been loaded once, since only handlers
    /// built from one expose the restart endpoint.
    pub fn restart_begin(&mut self)
        requires
            old(self).wf(),
            old(self).dependency is Some,
        ensures
            final(self).wf(),
            final(self).status is Restarting,
            final(self).dispatcher.current is ServerRestarting,
            final(self).dependency == old(self).dependency,
    {
        self.status = AppStatus::Restarting;
        self.dispatcher.set(Handler::ServerRestarting);
    }

    /// Second half of the restart-dependency control operation, given whether
    /// the external restart action succeeded within its bound.
    ///
    /// On success: back to `Running`, with the normal handler rebuilt over
    /// the retained dependency state, answering ok. On failure: to
    /// `RestartFailed`, with the degraded handler that keeps the restart
    /// retriable, answering unavailable. The state never reverts on its own:
    /// only another control operation leaves `RestartFailed`.
    pub fn restart_finish(&mut self, success: bool) -> (code: u16)
        requires
            old(self).wf(),
            old(self).status is Restarting,
        ensures
            final(self).wf(),
            final(self).dependency == old(self).dependency,
            success ==> {
                &&& final(self).status is Running
                &&& final(self).dispatcher.current matches Handler::Normal { dependency }
                    && old(self).dependency == Some(dependency)
                &&& code == HEALTH_OK
            },
            !success ==> {
                &&& final(self).status is RestartFailed
                &&& final(self).dispatcher.current is ServerUnavailable
                &&& code == HEALTH_UNAVAILABLE
            },
    {
        if success {
            self.status = AppStatus::Running;
            let dependency = match &self.dependency {
                Some(dependency) => DependencyState {
                    server_hostname: dependency.server_hostname.clone(),
                },
                // A restart only begins once a configuration was loaded, so
                // the dependency state is always there to rebuild from.
                None => vstd::pervasive::unreached(),
            };
            self.dispatcher.set(Handler::Normal { dependency });
            HEALTH_OK
        } else {
            self.status = AppStatus::RestartFailed;
            self.dispatcher.set(Handler::ServerUnavailable);
            HEALTH_UNAVAILABLE
        }
    }
}

/// State/handler coherence: once a control operation has returned — that is,
/// in any well-formed server — the health check and the installed handler
/// tell the same story.
///
/// The health check answers ok exactly when the normal handler is installed.
/// After a failed reload no request is answered ok: everything outside the
/// reload endpoint gets the misconfigured fallback, while the reload stays
/// callable. While a restart is in flight every request gets the restarting
/// answer. After a failed restart nothing outside the restart endpoint
/// answers ok — it gets the degraded fallback or a method rejection — while
/// the restart stays retriable.
pub proof fn lemma_state_handler_coherence(s: Server, req: Request)
    requires
        s.wf(),
    ensures
        s.status.spec_health_code() == HEALTH_OK <==> s.dispatcher.current is Normal,
        s.status is Misconfigured ==> {
            &&& s.dispatcher.spec_dispatch(req) matches Routed::Done(resp)
                ==> resp == (Response { status: HEALTH_INTERNAL_ERROR, body: Body::InvalidConfig })
                    || resp == (Response { status: crate::handler::METHOD_NOT_ALLOWED, body: Body::Empty })
            &&& (req.method is Post && req.path is Reload)
                ==> s.dispatcher.spec_dispatch(req) == Routed::Control(Action::Reload)
        },
        s.status is Restarting ==> s.dispatcher.spec_dispatch(req) == Routed::Done(
            Response { status: HEALTH_UNAVAILABLE, body: Body::Restarting },
        ),
        s.status is RestartFailed ==> {
            &&& s.dispatcher.spec_dispatch(req) matches Routed::Done(resp)
                ==> resp == (Response { status: HEALTH_UNAVAILABLE, body: Body::Unavailable })
                    || resp == (Response { status: crate::handler::METHOD_NOT_ALLOWED, body: Body::Empty })
            &&& (req.method is Post && req.path is RestartDependency)
                ==> s.dispatcher.spec_dispatch(req) == Routed::Control(Action::RestartDependency)
        },
{
}

} // verus!
