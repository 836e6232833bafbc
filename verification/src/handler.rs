use vstd::prelude::*;

use crate::config::DependencyState;
use crate::status::{HEALTH_INTERNAL_ERROR, HEALTH_OK, HEALTH_UNAVAILABLE};

verus! {

/// HTTP status code for a path no route matches.
pub const NOT_FOUND: u16 = 404;
/// HTTP status code for a known path asked with the wrong method.
pub const METHOD_NOT_ALLOWED: u16 = 405;

/// The request methods the routing tables distinguish.
#[derive(Clone, Copy, Debug, PartialEq, Eq, Structural)]
pub enum Method {
    Get,
    Post,
    Put,
}

/// The paths the routing tables distinguish. The transport layer matches the
/// raw request path against the routing tree and hands the core one of these;
/// every path outside the tables is `Other`.
#[derive(Clone, Copy, Debug, PartialEq, Eq, Structural)]
pub enum PathKind {
    /// `/reload`: trigger a configuration reload.
    Reload,
    /// `/restart-dependency`: trigger a restart of the managed dependency.
    RestartDependency,
    /// `/users`: a normal business endpoint, backed by the dependency.
    Users,
    /// Any path no routing table names.
    Other,
}

/// One incoming request, as the core sees it.
#[derive(Clone, Copy, Debug, PartialEq, Eq, Structural)]
pub struct Request {
    pub method: Method,
    pub path: PathKind,
    /// The `failing` query knob of `/restart-dependency`: forces the failure
    /// branch of the restart, for testing. Absent means `false`.
    pub failing: bool,
}

/// The body a handler answers with.
#[derive(Clone, Copy, Debug, PartialEq, Eq, Structural)]
pub enum Body {
    /// A bare status code, no structured body.
    Empty,
    /// Error body of the misconfigured fallback.
    InvalidConfig,
    /// Error body served while the dependency is restarting.
    Restarting,
    /// Error body of the degraded fallback after a failed restart.
    Unavailable,
}

impl Body {
    /// The message carried by each structured error body.
    pub open spec fn spec_message(&self) -> Seq<char> {
        match self {
            Body::Empty => ""@,
            Body::InvalidConfig => "Invalid app config. Check your logs."@,
            Body::Restarting => "Server restarting. Please wait."@,
            Body::Unavailable => "Server unavailable. Check your logs."@,
        }
    }

    /// Render the message carried by this body.
    pub fn message(&self) -> (m: String)
        ensures
            m@ == self.spec_message(),
    {
        match self {
            Body::Empty => "".to_owned(),
            Body::InvalidConfig => "Invalid app config. Check your logs.".to_owned(),
            Body::Restarting => "Server restarting. Please wait.".to_owned(),
            Body::Unavailable => "Server unavailable. Check your logs.".to_owned(),
        }
    }
}

/// A complete, well-formed answer: every failure mode still answers with a
/// status code and a body, never a reset or a hang.
#[derive(Clone, Copy, Debug, PartialEq, Eq, Structural)]
pub struct Response {
    pub status: u16,
    pub body: Body,
}

/// A control operation a request can trigger.
#[derive(Clone, Copy, Debug, PartialEq, Eq, Structural)]
pub enum Action {
    /// Attempt to load a new configuration and install the matching handler.
    Reload,
    /// Restart the managed dependency.
    RestartDependency,
}

/// Where routing a request through a handler leads.
#[derive(Clone, Copy, Debug, PartialEq, Eq, Structural)]
pub enum Routed {
    /// The request reached a control endpoint; the caller must now run the
    /// operation and answer with its outcome.
    Control(Action),
    /// The handler answers the request directly.
    Done(Response),
}

/// One complete request-handling policy: an immutable routing table plus a
/// fallback. A behaviour change never mutates a handler; it installs a brand
/// new one.
#[derive(Debug)]
pub enum Handler {
    /// The empty table installed at process start, before the first
    /// configuration is loaded: nothing matches.
    Blank,
    /// Normal operation: control endpoints plus the business endpoints, built
    /// over the configuration-derived dependency state.
    Normal { dependency: DependencyState },
    /// Narrow recovery surface after a failed reload: only `/reload` works,
    /// everything else reports the invalid configuration.
    AppMisconfigured,
    /// Served while the dependency restarts: every path answers "please
    /// wait".
    ServerRestarting,
    /// Degraded surface after a failed restart: the restart stays retriable,
    /// everything else reports the service unavailable.
    ServerUnavailable,
}

impl Handler {
    /// What this handler does with a request: the routing table of each
    /// policy, with its fallback.
    pub open spec fn spec_route(&self, req: Request) -> Routed {
        match self {
            Handler::Blank => Routed::Done(
                Response { status: NOT_FOUND, body: Body::Empty },
            ),
            Handler::Normal { .. } => match (req.method, req.path) {
                (Method::Post, PathKind::Reload) => Routed::Control(Action::Reload),
                (Method::Post, PathKind::RestartDependency) => Routed::Control(
                    Action::RestartDependency,
                ),
                (Method::Get, PathKind::Users) => Routed::Done(
                    Response { status: HEALTH_OK, body: Body::Empty },
                ),
                (_, PathKind::Reload) | (_, PathKind::RestartDependency) | (
                    _,
                    PathKind::Users,
                ) => Routed::Done(Response { status: METHOD_NOT_ALLOWED, body: Body::Empty }),
                _ => Routed::Done(Response { status: NOT_FOUND, body: Body::Empty }),
            },
            Handler::AppMisconfigured => match (req.method, req.path) {
                (Method::Post, PathKind::Reload) => Routed::Control(Action::Reload),
                (_, PathKind::Reload) => Routed::Done(
                    Response { status: METHOD_NOT_ALLOWED, body: Body::Empty },
                ),
                _ => Routed::Done(
                    Response { status: HEALTH_INTERNAL_ERROR, body: Body::InvalidConfig },
                ),
            },
            Handler::ServerRestarting => Routed::Done(
                Response { status: HEALTH_UNAVAILABLE, body: Body::Restarting },
            ),
            Handler::ServerUnavailable => match (req.method, req.path) {
                (Method::Post, PathKind::RestartDependency) => Routed::Control(
                    Action::RestartDependency,
                ),
                (_, PathKind::RestartDependency) => Routed::Done(
                    Response { status: METHOD_NOT_ALLOWED, body: Body::Empty },
                ),
                _ => Routed::Done(
                    Response { status: HEALTH_UNAVAILABLE, body: Body::Unavailable },
                ),
            },
        }
    }

    /// Route a request through this handler.
    pub fn route(&self, req: &Request) -> (r: Routed)
        ensures
            r == self.spec_route(*req),
    {
        match self {
            Handler::Blank => Routed::Done(
                Response { status: NOT_FOUND, body: Body::Empty },
            ),
            Handler::Normal { .. } => match (req.method, req.path) {
                (Method::Post, PathKind::Reload) => Routed::Control(Action::Reload),
                (Method::Post, PathKind::RestartDependency) => Routed::Control(
                    Action::RestartDependency,
                ),
                (Method::Get, PathKind::Users) => Routed::Done(
                    Response { status: HEALTH_OK, body: Body::Empty },
                ),
                (_, PathKind::Reload) | (_, PathKind::RestartDependency) | (
                    _,
                    PathKind::Users,
                ) => Routed::Done(Response { status: METHOD_NOT_ALLOWED, body: Body::Empty }),
                _ => Routed::Done(Response { status: NOT_FOUND, body: Body::Empty }),
            },
            Handler::AppMisconfigured => match (req.method, req.path) {
                (Method::Post, PathKind::Reload) => Routed::Control(Action::Reload),
                (_, PathKind::Reload) => Routed::Done(
                    Response { status: METHOD_NOT_ALLOWED, body: Body::Empty },
                ),
                _ => Routed::Done(
                    Response { status: HEALTH_INTERNAL_ERROR, body: Body::InvalidConfig },
                ),
            },
            Handler::ServerRestarting => Routed::Done(
                Response { status: HEALTH_UNAVAILABLE, body: Body::Restarting },
            ),
            Handler::ServerUnavailable => match (req.method, req.path) {
                (Method::Post, PathKind::RestartDependency) => Routed::Control(
                    Action::RestartDependency,
                ),
                (_, PathKind::RestartDependency) => Routed::Done(
                    Response { status: METHOD_NOT_ALLOWED, body: Body::Empty },
                ),
                _ => Routed::Done(
                    Response { status: HEALTH_UNAVAILABLE, body: Body::Unavailable },
                ),
            },
        }
    }

    /// The hostname of the dependency this handler was built over, where it
    /// carries one.
    pub fn dependency_hostname(&self) -> (h: Option<&String>)
        ensures
            match h {
                Some(name) => self matches Handler::Normal { dependency }
                    && name == &dependency.server_hostname,
                None => !(self is Normal),
            },
    {
        match self {
            Handler::Normal { dependency } => Some(&dependency.server_hostname),
            _ => None,
        }
    }
}

} // verus!
