//! Core of a network server whose request-handling behaviour can be replaced
//! atomically at runtime, without dropping in-flight requests.
//!
//! The crate has two halves:
//!
//! * A verified model of the operational lifecycle: the [`status`] state
//!   machine the health check reads, the [`handler`] policies the control
//!   operations install, the single-slot [`dispatch`] mechanism, and the
//!   [`server`] control operations that keep status and installed handler
//!   coherent.
//! * [`hotswap`], the executable hot-swap slot over `arc_swap` and an
//!   `axum::Router`, which the surrounding application plugs into its
//!   transport layer.

pub mod config;
pub mod dispatch;
pub mod handler;
pub mod hotswap;
pub mod server;
pub mod status;
