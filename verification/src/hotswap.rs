use vstd::prelude::*;

use std::sync::Arc;

verus! {

/// Declares `axum::Router` so it can stand in signatures and fields: the
/// opaque routing table the surrounding server framework supplies.
#[verifier::external_type_specification]
#[verifier::external_body]
#[verifier::reject_recursive_types(S)]
pub struct ExRouter<S>(axum::Router<S>);

/// An `axum::Router` that can be replaced at runtime.
///
/// The slot is the sole mutable point of the dispatch path: publishing
/// replaces the whole router atomically and never blocks readers, and a
/// snapshot is one fully formed router, fixed for the request that took it.
/// The verified model of this mechanism is [`crate::dispatch::Dispatcher`];
/// this type carries the same protocol on the framework's own router type,
/// which stays opaque here.
///
/// The slot itself is an `arc_swap::ArcSwap`, whose strategy type cannot be
/// named outside its crate, so the whole struct is opaque to the verifier.
#[verifier::external_body]
pub struct HotSwappableRouter {
    current_router: Arc<arc_swap::ArcSwap<axum::Router>>,
}

impl Clone for HotSwappableRouter {
    /// Relies on `Arc::clone`: a clone is another handle on the same slot, so
    /// a publish through either handle is seen by snapshots through both.
    #[verifier::external_body]
    fn clone(&self) -> Self {
        Self {
            current_router: Arc::clone(&self.current_router),
        }
    }
}

impl HotSwappableRouter {
    /// Relies on `arc_swap::ArcSwapAny::from_pointee`: builds a slot that
    /// holds `router` until the first `set`.
    #[verifier::external_body]
    pub fn new(router: axum::Router) -> Self {
        Self {
            current_router: Arc::new(arc_swap::ArcSwap::from_pointee(router)),
        }
    }

    /// Relies on `arc_swap::ArcSwapAny::store`: atomically publishes
    /// `new_router` as the current router. Replacement only — it cannot fail,
    /// completes in bounded time, and never blocks concurrent snapshots; of
    /// racing publishes the last one to complete wins.
    #[verifier::external_body]
    pub fn set(&self, new_router: axum::Router) {
        self.current_router.store(Arc::new(new_router));
    }

    /// Relies on `arc_swap::ArcSwapAny::load_full`: returns, without locking,
    /// the router whose publish completed most recently — one fully formed
    /// value, unaffected by later publishes.
    #[verifier::external_body]
    pub fn snapshot(&self) -> Arc<axum::Router> {
        self.current_router.load_full()
    }
}

} // verus!
