use axum::routing::get;
use axum::Router;
use axum_hot_swappable_router::hotswap::HotSwappableRouter;
use tower::ServiceExt;

fn status_of(router: &std::sync::Arc<Router>, path: &str) -> u16 {
    let runtime = tokio::runtime::Builder::new_current_thread()
        .build()
        .expect("runtime");
    let request = axum::http::Request::builder()
        .uri(path)
        .body(axum::body::Body::empty())
        .expect("request");
    let response = runtime
        .block_on(router.as_ref().clone().oneshot(request))
        .expect("response");
    response.status().as_u16()
}

#[test]
fn snapshot_returns_the_installed_router() {
    let first = Router::new().route("/first", get(|| async { "one" }));
    let slot = HotSwappableRouter::new(first);
    let snapshot = slot.snapshot();
    assert_eq!(status_of(&snapshot, "/first"), 200);
    assert_eq!(status_of(&snapshot, "/second"), 404);
}

#[test]
fn set_replaces_the_whole_router() {
    let first = Router::new().route("/first", get(|| async { "one" }));
    let slot = HotSwappableRouter::new(first);
    let second = Router::new().route("/second", get(|| async { "two" }));
    slot.set(second);
    let snapshot = slot.snapshot();
    // The old route is gone and the new one answers: the publish replaced the
    // router rather than handing the old one back.
    assert_eq!(status_of(&snapshot, "/first"), 404);
    assert_eq!(status_of(&snapshot, "/second"), 200);
}

#[test]
fn snapshots_are_fixed_while_later_publishes_proceed() {
    let first = Router::new().route("/first", get(|| async { "one" }));
    let slot = HotSwappableRouter::new(first);
    let before = slot.snapshot();
    let second = Router::new().route("/second", get(|| async { "two" }));
    slot.set(second);
    // A snapshot taken before the publish still answers as the router it
    // captured; a fresh snapshot sees the new router.
    assert_eq!(status_of(&before, "/first"), 200);
    assert_eq!(status_of(&slot.snapshot(), "/first"), 404);
}

#[test]
fn clones_share_the_same_slot() {
    let first = Router::new().route("/first", get(|| async { "one" }));
    let slot = HotSwappableRouter::new(first);
    let handle = slot.clone();
    let second = Router::new().route("/second", get(|| async { "two" }));
    handle.set(second);
    assert_eq!(status_of(&slot.snapshot(), "/second"), 200);
}

#[test]
fn last_publish_wins_on_the_slot() {
    let slot = HotSwappableRouter::new(Router::new());
    slot.set(Router::new().route("/a", get(|| async { "a" })));
    slot.set(Router::new().route("/b", get(|| async { "b" })));
    slot.set(Router::new().route("/c", get(|| async { "c" })));
    let snapshot = slot.snapshot();
    assert_eq!(status_of(&snapshot, "/a"), 404);
    assert_eq!(status_of(&snapshot, "/b"), 404);
    assert_eq!(status_of(&snapshot, "/c"), 200);
}
