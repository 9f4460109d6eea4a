//! The router that a host is built on, and the layers and handles that are
//! composed onto it. Everything here belongs to the web framework and its
//! companions; the contracts of this module are taken on trust from their
//! sources and are what the rest of the crate is proved against.

use super::docs::asset_reply;
use super::stack::{wrap_all, with_docs_at, Middleware, RouteTable};
use axum::extract::Path;
use axum::routing::get;
use axum::{Extension, Json, Router};
use mediator::DefaultAsyncMediator;
use std::future::ready;
use std::sync::Arc;
use tokio::sync::Mutex;
use tower_http::compression::CompressionLayer;
use tower_http::cors::CorsLayer;
use tower_http::trace::TraceLayer;
use utoipa::openapi::OpenApi;
use vstd::prelude::*;

verus! {

/// `axum::Router`, carried through as an opaque value.
#[verifier::external_type_specification]
#[verifier::external_body]
#[verifier::reject_recursive_types(B)]
pub struct ExRouter<B>(Router<B>);

/// `axum::body::Body`, the request body type of the routers used here.
#[verifier::external_type_specification]
#[verifier::external_body]
pub struct ExBody(axum::body::Body);

/// `tower_http::cors::CorsLayer`, a cross-origin policy.
#[verifier::external_type_specification]
#[verifier::external_body]
pub struct ExCorsLayer(CorsLayer);

/// `utoipa::openapi::OpenApi`, an API description.
#[verifier::external_type_specification]
#[verifier::external_body]
pub struct ExOpenApi(OpenApi);

/// `mediator::DefaultAsyncMediator`, a request dispatcher.
#[verifier::external_type_specification]
#[verifier::external_body]
pub struct ExMediator(DefaultAsyncMediator);

/// `tokio::sync::Mutex`, the lock around every injected dependency.
#[verifier::external_type_specification]
#[verifier::external_body]
#[verifier::reject_recursive_types(T)]
pub struct ExMutex<T: ?Sized>(Mutex<T>);

/// The routes of a router: for each path pattern registered in it, what
/// answers there, and the middleware that `Router::layer` has put around the
/// route since it was registered, innermost first.
pub uninterp spec fn route_table(router: Router) -> RouteTable;

/// Whether `document` and then `ui` can be registered on this router as new
/// routes: neither pattern is registered in it yet, each is well formed and
/// starts with a slash, and neither overlaps a route that is there before
/// it. On a pattern that is malformed or overlaps, `Router::route` panics.
pub uninterp spec fn docs_fit(router: Router, document: Seq<char>, ui: Seq<char>) -> bool;

/// Whether a cross-origin policy can be put around a service.
/// `CorsLayer::layer` panics on a policy that allows credentials and also
/// answers with a wildcard for the allowed headers, methods or origins or for
/// the exposed headers.
pub uninterp spec fn cors_usable(cors: CorsLayer) -> bool;

/// `CorsLayer::new`: the policy that sends no headers. It allows no
/// credentials, so it is usable.
pub assume_specification[ CorsLayer::new ]() -> (cors: CorsLayer)
    ensures
        cors_usable(cors),
;

/// `CorsLayer::permissive`: wildcards everywhere, and no credentials, so it
/// is usable.
pub assume_specification[ CorsLayer::permissive ]() -> (cors: CorsLayer)
    ensures
        cors_usable(cors),
;

/// `Router::clone`. Nothing is claimed of the copy.
pub assume_specification<B>[ <Router<B> as Clone>::clone ](router: &Router<B>) -> (copy: Router<
    B,
>)
;

/// `tokio::sync::Mutex::new`: an unlocked lock around `value`. Nothing is
/// claimed of it.
#[verifier::external_body]
pub(crate) fn new_lock<T>(value: T) -> (lock: Mutex<T>) {
    Mutex::new(value)
}

/// `Router::layer` with a cross-origin policy. The layer is put around every
/// route that the router holds; the set of routes stays as it is, and so does
/// what the router accepts as further routes.
#[verifier::external_body]
pub(crate) fn layer_cors(router: Router, cors: CorsLayer) -> (out: Router)
    requires
        cors_usable(cors),
    ensures
        route_table(out) == wrap_all(route_table(router), Middleware::Cors(cors)),
        forall|document: Seq<char>, ui: Seq<char>| #[trigger]
            docs_fit(out, document, ui) == docs_fit(router, document, ui),
{
    router.layer(cors)
}

/// `Router::layer` with `CompressionLayer::new()`, the compression layer in
/// its default setting. Routes and what fits beside them stay as they are.
#[verifier::external_body]
pub(crate) fn layer_compression(router: Router) -> (out: Router)
    ensures
        route_table(out) == wrap_all(route_table(router), Middleware::Compression),
        forall|document: Seq<char>, ui: Seq<char>| #[trigger]
            docs_fit(out, document, ui) == docs_fit(router, document, ui),
{
    router.layer(CompressionLayer::new())
}

/// `Router::layer` with `TraceLayer::new_for_http()`, request tracing that
/// classifies responses by their status code.
#[verifier::external_body]
pub(crate) fn layer_trace(router: Router) -> (out: Router)
    ensures
        route_table(out) == wrap_all(route_table(router), Middleware::Trace),
        forall|document: Seq<char>, ui: Seq<char>| #[trigger]
            docs_fit(out, document, ui) == docs_fit(router, document, ui),
{
    router.layer(TraceLayer::new_for_http())
}

/// `Router::layer` with `Extension(mediator)`: every request that reaches a
/// route registered so far carries a clone of the handle, which shares the
/// one mediator and its lock.
#[verifier::external_body]
pub(crate) fn layer_mediator(router: Router, mediator: Arc<Mutex<DefaultAsyncMediator>>) -> (out:
    Router)
    ensures
        route_table(out) == wrap_all(route_table(router), Middleware::Mediator(mediator)),
        forall|document: Seq<char>, ui: Seq<char>| #[trigger]
            docs_fit(out, document, ui) == docs_fit(router, document, ui),
{
    router.layer(Extension(mediator))
}

/// `Router::layer` with `Extension(value)`: every request that reaches a
/// route registered so far carries a clone of `value`, which a handler takes
/// out by its type.
#[verifier::external_body]
pub(crate) fn layer_extension<T: Clone + Send + Sync + 'static>(router: Router, value: T) -> (out:
    Router)
    ensures
        route_table(out) == wrap_all(route_table(router), Middleware::Extension),
        forall|document: Seq<char>, ui: Seq<char>| #[trigger]
            docs_fit(out, document, ui) == docs_fit(router, document, ui),
{
    router.layer(Extension(value))
}

/// `Router::route`, twice: a GET route at `document` that answers with `api`
/// as JSON, and a GET route at `ui` that answers with [`asset_reply`] of the
/// wildcard's capture and `spec_url`. Both routes are new and nothing is
/// layered around them; the routes that were there stay as they are.
#[verifier::external_body]
pub(crate) fn mount_docs(
    router: Router,
    document: &str,
    ui: &str,
    spec_url: String,
    api: OpenApi,
) -> (out: Router)
    requires
        docs_fit(router, document@, ui@),
    ensures
        route_table(out) == with_docs_at(route_table(router), document@, ui@, spec_url@, api),
{
    router
        .route(document, get(move || ready(Json(api))))
        .route(ui, get(move |Path(tail): Path<String>| ready(asset_reply(tail, spec_url))))
}

} // verus!
