//! The host builder: a router and a service name, configured by chained
//! calls and ended by `start`. Each call takes the host and gives it back, so
//! the order of the calls is the order in which middleware is wrapped: a
//! layer goes around the routes that are there when it is added, and around
//! no route that comes later.

pub mod docs;
pub mod launch;
pub mod router;
pub mod stack;

use crate::data::Repository;
use launch::{default_filter, log_filter, Launch, LISTEN_HOST, LISTEN_PORT};
use mediator::DefaultAsyncMediator;
use router::{
    cors_usable, docs_fit, layer_compression, layer_cors, layer_extension, layer_mediator,
    layer_trace, mount_docs, new_lock, route_table,
};
use stack::{apply, launched, HostView, Step, DOCUMENT_PATH, UI_PATTERN};
use std::sync::Arc;
use tokio::sync::Mutex;
use tower_http::cors::CorsLayer;
use utoipa::openapi::OpenApi;
use vstd::prelude::*;
use vstd::string::StringExecFns;

verus! {

/// An HTTP host under configuration: a router and the name of the service.
/// Every configuration call takes the host and gives it back.
#[derive(Clone)]
pub struct WebHost {
    app: axum::Router,
    name: String,
}

impl View for WebHost {
    type V = HostView;

    closed spec fn view(&self) -> HostView {
        HostView { name: self.name@, routes: route_table(self.app) }
    }
}

impl WebHost {
    /// Whether the documentation routes can still be registered on this host.
    pub closed spec fn admits_docs(self) -> bool {
        docs_fit(self.app, DOCUMENT_PATH@, UI_PATTERN@)
    }

    /// A host that serves the routes of `app` under the service name `name`.
    pub fn new(app: axum::Router, name: String) -> (host: Self)
        ensures
            host@ == (HostView { name: name@, routes: route_table(app) }),
            host.admits_docs() == docs_fit(app, DOCUMENT_PATH@, UI_PATTERN@),
    {
        Self { app, name }
    }

    /// Puts a cross-origin policy around everything added so far. The policy
    /// has to be one that can be applied: see [`cors_usable`].
    pub fn add_cors(self, cors: CorsLayer) -> (host: Self)
        requires
            cors_usable(cors),
        ensures
            host@ == apply(self@, Step::Cors(cors)),
            host.admits_docs() == self.admits_docs(),
    {
        Self { app: layer_cors(self.app, cors), name: self.name }
    }

    /// Puts response compression around everything added so far.
    pub fn add_compression(self) -> (host: Self)
        ensures
            host@ == apply(self@, Step::Compression),
            host.admits_docs() == self.admits_docs(),
    {
        Self { app: layer_compression(self.app), name: self.name }
    }

    /// Hands a shared logger to every handler added so far. Nothing is
    /// logged by this call.
    pub fn add_logger<A>(self, logger: Arc<Mutex<A>>) -> (host: Self) where
        A: Send + Sync + 'static,

        ensures
            host@ == apply(self@, Step::Logger),
            host.admits_docs() == self.admits_docs(),
    {
        Self { app: layer_extension(self.app, logger), name: self.name }
    }

    /// Hands a shared mediator to every handler added so far: the handle
    /// that they get is the one given here.
    pub fn add_mediator(self, mediator: Arc<Mutex<DefaultAsyncMediator>>) -> (host: Self)
        ensures
            host@ == apply(self@, Step::Mediator(mediator)),
            host.admits_docs() == self.admits_docs(),
    {
        Self { app: layer_mediator(self.app, mediator), name: self.name }
    }

    /// Puts a repository behind a lock and hands it to every handler added
    /// so far. `Entity` is the type that the repository stores; it is meant
    /// to be one that can be serialised and deserialised, which the host
    /// itself never does.
    pub fn add_repository<Entity, R>(self, repository: R) -> (host: Self) where
        Entity: Clone + 'static + Send + Sync,
        R: Repository<Entity> + 'static + Send + Sync,

        ensures
            host@ == apply(self@, Step::Repository),
            host.admits_docs() == self.admits_docs(),
    {
        let handle = Arc::new(new_lock(repository));
        Self { app: layer_extension(self.app, handle), name: self.name }
    }

    /// Hands shared settings to every handler added so far.
    pub fn add_settings<S: 'static + std::marker::Send>(self, setting: Arc<Mutex<S>>) -> (host:
        Self)
        ensures
            host@ == apply(self@, Step::Settings),
            host.admits_docs() == self.admits_docs(),
    {
        Self { app: layer_extension(self.app, setting), name: self.name }
    }

    /// Registers the two documentation routes: the API description as JSON,
    /// and the files of the documentation UI. Nothing that was layered before
    /// is put around them. The routes must not be there already, nor overlap
    /// a route that is.
    pub fn add_apidocs(self, apidoc: OpenApi) -> (host: Self)
        requires
            self.admits_docs(),
        ensures
            host@ == apply(self@, Step::ApiDocs(apidoc)),
    {
        let spec_url = String::from_str(DOCUMENT_PATH);
        Self {
            app: mount_docs(self.app, DOCUMENT_PATH, UI_PATTERN, spec_url, apidoc),
            name: self.name,
        }
    }

    /// Ends the configuration: request tracing goes around everything, and
    /// what comes back says what to log and where to listen.
    /// `configured_filter` is the filter found in the environment, if there
    /// is one. The host is used up.
    pub fn start(self, configured_filter: Option<String>) -> (launch: Launch)
        ensures
            route_table(launch.app) == launched(self@),
            launch.filter@ == (match configured_filter {
                Some(text) => text@,
                None => default_filter(self@.name),
            }),
            launch.host == LISTEN_HOST,
            launch.port == LISTEN_PORT,
    {
        let filter = log_filter(configured_filter, self.name.as_str());
        Launch { app: layer_trace(self.app), filter, host: LISTEN_HOST, port: LISTEN_PORT }
    }
}

/// The first stage of building a host: it holds what the host will start from.
#[derive(Clone)]
pub struct WebHostBuilder {
    app: axum::Router,
    name: String,
}

impl View for WebHostBuilder {
    type V = HostView;

    closed spec fn view(&self) -> HostView {
        HostView { name: self.name@, routes: route_table(self.app) }
    }
}

impl WebHostBuilder {
    /// Whether the documentation routes can be registered on the host that
    /// this builder gives.
    pub closed spec fn admits_docs(self) -> bool {
        docs_fit(self.app, DOCUMENT_PATH@, UI_PATTERN@)
    }

    /// A builder for a host that serves the routes of `app` under the
    /// service name `name`.
    pub fn new(app: axum::Router, name: String) -> (builder: Self)
        ensures
            builder@ == (HostView { name: name@, routes: route_table(app) }),
            builder.admits_docs() == docs_fit(app, DOCUMENT_PATH@, UI_PATTERN@),
    {
        Self { app, name }
    }

    /// The host, with the router and the name that the builder holds.
    pub fn build(self) -> (host: WebHost)
        ensures
            host@ == self@,
            host.admits_docs() == self.admits_docs(),
    {
        WebHost { app: self.app, name: self.name }
    }
}

} // verus!
