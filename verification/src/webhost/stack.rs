//! The model of a host under configuration: the routes it serves and the
//! middleware wrapped around each of them, as mathematical values.

use mediator::DefaultAsyncMediator;
use std::sync::Arc;
use tokio::sync::Mutex;
use tower_http::cors::CorsLayer;
use utoipa::openapi::OpenApi;
use vstd::prelude::*;

verus! {

/// Path of the route that serves the API description as JSON.
pub const DOCUMENT_PATH: &'static str = "/swagger/swagger.json";

/// Pattern of the route that serves the documentation UI; the wildcard takes
/// everything from the slash after `/swagger-ui` on.
pub const UI_PATTERN: &'static str = "/swagger-ui/*tail";

/// One layer of request processing wrapped around a route.
pub enum Middleware {
    /// A cross-origin resource sharing policy.
    Cors(CorsLayer),
    /// Response compression.
    Compression,
    /// The shared mediator, handed to every request handler.
    Mediator(Arc<Mutex<DefaultAsyncMediator>>),
    /// A shared value of any other type, handed to every request handler.
    Extension,
    /// Request tracing.
    Trace,
    /// A layer of any other kind, applied before the router reached a host.
    Other,
}

/// What answers the requests that reach a route.
pub enum Endpoint {
    /// The API description, serialised as JSON.
    Document(OpenApi),
    /// The files of the documentation UI, set up to load the API description
    /// from the given URL.
    DocsUi(Seq<char>),
    /// A handler that the router came with.
    Handler,
}

/// A route: what answers there, and the middleware around it, innermost
/// first: the last layer sees a request first.
pub struct Route {
    pub endpoint: Endpoint,
    pub layers: Seq<Middleware>,
}

/// The routes of a router, by the path pattern that each is registered at.
pub type RouteTable = Map<Seq<char>, Route>;

/// A configuration call of the builder.
pub enum Step {
    Cors(CorsLayer),
    Compression,
    Logger,
    Mediator(Arc<Mutex<DefaultAsyncMediator>>),
    Repository,
    Settings,
    ApiDocs(OpenApi),
}

/// What a host is, to its callers: the service name and the route table.
pub struct HostView {
    pub name: Seq<char>,
    pub routes: RouteTable,
}

/// The table after `layer` has been wrapped around every route in it. The
/// set of routes is unchanged, and so is what answers at each.
pub open spec fn wrap_all(table: RouteTable, layer: Middleware) -> RouteTable {
    Map::new(
        |path: Seq<char>| table.contains_key(path),
        |path: Seq<char>|
            Route { endpoint: table[path].endpoint, layers: table[path].layers.push(layer) },
    )
}

/// The table after two routes have been registered: at `document` the API
/// description, at `ui` the documentation UI that loads the description from
/// `spec_url`. Nothing is wrapped around them yet.
pub open spec fn with_docs_at(
    table: RouteTable,
    document: Seq<char>,
    ui: Seq<char>,
    spec_url: Seq<char>,
    api: OpenApi,
) -> RouteTable {
    table.insert(document, Route { endpoint: Endpoint::Document(api), layers: Seq::empty() }).insert(
        ui,
        Route { endpoint: Endpoint::DocsUi(spec_url), layers: Seq::empty() },
    )
}

/// The table after the two documentation routes have been registered: the UI
/// loads the description from the route that serves it.
pub open spec fn with_docs(table: RouteTable, api: OpenApi) -> RouteTable {
    with_docs_at(table, DOCUMENT_PATH@, UI_PATTERN@, DOCUMENT_PATH@, api)
}

/// The middleware that a configuration call wraps around the routes, if it
/// wraps any.
pub open spec fn layer_of(step: Step) -> Option<Middleware> {
    match step {
        Step::Cors(policy) => Some(Middleware::Cors(policy)),
        Step::Compression => Some(Middleware::Compression),
        Step::Mediator(handle) => Some(Middleware::Mediator(handle)),
        Step::Logger | Step::Repository | Step::Settings => Some(Middleware::Extension),
        Step::ApiDocs(_) => None,
    }
}

/// The host after one configuration call.
pub open spec fn apply(host: HostView, step: Step) -> HostView {
    match step {
        Step::ApiDocs(api) => HostView { name: host.name, routes: with_docs(host.routes, api) },
        _ => HostView { name: host.name, routes: wrap_all(host.routes, layer_of(step)->0) },
    }
}

/// The host after a sequence of configuration calls, first call first.
pub open spec fn configure(host: HostView, steps: Seq<Step>) -> HostView
    decreases steps.len(),
{
    if steps.len() == 0 {
        host
    } else {
        apply(configure(host, steps.drop_last()), steps.last())
    }
}

/// The route table that is served once the host is started: request tracing
/// is wrapped around everything configured before.
pub open spec fn launched(host: HostView) -> RouteTable {
    wrap_all(host.routes, Middleware::Trace)
}

/// The layers that a sequence of configuration calls wraps around a route
/// that was registered before the first of them, innermost first.
pub open spec fn layers_of(steps: Seq<Step>) -> Seq<Middleware>
    decreases steps.len(),
{
    if steps.len() == 0 {
        Seq::empty()
    } else {
        match layer_of(steps.last()) {
            Some(layer) => layers_of(steps.drop_last()).push(layer),
            None => layers_of(steps.drop_last()),
        }
    }
}

/// Whether the documentation routes are registered by one of the calls.
pub open spec fn registers_docs(steps: Seq<Step>) -> bool {
    exists|i: int| 0 <= i < steps.len() && #[trigger] steps[i] is ApiDocs
}

/// The two documentation routes lie at different patterns.
pub proof fn lemma_docs_patterns_differ()
    ensures
        DOCUMENT_PATH@ != UI_PATTERN@,
{
    reveal_strlit("/swagger/swagger.json");
    reveal_strlit("/swagger-ui/*tail");
    assert(DOCUMENT_PATH@.len() != UI_PATTERN@.len());
}

/// Configuring with one sequence of calls and then with another is
/// configuring with the two in a row.
pub proof fn lemma_configure_in_stages(host: HostView, first: Seq<Step>, second: Seq<Step>)
    ensures
        configure(host, first + second) == configure(configure(host, first), second),
    decreases second.len(),
{
    if second.len() == 0 {
        assert(first + second =~= first);
    } else {
        lemma_configure_in_stages(host, first, second.drop_last());
        assert((first + second).drop_last() =~= first + second.drop_last());
        assert((first + second).last() == second.last());
    }
}

/// No configuration call renames the service.
pub proof fn lemma_name_is_kept(host: HostView, steps: Seq<Step>)
    ensures
        configure(host, steps).name == host.name,
    decreases steps.len(),
{
    if steps.len() > 0 {
        lemma_name_is_kept(host, steps.drop_last());
    }
}

/// A route that a host holds is still served after any sequence of
/// configuration calls and the start: layers wrap routes, they never remove
/// one.
pub proof fn lemma_routes_survive(host: HostView, steps: Seq<Step>, path: Seq<char>)
    requires
        host.routes.contains_key(path),
    ensures
        configure(host, steps).routes.contains_key(path),
        launched(configure(host, steps)).contains_key(path),
    decreases steps.len(),
{
    if steps.len() > 0 {
        lemma_routes_survive(host, steps.drop_last(), path);
    }
}

/// A layering call keeps every route and what answers there, and puts its
/// layer outermost around each; it adds no route.
pub proof fn lemma_layer_wraps_every_route(host: HostView, step: Step, path: Seq<char>)
    requires
        !(step is ApiDocs),
    ensures
        layer_of(step) is Some,
        apply(host, step).name == host.name,
        apply(host, step).routes.contains_key(path) == host.routes.contains_key(path),
        host.routes.contains_key(path) ==> apply(host, step).routes[path] == (Route {
            endpoint: host.routes[path].endpoint,
            layers: host.routes[path].layers.push(layer_of(step)->0),
        }),
{
}

/// Registering the documentation routes keeps the name and leaves every
/// route at another pattern as it was: none is added there, removed or
/// replaced.
pub proof fn lemma_docs_keep_other_routes(host: HostView, api: OpenApi, path: Seq<char>)
    requires
        path != DOCUMENT_PATH@,
        path != UI_PATTERN@,
    ensures
        apply(host, Step::ApiDocs(api)).name == host.name,
        apply(host, Step::ApiDocs(api)).routes.contains_key(path) == host.routes.contains_key(
            path,
        ),
        apply(host, Step::ApiDocs(api)).routes[path] == host.routes[path],
{
}

/// The document route serves the description that was given, with nothing
/// wrapped around it, and the UI loads the description from that route:
/// neither depends on the name of the host or on what it held before.
pub proof fn lemma_document_is_the_one_given(host: HostView, api: OpenApi)
    ensures
        apply(host, Step::ApiDocs(api)).routes.contains_key(DOCUMENT_PATH@),
        apply(host, Step::ApiDocs(api)).routes[DOCUMENT_PATH@] == (Route {
            endpoint: Endpoint::Document(api),
            layers: Seq::empty(),
        }),
        apply(host, Step::ApiDocs(api)).routes.contains_key(UI_PATTERN@),
        apply(host, Step::ApiDocs(api)).routes[UI_PATTERN@] == (Route {
            endpoint: Endpoint::DocsUi(DOCUMENT_PATH@),
            layers: Seq::empty(),
        }),
{
    lemma_docs_patterns_differ();
}

/// Once the documentation routes are registered they are served, whatever is
/// configured before and after.
pub proof fn lemma_docs_are_served(
    host: HostView,
    before: Seq<Step>,
    api: OpenApi,
    after: Seq<Step>,
)
    ensures
        launched(configure(host, before.push(Step::ApiDocs(api)) + after)).contains_key(
            DOCUMENT_PATH@,
        ),
        launched(configure(host, before.push(Step::ApiDocs(api)) + after)).contains_key(
            UI_PATTERN@,
        ),
{
    let registered = configure(host, before.push(Step::ApiDocs(api)));
    assert(before.push(Step::ApiDocs(api)).drop_last() =~= before);
    assert(registered == apply(configure(host, before), Step::ApiDocs(api)));
    lemma_configure_in_stages(host, before.push(Step::ApiDocs(api)), after);
    lemma_routes_survive(registered, after, DOCUMENT_PATH@);
    lemma_routes_survive(registered, after, UI_PATTERN@);
}

/// Middleware is applied in the order of the calls: around a route that the
/// host held from the start lie the layers it had, then one layer for each
/// layering call in turn, and request tracing outermost; what answers at the
/// route is what answered there before. This is said of every route but those
/// that a registration of the documentation routes among the calls puts anew.
pub proof fn lemma_layers_in_call_order(host: HostView, steps: Seq<Step>, path: Seq<char>)
    requires
        host.routes.contains_key(path),
        registers_docs(steps) ==> path != DOCUMENT_PATH@ && path != UI_PATTERN@,
    ensures
        configure(host, steps).routes[path] == (Route {
            endpoint: host.routes[path].endpoint,
            layers: host.routes[path].layers + layers_of(steps),
        }),
        launched(configure(host, steps))[path] == (Route {
            endpoint: host.routes[path].endpoint,
            layers: (host.routes[path].layers + layers_of(steps)).push(Middleware::Trace),
        }),
    decreases steps.len(),
{
    lemma_routes_survive(host, steps, path);
    if steps.len() == 0 {
        assert(host.routes[path].layers + layers_of(steps) =~= host.routes[path].layers);
    } else {
        let earlier = steps.drop_last();
        if steps.last() is ApiDocs {
            assert(steps[steps.len() - 1] is ApiDocs);
        }
        if registers_docs(earlier) {
            let i = choose|i: int| 0 <= i < earlier.len() && #[trigger] earlier[i] is ApiDocs;
            assert(steps[i] is ApiDocs);
        }
        lemma_layers_in_call_order(host, earlier, path);
        lemma_routes_survive(host, earlier, path);
        match layer_of(steps.last()) {
            Some(layer) => {
                assert((host.routes[path].layers + layers_of(earlier)).push(layer)
                    =~= host.routes[path].layers + layers_of(earlier).push(layer));
            },
            None => {},
        }
    }
}

/// Middleware does not reach routes that are registered after it: around the
/// documentation routes lie the layers of the calls that follow their
/// registration and request tracing, and nothing of what was layered before.
/// The description that is served is the one that was registered.
pub proof fn lemma_docs_wrapped_by_later_layers(
    host: HostView,
    before: Seq<Step>,
    api: OpenApi,
    after: Seq<Step>,
)
    requires
        !registers_docs(after),
    ensures
        launched(configure(host, before.push(Step::ApiDocs(api)) + after))[DOCUMENT_PATH@] == (Route {
            endpoint: Endpoint::Document(api),
            layers: layers_of(after).push(Middleware::Trace),
        }),
        launched(configure(host, before.push(Step::ApiDocs(api)) + after))[UI_PATTERN@] == (Route {
            endpoint: Endpoint::DocsUi(DOCUMENT_PATH@),
            layers: layers_of(after).push(Middleware::Trace),
        }),
{
    let registered = configure(host, before.push(Step::ApiDocs(api)));
    assert(before.push(Step::ApiDocs(api)).drop_last() =~= before);
    assert(registered == apply(configure(host, before), Step::ApiDocs(api)));
    lemma_docs_patterns_differ();
    lemma_configure_in_stages(host, before.push(Step::ApiDocs(api)), after);
    lemma_layers_in_call_order(registered, after, DOCUMENT_PATH@);
    lemma_layers_in_call_order(registered, after, UI_PATTERN@);
    assert(Seq::<Middleware>::empty() + layers_of(after) =~= layers_of(after));
}

} // verus!
