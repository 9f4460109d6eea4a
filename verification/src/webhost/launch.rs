//! How a configured host is launched: what it logs and where it listens.

use axum::Router;
use vstd::prelude::*;
use vstd::string::StringExecFns;

verus! {

/// The port that a host listens on.
pub const LISTEN_PORT: u16 = 8080;

/// The address that a host listens on: every IPv4 interface.
pub const LISTEN_HOST: [u8; 4] = [0, 0, 0, 0];

/// The environment variable that holds the filter for what is logged.
pub const FILTER_VARIABLE: &'static str = "RUST_LOG";

/// What follows the service name in the default filter: the service and the
/// HTTP middleware both log from debug level up.
pub const DEFAULT_LEVELS: &'static str = "=debug,tower_http=debug";

/// What a report of a failed server starts with.
pub const FAILURE_PREFIX: &'static str = "Server Error: ";

/// The filter that is used for a service when none is configured.
pub open spec fn default_filter(name: Seq<char>) -> Seq<char> {
    name + DEFAULT_LEVELS@
}

/// A host that is ready to serve: the router with request tracing around
/// every route, the filter for what is logged, and the listener's address.
pub struct Launch {
    pub app: Router,
    pub filter: String,
    pub host: [u8; 4],
    pub port: u16,
}

/// The filter for what a service logs: the configured one where there is one,
/// else the default for the service's name.
pub fn log_filter(configured: Option<String>, name: &str) -> (filter: String)
    ensures
        filter@ == (match configured {
            Some(text) => text@,
            None => default_filter(name@),
        }),
{
    match configured {
        Some(text) => text,
        None => String::from_str(name).concat(DEFAULT_LEVELS),
    }
}

/// The line that reports that serving ended with an error.
pub fn failure_report(error: &str) -> (line: String)
    ensures
        line@ == FAILURE_PREFIX@ + error@,
{
    String::from_str(FAILURE_PREFIX).concat(error)
}

} // verus!
