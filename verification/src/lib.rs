//! Scaffolding for a small HTTP service: a logging capability with severity
//! tagged trace records, and a fluent builder that layers middleware and
//! documentation routes onto a router and plans how the host is launched.

pub mod data;
pub mod logger;
pub mod webhost;
