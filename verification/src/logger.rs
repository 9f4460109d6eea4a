//! The logging capability: three operations, one for each severity, and the
//! trace record that each of them stands for.

use vstd::prelude::*;

verus! {

/// How many seconds a telemetry backend may hold records before it sends
/// them on.
pub const FLUSH_INTERVAL_SECS: u64 = 5;

/// How severe a logged message is.
#[derive(Clone, Copy, Debug, PartialEq, Eq, Structural)]
pub enum Severity {
    Information,
    Warning,
    Error,
}

/// A sink for messages of three severities. Every operation is fire and
/// forget: it returns nothing and reports no failure of delivery.
pub trait Logger {
    fn information(&self, message: String);

    fn warning(&self, message: String);

    fn error(&self, message: String);
}

/// What one call of a [`Logger`] operation hands to a telemetry backend: the
/// message, tagged with the severity of the operation.
#[derive(Debug)]
pub struct TraceRecord {
    pub severity: Severity,
    pub message: String,
}

/// A [`TraceRecord`] as mathematical values.
pub struct TraceRecordView {
    pub severity: Severity,
    pub message: Seq<char>,
}

impl View for TraceRecord {
    type V = TraceRecordView;

    open spec fn view(&self) -> TraceRecordView {
        TraceRecordView { severity: self.severity, message: self.message@ }
    }
}

impl TraceRecord {
    /// The record of one call of [`Logger::information`].
    pub fn information(message: String) -> (record: Self)
        ensures
            record@ == (TraceRecordView { severity: Severity::Information, message: message@ }),
    {
        Self { severity: Severity::Information, message }
    }

    /// The record of one call of [`Logger::warning`].
    pub fn warning(message: String) -> (record: Self)
        ensures
            record@ == (TraceRecordView { severity: Severity::Warning, message: message@ }),
    {
        Self { severity: Severity::Warning, message }
    }

    /// The record of one call of [`Logger::error`].
    pub fn error(message: String) -> (record: Self)
        ensures
            record@ == (TraceRecordView { severity: Severity::Error, message: message@ }),
    {
        Self { severity: Severity::Error, message }
    }
}

/// What a telemetry backend is set up with: the key of the destination, and
/// the interval at which held records are sent.
#[derive(Debug)]
pub struct TelemetrySettings {
    pub instrumentation_key: String,
    pub flush_interval_secs: u64,
}

impl TelemetrySettings {
    /// The settings for a destination. The key is handed on as it is: whether
    /// it names a destination is for the backend to say.
    pub fn new(instrumentation_key: String) -> (settings: Self)
        ensures
            settings.instrumentation_key@ == instrumentation_key@,
            settings.flush_interval_secs == FLUSH_INTERVAL_SECS,
    {
        Self { instrumentation_key, flush_interval_secs: FLUSH_INTERVAL_SECS }
    }
}

} // verus!
