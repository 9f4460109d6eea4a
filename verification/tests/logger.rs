use std::sync::Mutex;

use service_host::logger::{Logger, Severity, TelemetrySettings, TraceRecord, FLUSH_INTERVAL_SECS};

struct Recorder {
    records: Mutex<Vec<TraceRecord>>,
}

impl Recorder {
    fn new() -> Self {
        Recorder {
            records: Mutex::new(Vec::new()),
        }
    }

    fn taken(&self) -> Vec<(Severity, String)> {
        self.records
            .lock()
            .unwrap()
            .iter()
            .map(|record| (record.severity, record.message.clone()))
            .collect()
    }
}

impl Logger for Recorder {
    fn information(&self, message: String) {
        self.records
            .lock()
            .unwrap()
            .push(TraceRecord::information(message));
    }

    fn warning(&self, message: String) {
        self.records
            .lock()
            .unwrap()
            .push(TraceRecord::warning(message));
    }

    fn error(&self, message: String) {
        self.records.lock().unwrap().push(TraceRecord::error(message));
    }
}

fn log_all(logger: &dyn Logger) {
    logger.information("started".to_string());
    logger.warning("disk nearly full".to_string());
    logger.error("lost the connection".to_string());
}

#[test]
fn information_record_is_tagged_information() {
    let record = TraceRecord::information("started".to_string());
    assert_eq!(record.severity, Severity::Information);
    assert_eq!(record.message, "started");
}

#[test]
fn warning_record_is_tagged_warning() {
    let record = TraceRecord::warning("disk nearly full".to_string());
    assert_eq!(record.severity, Severity::Warning);
    assert_eq!(record.message, "disk nearly full");
}

#[test]
fn error_record_is_tagged_error() {
    let record = TraceRecord::error("lost the connection".to_string());
    assert_eq!(record.severity, Severity::Error);
    assert_eq!(record.message, "lost the connection");
}

#[test]
fn records_keep_the_message_as_it_is() {
    assert_eq!(TraceRecord::information(String::new()).message, "");
    assert_eq!(
        TraceRecord::error("  línea → ✗\n".to_string()).message,
        "  línea → ✗\n"
    );
}

#[test]
fn each_operation_gives_one_record_of_its_severity() {
    let recorder = Recorder::new();
    log_all(&recorder);
    assert_eq!(
        recorder.taken(),
        vec![
            (Severity::Information, "started".to_string()),
            (Severity::Warning, "disk nearly full".to_string()),
            (Severity::Error, "lost the connection".to_string()),
        ]
    );
    recorder.error("again".to_string());
    assert_eq!(recorder.taken().len(), 4);
    assert_eq!(
        recorder.taken()[3],
        (Severity::Error, "again".to_string())
    );
}

#[test]
fn severities_are_three_different_values() {
    assert_ne!(Severity::Information, Severity::Warning);
    assert_ne!(Severity::Warning, Severity::Error);
    assert_ne!(Severity::Information, Severity::Error);
}

#[test]
fn telemetry_settings_keep_the_key_and_flush_every_five_seconds() {
    let settings = TelemetrySettings::new("0123-abcd".to_string());
    assert_eq!(settings.instrumentation_key, "0123-abcd");
    assert_eq!(settings.flush_interval_secs, 5);
    assert_eq!(FLUSH_INTERVAL_SECS, 5);
}

#[test]
fn telemetry_settings_hand_an_empty_key_on() {
    let settings = TelemetrySettings::new(String::new());
    assert_eq!(settings.instrumentation_key, "");
    assert_eq!(settings.flush_interval_secs, 5);
}
