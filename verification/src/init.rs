//! Initialization configuration for the telemetry pipelines.
//!
//! The pipelines themselves (exporters, providers, subscribers) are outside
//! collaborators; this module holds the plain configuration values they are
//! built from, and computes which resource attributes a configuration
//! contributes.

use vstd::prelude::*;

verus! {

/// Batch-reporting configuration, as plain values.
#[derive(Clone, Copy, PartialEq, Eq, Structural, Debug)]
pub struct BatchExportConfig {
    /// Greatest number of items kept queued before items are dropped.
    pub max_queue_size: usize,
    /// Delay between two consecutive exports, in milliseconds.
    pub scheduled_delay_millis: u64,
    /// Greatest number of items exported in one batch.
    pub max_export_batch_size: usize,
    /// Time allowed for one export before it is cancelled, in milliseconds.
    pub max_export_timeout_millis: u64,
}

impl BatchExportConfig {
    /// Creates the default batch configuration: a queue of 2048 items,
    /// an export every 5 seconds, 512 items per batch, and 30 seconds
    /// allowed per export.
    pub fn new() -> (r: Self)
        ensures
            r.max_queue_size == 2048,
            r.scheduled_delay_millis == 5000,
            r.max_export_batch_size == 512,
            r.max_export_timeout_millis == 30000,
    {
        BatchExportConfig {
            max_queue_size: 2048,
            scheduled_delay_millis: 5000,
            max_export_batch_size: 512,
            max_export_timeout_millis: 30000,
        }
    }
}

/// OpenTelemetry initialization configuration.
#[derive(Debug)]
pub struct InitConfig {
    /// Service name.
    pub service_name: String,
    /// Service version.
    pub service_version: String,
    /// Whether to use the standard output instead of OTLP exporters.
    pub stdout_exporter: bool,
    /// If the batch log configuration is configured, batch reporting of
    /// logs will be enabled.
    pub batch_log_config: Option<BatchExportConfig>,
    /// If the batch trace configuration is configured, batch reporting of
    /// spans will be enabled.
    pub batch_trace_config: Option<BatchExportConfig>,
}

/// The resource attributes that a configuration contributes: the service
/// name under the key `service.name` when it is not empty, then the service
/// version under `service.version` when it is not empty.
pub open spec fn resource_pairs(name: Seq<char>, version: Seq<char>) -> Seq<(Seq<char>, Seq<char>)> {
    let named: Seq<(Seq<char>, Seq<char>)> = if name.len() > 0 {
        seq![("service.name"@, name)]
    } else {
        Seq::empty()
    };
    let versioned: Seq<(Seq<char>, Seq<char>)> = if version.len() > 0 {
        seq![("service.version"@, version)]
    } else {
        Seq::empty()
    };
    named + versioned
}

impl InitConfig {
    /// Create a new InitConfig: empty service name and version, standard
    /// output as the exporter, and no batch reporting.
    pub fn new() -> (r: Self)
        ensures
            r.service_name@ == Seq::<char>::empty(),
            r.service_version@ == Seq::<char>::empty(),
            r.stdout_exporter == true,
            r.batch_log_config is None,
            r.batch_trace_config is None,
    {
        InitConfig {
            service_name: String::new(),
            service_version: String::new(),
            stdout_exporter: true,
            batch_log_config: None,
            batch_trace_config: None,
        }
    }

    /// Replaces the service name.
    pub fn with_service_name(self, service_name: String) -> (r: Self)
        ensures
            r.service_name == service_name,
            r.service_version == self.service_version,
            r.stdout_exporter == self.stdout_exporter,
            r.batch_log_config == self.batch_log_config,
            r.batch_trace_config == self.batch_trace_config,
    {
        InitConfig { service_name, ..self }
    }

    /// Replaces the service version.
    pub fn with_service_version(self, service_version: String) -> (r: Self)
        ensures
            r.service_name == self.service_name,
            r.service_version == service_version,
            r.stdout_exporter == self.stdout_exporter,
            r.batch_log_config == self.batch_log_config,
            r.batch_trace_config == self.batch_trace_config,
    {
        InitConfig { service_version, ..self }
    }

    /// Replaces the exporter choice.
    pub fn with_stdout_exporter(self, stdout_exporter: bool) -> (r: Self)
        ensures
            r.service_name == self.service_name,
            r.service_version == self.service_version,
            r.stdout_exporter == stdout_exporter,
            r.batch_log_config == self.batch_log_config,
            r.batch_trace_config == self.batch_trace_config,
    {
        InitConfig { stdout_exporter, ..self }
    }

    /// Replaces the batch log configuration.
    pub fn with_batch_log_config(self, batch_log_config: Option<BatchExportConfig>) -> (r: Self)
        ensures
            r.service_name == self.service_name,
            r.service_version == self.service_version,
            r.stdout_exporter == self.stdout_exporter,
            r.batch_log_config == batch_log_config,
            r.batch_trace_config == self.batch_trace_config,
    {
        InitConfig { batch_log_config, ..self }
    }

    /// Replaces the batch trace configuration.
    pub fn with_batch_trace_config(self, batch_trace_config: Option<BatchExportConfig>) -> (r: Self)
        ensures
            r.service_name == self.service_name,
            r.service_version == self.service_version,
            r.stdout_exporter == self.stdout_exporter,
            r.batch_log_config == self.batch_log_config,
            r.batch_trace_config == batch_trace_config,
    {
        InitConfig { batch_trace_config, ..self }
    }

    /// The resource attributes this configuration contributes, as key-value
    /// pairs: exactly the non-empty ones of service name and version, under
    /// their conventional keys.
    pub fn resource_key_values(&self) -> (r: Vec<(String, String)>)
        ensures
            r@.map_values(|p: (String, String)| (p.0@, p.1@)) == resource_pairs(
                self.service_name@,
                self.service_version@,
            ),
    {
        let mut r: Vec<(String, String)> = Vec::new();
        if !self.service_name.as_str().is_empty() {
            r.push(("service.name".to_owned(), self.service_name.clone()));
        }
        if !self.service_version.as_str().is_empty() {
            r.push(("service.version".to_owned(), self.service_version.clone()));
        }
        proof {
            assert(r@.map_values(|p: (String, String)| (p.0@, p.1@)) =~= resource_pairs(
                self.service_name@,
                self.service_version@,
            ));
        }
        r
    }
}

} // verus!
