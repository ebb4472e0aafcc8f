use myotel::BatchExportConfig;
use myotel::InitConfig;

#[test]
fn init_config_defaults() {
    let config = InitConfig::new();
    assert_eq!(config.service_name, "");
    assert_eq!(config.service_version, "");
    assert!(config.stdout_exporter);
    assert!(config.batch_log_config.is_none());
    assert!(config.batch_trace_config.is_none());
}

#[test]
fn init_config_setters_replace_one_field_each() {
    let config = InitConfig::new()
        .with_service_name("svc".to_string())
        .with_service_version("1.2.3".to_string())
        .with_stdout_exporter(false)
        .with_batch_log_config(Some(BatchExportConfig::new()));
    assert_eq!(config.service_name, "svc");
    assert_eq!(config.service_version, "1.2.3");
    assert!(!config.stdout_exporter);
    assert!(config.batch_log_config.is_some());
    assert!(config.batch_trace_config.is_none());
}

#[test]
fn batch_config_defaults_match_the_conventional_values() {
    let batch = BatchExportConfig::new();
    assert_eq!(batch.max_queue_size, 2048);
    assert_eq!(batch.scheduled_delay_millis, 5000);
    assert_eq!(batch.max_export_batch_size, 512);
    assert_eq!(batch.max_export_timeout_millis, 30000);
}

#[test]
fn resource_key_values_lists_both_when_set() {
    let config = InitConfig::new()
        .with_service_name("svc".to_string())
        .with_service_version("0.1.0".to_string());
    let pairs = config.resource_key_values();
    assert_eq!(pairs.len(), 2);
    assert_eq!(pairs[0].0, "service.name");
    assert_eq!(pairs[0].1, "svc");
    assert_eq!(pairs[1].0, "service.version");
    assert_eq!(pairs[1].1, "0.1.0");
}

#[test]
fn resource_key_values_skips_empty_fields() {
    let unnamed = InitConfig::new().with_service_version("0.1.0".to_string());
    let pairs = unnamed.resource_key_values();
    assert_eq!(pairs.len(), 1);
    assert_eq!(pairs[0].0, "service.version");

    let bare = InitConfig::new();
    assert!(bare.resource_key_values().is_empty());
}
