use savant_core::reader_config::ReaderConfig;
use savant_core::topic::TopicPrefixSpec;
use savant_core::uri::{ReaderSocketType, WriterSocketType};
use savant_core::writer_config::WriterConfig;

#[test]
fn test_error_describe() {
    let err = ReaderConfig::new().build().unwrap_err();
    assert!(!err.describe().is_empty());
}

#[test]
fn test_reader_config_default_build_fails() {
    let config = ReaderConfig::new().build();
    assert!(config.is_err());
}

#[test]
fn test_reader_config_defaults() {
    let config = ReaderConfig::new()
        .url("sub+connect:ipc:///tmp/sock")
        .unwrap()
        .build()
        .unwrap();
    assert_eq!(config.endpoint, "ipc:///tmp/sock");
    assert_eq!(config.socket_type, ReaderSocketType::Sub);
    assert!(!config.bind);
    assert_eq!(config.receive_timeout, 1000);
    assert_eq!(config.receive_hwm, 50);
    assert_eq!(config.routing_ids_cache_size, 512);
    assert_eq!(config.linger, 100);
    assert!(config.fix_ipc_permissions.is_none());
    assert!(matches!(config.topic_prefix_spec, TopicPrefixSpec::Any));
}

#[test]
fn test_reader_config_rejects_writer_role() {
    assert!(ReaderConfig::new().url("pub+bind:tcp://h").is_err());
}

#[test]
fn test_reader_config_rejects_bad_values() {
    let b = ReaderConfig::new();
    assert!(b.with_receive_timeout(0).is_err());
    let b = ReaderConfig::new();
    assert!(b.with_receive_hwm(0).is_err());
    let b = ReaderConfig::new();
    assert!(b.with_routing_ids_cache_size(0).is_err());
    let b = ReaderConfig::new();
    assert!(b.with_linger(-1).is_err());
    let b = ReaderConfig::new();
    assert!(b.with_receive_timeout(100).is_ok());
}

#[test]
fn test_reader_config_full() {
    let config = ReaderConfig::new()
        .url("router+bind:tcp://0.0.0.0")
        .unwrap()
        .with_receive_timeout(250)
        .unwrap()
        .with_receive_hwm(7)
        .unwrap()
        .with_topic_prefix_spec(TopicPrefixSpec::prefix("cam"))
        .unwrap()
        .with_routing_ids_cache_size(16)
        .unwrap()
        .with_fix_ipc_permissions(Some(0o777))
        .unwrap()
        .with_linger(0)
        .unwrap()
        .build()
        .unwrap();
    assert_eq!(config.socket_type, ReaderSocketType::Router);
    assert!(config.bind);
    assert_eq!(config.receive_timeout, 250);
    assert_eq!(config.receive_hwm, 7);
    assert_eq!(config.routing_ids_cache_size, 16);
    assert_eq!(config.fix_ipc_permissions, Some(0o777));
    assert_eq!(config.linger, 0);
}

#[test]
fn test_writer_config_default_build_fails() {
    assert!(WriterConfig::new().build().is_err());
}

#[test]
fn test_writer_config_defaults() {
    let config = WriterConfig::new()
        .url("req+connect:ipc:///tmp/sock")
        .unwrap()
        .build()
        .unwrap();
    assert_eq!(config.endpoint, "ipc:///tmp/sock");
    assert_eq!(config.socket_type, WriterSocketType::Req);
    assert!(!config.bind);
    assert_eq!(config.send_timeout, 5000);
    assert_eq!(config.receive_timeout, 5000);
    assert_eq!(config.send_hwm, 50);
    assert_eq!(config.send_retries, 3);
    assert_eq!(config.receive_retries, 3);
    assert_eq!(config.linger, 100);
    assert!(config.source.is_none());
}

#[test]
fn test_writer_config_takes_source_from_uri() {
    let config = WriterConfig::new()
        .url("dealer+connect:tcp://host:camA")
        .unwrap()
        .build()
        .unwrap();
    assert_eq!(config.endpoint, "tcp://host");
    assert_eq!(config.socket_type, WriterSocketType::Dealer);
    assert_eq!(config.source, Some("camA".to_string()));
}

#[test]
fn test_writer_config_rejects_reader_role() {
    assert!(WriterConfig::new().url("sub+connect:tcp://h").is_err());
}

#[test]
fn test_writer_config_rejects_bad_values() {
    assert!(WriterConfig::new().with_send_timeout(0).is_err());
    assert!(WriterConfig::new().with_receive_timeout(-5).is_err());
    assert!(WriterConfig::new().with_send_hwm(0).is_err());
    assert!(WriterConfig::new().with_send_retries(-1).is_err());
    assert!(WriterConfig::new().with_receive_retries(-1).is_err());
    assert!(WriterConfig::new().with_linger(-1).is_err());
    assert!(WriterConfig::new().with_send_retries(0).is_ok());
    assert!(WriterConfig::new().with_receive_retries(0).is_ok());
}
