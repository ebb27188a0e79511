use caxton::bounds::{ChannelCapacity, MessageTimeoutMs, RetryDelayMs};
use caxton::config::{ConfigError, RouterConfig};

#[test]
fn test_development_config_is_valid() {
    let config = RouterConfig::development();
    assert!(config.validate().is_ok());
}

#[test]
fn test_production_config_is_valid() {
    let config = RouterConfig::production();
    assert!(config.validate().is_ok());
}

#[test]
fn test_testing_config_is_valid() {
    let config = RouterConfig::testing();
    assert!(config.validate().is_ok());
}

#[test]
fn test_config_builder() {
    let config = RouterConfig::builder()
        .inbound_queue_size(ChannelCapacity::try_new(5000).unwrap())
        .message_timeout_ms(MessageTimeoutMs::try_new(15000).unwrap())
        .enable_persistence(false)
        .build()
        .unwrap();

    assert_eq!(config.inbound_queue_size.as_usize(), 5000);
    assert_eq!(config.message_timeout_ms.as_u64(), 15000);
    assert!(!config.enable_persistence);
}

#[test]
fn test_config_validation_errors() {
    let invalid_config = RouterConfig::builder()
        .inbound_queue_size(ChannelCapacity::try_new(5).unwrap())
        .build();
    assert!(invalid_config.is_err());

    let invalid_config = RouterConfig::builder()
        .message_timeout_ms(MessageTimeoutMs::try_new(1000).unwrap())
        .retry_delay_ms(RetryDelayMs::try_new(2000).unwrap())
        .build();
    assert!(invalid_config.is_err());
}

#[test]
fn validation_errors_name_field_and_reason() {
    let config = RouterConfig::builder()
        .inbound_queue_size(ChannelCapacity::try_new(5).unwrap())
        .build_with_cpu_count(8);
    match config {
        Err(ConfigError::ValidationError { field, reason }) => {
            assert_eq!(field, "inbound_queue_size");
            assert_eq!(reason, "Must be at least 10");
        }
        other => panic!("unexpected result: {other:?}"),
    }
}
