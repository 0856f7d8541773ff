use meeting_summarizer::LlmConfig;

#[test]
fn test_default_config_is_valid() {
    let config = LlmConfig::default();
    assert!(config.validate().is_ok());
}

#[test]
fn test_config_validation() {
    let mut config = LlmConfig::default();

    // Test empty endpoint
    config.external_endpoint = String::new();
    assert!(config.validate().is_err());

    // Test invalid URL
    config.external_endpoint = "not-a-url".to_string();
    assert!(config.validate().is_err());

    // Test valid URL
    config.external_endpoint = "http://localhost:11434".to_string();
    assert!(config.validate().is_ok());

    // Test chunk size validation
    config.chunk_size = 0;
    assert!(config.validate().is_err());

    config.chunk_size = 100_000;
    assert!(config.validate().is_err());

    config.chunk_size = 10_000;
    assert!(config.validate().is_ok());
}

#[test]
fn test_builder_pattern() {
    let config = LlmConfig::default()
        .with_chunk_size(15_000)
        .with_timeout(300)
        .with_retries(5);

    assert_eq!(config.chunk_size, 15_000);
    assert_eq!(config.timeout_seconds, 300);
    assert_eq!(config.max_retries, 5);
    assert!(config.validate().is_ok());
}

#[test]
fn test_validation_error_messages() {
    let mut config = LlmConfig::default();
    config.external_endpoint = String::new();
    assert_eq!(
        config.validate().unwrap_err(),
        "External endpoint cannot be empty"
    );
    config.external_endpoint = "ftp://example".to_string();
    assert_eq!(
        config.validate().unwrap_err(),
        "External endpoint must be a valid HTTP/HTTPS URL"
    );
    config.external_endpoint = "https://example".to_string();
    config.timeout_seconds = 4000;
    assert_eq!(config.validate().unwrap_err(), "Timeout too large (max 1 hour)");
    config.timeout_seconds = 0;
    assert_eq!(config.validate().unwrap_err(), "Timeout must be greater than 0");
    config.timeout_seconds = 60;
    config.external_model = String::new();
    assert_eq!(config.validate().unwrap_err(), "External model cannot be empty");
}

#[test]
fn test_chunk_size_boundaries() {
    let config = LlmConfig::default().with_chunk_size(50_000);
    assert!(config.validate().is_ok());
    let config = config.with_chunk_size(50_001);
    assert_eq!(
        config.validate().unwrap_err(),
        "Chunk size too large (max 50,000 characters)"
    );
    let config = config.with_chunk_size(1).with_timeout(3600);
    assert!(config.validate().is_ok());
}
