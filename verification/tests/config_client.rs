//! Tests for the configuration and the client builder.

use deepseek_rust::{
    ChatBuilder, DeepSeekClient, DeepSeekConfig, DeepSeekError, Model, DEFAULT_BASE_URL,
    DEFAULT_MAX_RETRIES, DEFAULT_TIMEOUT_SECS,
};

#[test]
fn test_config_new() {
    let config = DeepSeekConfig::new("test-key".to_string());
    assert_eq!(config.api_key.expose_secret(), "test-key");
    assert_eq!(config.base_url, DEFAULT_BASE_URL);
    assert_eq!(config.timeout_secs, DEFAULT_TIMEOUT_SECS);
    assert_eq!(config.max_retries, DEFAULT_MAX_RETRIES);
}

#[test]
fn test_config_builder() {
    let config = DeepSeekConfig::new("test-key".to_string())
        .with_base_url("https://custom.api.com".to_string())
        .with_timeout(60)
        .with_max_retries(5)
        .with_proxy("http://proxy.example.com".to_string())
        .with_validate_certs(false);

    assert_eq!(config.base_url, "https://custom.api.com");
    assert_eq!(config.timeout_secs, 60);
    assert_eq!(config.max_retries, 5);
    assert_eq!(config.proxy, Some("http://proxy.example.com".to_string()));
    assert!(!config.validate_certs);
}

#[test]
fn test_config_validation() {
    // Valid config
    let valid_config = DeepSeekConfig::new("test-key".to_string());
    assert!(valid_config.validate().is_ok());

    // Empty API key
    let empty_key_config = DeepSeekConfig::new(String::new());
    assert!(empty_key_config.validate().is_err());

    // Invalid URL
    let invalid_url_config =
        DeepSeekConfig::new("test-key".to_string()).with_base_url("not-a-url".to_string());
    assert!(invalid_url_config.validate().is_err());

    // Zero timeout
    let zero_timeout_config = DeepSeekConfig::new("test-key".to_string()).with_timeout(0);
    assert!(zero_timeout_config.validate().is_err());
}

#[test]
fn config_validation_messages_in_order() {
    match DeepSeekConfig::new("   ".to_string()).validate().unwrap_err() {
        DeepSeekError::ConfigError(msg) => assert_eq!(msg, "API key cannot be empty"),
        _ => panic!("expected ConfigError"),
    }
    match DeepSeekConfig::new("k".to_string())
        .with_base_url(" ".to_string())
        .validate()
        .unwrap_err()
    {
        DeepSeekError::ConfigError(msg) => assert_eq!(msg, "Base URL cannot be empty"),
        _ => panic!("expected ConfigError"),
    }
    match DeepSeekConfig::new("k".to_string())
        .with_base_url("ftp://x".to_string())
        .validate()
        .unwrap_err()
    {
        DeepSeekError::ConfigError(msg) => {
            assert_eq!(msg, "Base URL must start with http:// or https://")
        }
        _ => panic!("expected ConfigError"),
    }
    match DeepSeekConfig::new("k".to_string())
        .with_timeout(0)
        .validate()
        .unwrap_err()
    {
        DeepSeekError::ConfigError(msg) => assert_eq!(msg, "Timeout must be greater than 0"),
        _ => panic!("expected ConfigError"),
    }
}

// The secret key leaves its wrapper only through the header value.
#[test]
fn auth_header_carries_bearer_key() {
    let config = DeepSeekConfig::new("test-api-key".to_string());
    assert_eq!(config.auth_header_value(), "Bearer test-api-key");
    assert_eq!(
        config.completions_url(),
        "https://api.deepseek.com/chat/completions"
    );
}

// Debug output never shows the key text.
#[test]
fn debug_output_redacts_key() {
    let config = DeepSeekConfig::new("super-secret-key".to_string());
    let shown = format!("{:?}", config);
    assert!(!shown.contains("super-secret-key"));
}

#[test]
fn client_requires_valid_config() {
    assert!(DeepSeekClient::new(DeepSeekConfig::new("test-key".to_string())).is_ok());
    assert!(DeepSeekClient::new(DeepSeekConfig::new(String::new())).is_err());
}

#[test]
fn test_builder_pattern_chaining() {
    let client = DeepSeekClient::new(DeepSeekConfig::new("test-key".to_string())).unwrap();
    let builder = client
        .chat()
        .add_system_message("System".to_string())
        .add_user_message("User".to_string())
        .add_assistant_message("Assistant".to_string())
        .with_model(Model::Chat)
        .with_max_tokens(100);

    assert_eq!(builder.messages.len(), 3);
    assert_eq!(builder.model, Model::Chat);
    assert_eq!(builder.max_tokens, Some(100));
}

#[test]
fn builder_validates_temperature_immediately() {
    let builder = ChatBuilder::new().add_user_message("Hello".to_string());
    let result = builder.with_temperature(3000);
    match result.unwrap_err() {
        DeepSeekError::InvalidParameter(msg) => {
            assert!(msg.contains("Temperature must be between 0.0 and 2.0"));
        }
        _ => panic!("expected InvalidParameter"),
    }
    let builder = ChatBuilder::new().add_user_message("Hello".to_string());
    let builder = builder.with_temperature(500).unwrap();
    assert_eq!(builder.temperature.unwrap().value(), 500);
}

// The builder snapshot carries messages in order and stays reusable.
#[test]
fn builder_snapshot_preserves_order() {
    let builder = ChatBuilder::new()
        .add_user_message("My name is Alice".to_string())
        .add_assistant_message("Nice to meet you, Alice!".to_string())
        .add_user_message("What's my name?".to_string());
    let request = builder.build();
    assert_eq!(request.messages.len(), 3);
    assert_eq!(request.messages[0].content, "My name is Alice");
    assert_eq!(request.messages[1].content, "Nice to meet you, Alice!");
    assert_eq!(request.messages[2].content, "What's my name?");
    assert!(request.validate().is_ok());
    // The builder keeps its state after a snapshot.
    assert_eq!(builder.messages.len(), 3);
    let second = builder.add_user_message("Another turn".to_string());
    assert_eq!(second.build().messages.len(), 4);
}

// Blankness agrees with str::trim: vertical tab, form feed and Unicode
// whitespace all count as blank; real content among whitespace does not.
#[test]
fn blank_detection_matches_trim() {
    let vt_key = DeepSeekConfig::new("\u{000B}".to_string());
    match vt_key.validate().unwrap_err() {
        DeepSeekError::ConfigError(msg) => assert_eq!(msg, "API key cannot be empty"),
        _ => panic!("expected ConfigError"),
    }
    let ff_key = DeepSeekConfig::new("\u{000C}".to_string());
    assert!(ff_key.validate().is_err());
    let unicode_key = DeepSeekConfig::new("\u{00A0}\u{2003}\u{3000}".to_string());
    assert!(unicode_key.validate().is_err());
    let blank_url = DeepSeekConfig::new("k".to_string()).with_base_url("\u{000B} ".to_string());
    match blank_url.validate().unwrap_err() {
        DeepSeekError::ConfigError(msg) => assert_eq!(msg, "Base URL cannot be empty"),
        _ => panic!("expected ConfigError"),
    }
    let padded_key = DeepSeekConfig::new(" x ".to_string());
    assert!(padded_key.validate().is_ok());
}

// Every optional parameter has a fluent setter whose value flows into the
// snapshot unchanged.
#[test]
fn builder_optional_setters_flow_into_snapshot() {
    let builder = ChatBuilder::new()
        .add_user_message("Hello".to_string())
        .with_top_p(900)
        .with_frequency_penalty(500)
        .with_presence_penalty(-300)
        .with_stop(vec!["END".to_string(), "STOP".to_string()])
        .with_stream(false)
        .with_n(2)
        .with_user("someone".to_string());
    let request = builder.build();
    assert_eq!(request.top_p, Some(900));
    assert_eq!(request.frequency_penalty, Some(500));
    assert_eq!(request.presence_penalty, Some(-300));
    assert_eq!(
        request.stop,
        Some(vec!["END".to_string(), "STOP".to_string()])
    );
    assert_eq!(request.stream, Some(false));
    assert_eq!(request.n, Some(2));
    assert_eq!(request.user.as_deref(), Some("someone"));
    assert!(request.validate().is_ok());
}
