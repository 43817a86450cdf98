//! Tests for the request-side value types and the library constants.

use deepseek_rust::{ChatCompletionRequest, DeepSeekError, Message, Model, Role, Temperature};
use deepseek_rust::{DeltaContent, StreamChoice, StreamChunk};
use deepseek_rust::{NAME, VERSION};

#[test]
fn test_version() {
    assert!(!VERSION.is_empty());
    assert_eq!(VERSION, "0.1.0");
}

#[test]
fn test_library_name() {
    assert_eq!(NAME, "deepseek-rust");
}

#[test]
fn test_model_string_conversion() {
    assert_eq!(Model::Chat.as_str(), "deepseek-chat");
    assert_eq!(Model::Reasoner.as_str(), "deepseek-reasoner");
    assert_eq!(Model::Coder.as_str(), "deepseek-coder");
}

#[test]
fn test_model_supports_reasoning() {
    assert!(!Model::Chat.supports_reasoning());
    assert!(Model::Reasoner.supports_reasoning());
    assert!(!Model::Coder.supports_reasoning());
}

#[test]
fn test_message_creation() {
    let system_msg = Message::system("System prompt".to_string());
    assert_eq!(system_msg.role, Role::System);
    assert_eq!(system_msg.content, "System prompt");

    let user_msg = Message::user("User input".to_string());
    assert_eq!(user_msg.role, Role::User);
    assert_eq!(user_msg.content, "User input");

    let assistant_msg = Message::assistant("Assistant response".to_string());
    assert_eq!(assistant_msg.role, Role::Assistant);
    assert_eq!(assistant_msg.content, "Assistant response");
}

#[test]
fn test_message_len_and_is_empty() {
    let msg = Message::user("Hello".to_string());
    assert_eq!(msg.len(), 5);
    assert!(!msg.is_empty());
    let empty = Message::user(String::new());
    assert_eq!(empty.len(), 0);
    assert!(empty.is_empty());
}

// Temperatures are carried in thousandths: 500 stands for 0.5.
#[test]
fn test_temperature_validation() {
    assert!(Temperature::new(500).is_ok());
    assert!(Temperature::new(0).is_ok());
    assert!(Temperature::new(2000).is_ok());
    assert!(Temperature::new(-100).is_err());
    assert!(Temperature::new(2100).is_err());
}

#[test]
fn test_temperature_presets() {
    assert_eq!(Temperature::very_low().value(), 100);
    assert_eq!(Temperature::low().value(), 300);
    assert_eq!(Temperature::medium().value(), 700);
    assert_eq!(Temperature::high().value(), 1000);
    assert_eq!(Temperature::very_high().value(), 1500);
}

#[test]
fn test_temperature_error_message() {
    let err = Temperature::new(3000).unwrap_err();
    match err {
        DeepSeekError::InvalidParameter(msg) => {
            assert_eq!(msg, "Temperature must be between 0.0 and 2.0, got 3");
        }
        _ => panic!("expected InvalidParameter"),
    }
    let err = Temperature::new(-2500).unwrap_err();
    match err {
        DeepSeekError::InvalidParameter(msg) => {
            assert_eq!(msg, "Temperature must be between 0.0 and 2.0, got -2.5");
        }
        _ => panic!("expected InvalidParameter"),
    }
}

#[test]
fn test_request_validation() {
    // Empty messages
    let empty_request = ChatCompletionRequest::new(vec![]);
    assert!(empty_request.validate().is_err());

    // Valid request
    let valid_request = ChatCompletionRequest::new(vec![Message::user("Hello".to_string())]);
    assert!(valid_request.validate().is_ok());

    // Invalid top_p (1.5 in thousandths)
    let invalid_top_p =
        ChatCompletionRequest::new(vec![Message::user("Hi".to_string())]).with_top_p(1500);
    assert!(invalid_top_p.validate().is_err());

    // Invalid frequency_penalty (3.0 in thousandths)
    let invalid_freq = ChatCompletionRequest::new(vec![Message::user("Hi".to_string())])
        .with_frequency_penalty(3000);
    assert!(invalid_freq.validate().is_err());
}

// A request with one user message and no temperature validates.
#[test]
fn validate_accepts_single_user_message() {
    let request = ChatCompletionRequest::from_user_message("Hello".to_string());
    assert!(request.temperature.is_none());
    assert!(request.validate().is_ok());
}

// A request with zero messages fails with the exact first-failure message.
#[test]
fn validate_rejects_empty_transcript() {
    let request = ChatCompletionRequest::new(vec![]);
    match request.validate().unwrap_err() {
        DeepSeekError::InvalidParameter(msg) => {
            assert_eq!(msg, "At least one message is required");
        }
        _ => panic!("expected InvalidParameter"),
    }
}

// The first empty message's index is named in the error.
#[test]
fn validate_names_first_empty_message() {
    let request = ChatCompletionRequest::new(vec![
        Message::user("Hi".to_string()),
        Message::assistant(String::new()),
        Message::user(String::new()),
    ]);
    match request.validate().unwrap_err() {
        DeepSeekError::InvalidParameter(msg) => {
            assert_eq!(msg, "Message at index 1 is empty");
        }
        _ => panic!("expected InvalidParameter"),
    }
}

// Validation reports the first failing condition with its value rendered in
// fixed-point decimal.
#[test]
fn validate_reports_ranges_in_order() {
    let base = || ChatCompletionRequest::new(vec![Message::user("Hi".to_string())]);
    match base().with_top_p(1500).validate().unwrap_err() {
        DeepSeekError::InvalidParameter(msg) => {
            assert_eq!(msg, "top_p must be between 0.0 and 1.0, got 1.5");
        }
        _ => panic!("expected InvalidParameter"),
    }
    match base().with_presence_penalty(-2500).validate().unwrap_err() {
        DeepSeekError::InvalidParameter(msg) => {
            assert_eq!(msg, "presence_penalty must be between -2.0 and 2.0, got -2.5");
        }
        _ => panic!("expected InvalidParameter"),
    }
    match base().with_n(11).validate().unwrap_err() {
        DeepSeekError::InvalidParameter(msg) => {
            assert_eq!(msg, "n must be between 1 and 10, got 11");
        }
        _ => panic!("expected InvalidParameter"),
    }
    // top_p is reported before the penalties when both are out of range.
    match base()
        .with_top_p(2000)
        .with_frequency_penalty(9000)
        .validate()
        .unwrap_err()
    {
        DeepSeekError::InvalidParameter(msg) => {
            assert_eq!(msg, "top_p must be between 0.0 and 1.0, got 2");
        }
        _ => panic!("expected InvalidParameter"),
    }
}

#[test]
fn request_builders_set_fields() {
    let request = ChatCompletionRequest::new(vec![Message::user("Hello".to_string())])
        .with_model(Model::Coder)
        .with_temperature(Temperature::medium())
        .with_max_tokens(100)
        .with_stream(true)
        .with_n(2)
        .with_user("someone".to_string())
        .with_stop(vec!["END".to_string()]);
    assert_eq!(request.model, Model::Coder);
    assert_eq!(request.temperature.unwrap().value(), 700);
    assert_eq!(request.max_tokens, Some(100));
    assert_eq!(request.stream, Some(true));
    assert_eq!(request.n, Some(2));
    assert_eq!(request.user.as_deref(), Some("someone"));
    assert_eq!(request.stop, Some(vec!["END".to_string()]));
    assert!(request.validate().is_ok());
}

// Streaming chunks carry ordered deltas whose content fragments the caller
// concatenates in arrival order.
#[test]
fn stream_chunks_concatenate_in_order() {
    let chunks = vec![
        StreamChunk {
            id: "chunk-1".to_string(),
            object: "chat.completion.chunk".to_string(),
            created: 1,
            model: "deepseek-chat".to_string(),
            choices: vec![StreamChoice {
                index: 0,
                delta: DeltaContent {
                    role: Some("assistant".to_string()),
                    content: Some("Hello".to_string()),
                    reasoning_content: None,
                },
                finish_reason: None,
            }],
        },
        StreamChunk {
            id: "chunk-2".to_string(),
            object: "chat.completion.chunk".to_string(),
            created: 2,
            model: "deepseek-chat".to_string(),
            choices: vec![StreamChoice {
                index: 0,
                delta: DeltaContent {
                    role: None,
                    content: Some(" world".to_string()),
                    reasoning_content: None,
                },
                finish_reason: Some("stop".to_string()),
            }],
        },
    ];
    let mut full = String::new();
    for chunk in &chunks {
        for choice in &chunk.choices {
            if let Some(fragment) = &choice.delta.content {
                full.push_str(fragment);
            }
        }
    }
    assert_eq!(full, "Hello world");
    assert_eq!(chunks[0].choices[0].delta.role.as_deref(), Some("assistant"));
    assert_eq!(chunks[1].choices[0].finish_reason.as_deref(), Some("stop"));
}
