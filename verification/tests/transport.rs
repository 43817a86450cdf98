//! Tests for outcome classification, the retry policy, and the response
//! accessors it returns.

use deepseek_rust::models::response::{Choice, ResponseMessage, Usage};
use deepseek_rust::transport::{backoff_ms, classify_outcome};
use deepseek_rust::{AttemptOutcome, ChatCompletionResponse, DeepSeekError, RetryPolicy, RetryStep};

fn success_body() -> String {
    "{\"id\":\"chatcmpl-123\",\"object\":\"chat.completion\",\"created\":1677652288,\
     \"model\":\"deepseek-chat\",\"choices\":[{\"index\":0,\"message\":{\"role\":\"assistant\",\
     \"content\":\"Hello! How can I help you today?\"},\"finish_reason\":\"stop\"}],\
     \"usage\":{\"prompt_tokens\":10,\"completion_tokens\":8,\"total_tokens\":18}}"
        .to_string()
}

fn error_body(message: &str) -> String {
    format!(
        "{{\"error\":{{\"message\":\"{}\",\"type\":\"invalid_request_error\",\
         \"code\":\"invalid_api_key\"}}}}",
        message
    )
}

#[test]
fn success_outcome_classifies_as_response() {
    let outcome = AttemptOutcome::HttpResponse {
        status: 200,
        body: success_body(),
    };
    let response = classify_outcome(&outcome).expect("2xx with a success body is terminal success");
    assert_eq!(response.choices.len(), 1);
    assert_eq!(
        response.choices[0].message.content.as_deref(),
        Some("Hello! How can I help you today?")
    );
    assert_eq!(response.usage.as_ref().unwrap().total_tokens, 18);
}

#[test]
fn empty_success_body_is_terminal() {
    let outcome = AttemptOutcome::HttpResponse {
        status: 200,
        body: String::new(),
    };
    match classify_outcome(&outcome).unwrap_err() {
        DeepSeekError::EmptyResponse => {}
        other => panic!("expected EmptyResponse, got {:?}", other),
    }
    // A 2xx body that is JSON but not the success shape is also terminal.
    let outcome = AttemptOutcome::HttpResponse {
        status: 204,
        body: "{\"unexpected\":true}".to_string(),
    };
    assert!(matches!(
        classify_outcome(&outcome),
        Err(DeepSeekError::EmptyResponse)
    ));
}

#[test]
fn rate_limit_and_server_errors_are_retryable() {
    let too_many = AttemptOutcome::HttpResponse {
        status: 429,
        body: error_body("Rate limit exceeded"),
    };
    let e = classify_outcome(&too_many).unwrap_err();
    assert!(matches!(e, DeepSeekError::RateLimitExceeded));
    assert!(e.is_retryable());
    assert!(e.is_rate_limit());

    let server = AttemptOutcome::HttpResponse {
        status: 500,
        body: "Internal Server Error".to_string(),
    };
    let e = classify_outcome(&server).unwrap_err();
    match &e {
        DeepSeekError::HttpError(msg) => assert_eq!(msg, "server error, status 500"),
        other => panic!("expected HttpError, got {:?}", other),
    }
    assert!(e.is_retryable());

    let reset = AttemptOutcome::TransportFailure("connection reset".to_string());
    assert!(classify_outcome(&reset).unwrap_err().is_retryable());

    let late = AttemptOutcome::TimedOut(30);
    match classify_outcome(&late).unwrap_err() {
        DeepSeekError::TimeoutError(secs) => assert_eq!(secs, 30),
        other => panic!("expected TimeoutError, got {:?}", other),
    }
}

// A 401 with an error body is a terminal API-reported error; no retry.
#[test]
fn auth_error_is_terminal_with_status() {
    let outcome = AttemptOutcome::HttpResponse {
        status: 401,
        body: error_body("Invalid API key"),
    };
    let e = classify_outcome(&outcome).unwrap_err();
    match &e {
        DeepSeekError::ApiError { status, message } => {
            assert_eq!(*status, 401);
            assert_eq!(message, "Invalid API key");
        }
        other => panic!("expected ApiError, got {:?}", other),
    }
    assert!(e.is_auth_error());
    assert!(!e.is_retryable());

    // No retry is attempted: one outcome resolves terminally in one attempt.
    let policy = RetryPolicy { max_retries: 3 };
    let outcomes = vec![outcome];
    let (result, attempts) = policy.resolve_with_outcomes(&outcomes).unwrap();
    assert_eq!(attempts, 1);
    assert!(result.unwrap_err().is_auth_error());
}

// A non-2xx body that is not the error shape falls back to the raw text.
#[test]
fn unparseable_error_body_keeps_raw_text() {
    let outcome = AttemptOutcome::HttpResponse {
        status: 404,
        body: "gone".to_string(),
    };
    match classify_outcome(&outcome).unwrap_err() {
        DeepSeekError::ApiError { status, message } => {
            assert_eq!(status, 404);
            assert_eq!(message, "gone");
        }
        other => panic!("expected ApiError, got {:?}", other),
    }
}

// Server returns 500 on attempt one and success on attempt two: with budget
// for one retry the final result is success after exactly two attempts.
#[test]
fn transient_server_error_is_retried_once() {
    let policy = RetryPolicy { max_retries: 1 };
    let outcomes = vec![
        AttemptOutcome::HttpResponse {
            status: 500,
            body: "Internal Server Error".to_string(),
        },
        AttemptOutcome::HttpResponse {
            status: 200,
            body: success_body(),
        },
    ];
    let (result, attempts) = policy.resolve_with_outcomes(&outcomes).unwrap();
    assert_eq!(attempts, 2);
    let response = result.expect("second attempt succeeds");
    assert!(response.choices[0].message.content.is_some());
}

// Repeated 429 beyond the budget: terminal rate-limit error after exactly
// max_retries + 1 attempts.
#[test]
fn rate_limit_exhausts_budget() {
    let policy = RetryPolicy { max_retries: 2 };
    let outcomes = vec![
        AttemptOutcome::HttpResponse {
            status: 429,
            body: error_body("Rate limit exceeded"),
        },
        AttemptOutcome::HttpResponse {
            status: 429,
            body: error_body("Rate limit exceeded"),
        },
        AttemptOutcome::HttpResponse {
            status: 429,
            body: error_body("Rate limit exceeded"),
        },
        AttemptOutcome::HttpResponse {
            status: 429,
            body: error_body("Rate limit exceeded"),
        },
    ];
    let (result, attempts) = policy.resolve_with_outcomes(&outcomes).unwrap();
    assert_eq!(attempts, policy.max_retries as usize + 1);
    let e = result.unwrap_err();
    assert!(e.is_rate_limit());
}

// A validation failure never reaches the transport, so the step machinery
// sees only dispatched outcomes; an invalid request fails before any.
#[test]
fn step_retries_within_budget_only() {
    let policy = RetryPolicy { max_retries: 1 };
    let outcome = AttemptOutcome::TimedOut(30);
    match policy.step(0, &outcome) {
        RetryStep::RetryAfter { delay_ms, error } => {
            assert_eq!(delay_ms, 500);
            assert!(matches!(error, DeepSeekError::TimeoutError(30)));
        }
        other => panic!("expected RetryAfter, got {:?}", other),
    }
    match policy.step(1, &outcome) {
        RetryStep::Fail(error) => assert!(matches!(error, DeepSeekError::TimeoutError(30))),
        other => panic!("expected Fail, got {:?}", other),
    }
}

#[test]
fn backoff_doubles_and_caps() {
    assert_eq!(backoff_ms(0), 500);
    assert_eq!(backoff_ms(1), 1000);
    assert_eq!(backoff_ms(2), 2000);
    assert_eq!(backoff_ms(6), 32000);
    assert_eq!(backoff_ms(7), 60000);
    assert_eq!(backoff_ms(20), 60000);
}

#[test]
fn test_response_helpers() {
    let response = ChatCompletionResponse {
        id: "test-id".to_string(),
        object: "chat.completion".to_string(),
        created: 1234567890,
        model: "deepseek-chat".to_string(),
        choices: vec![Choice {
            index: 0,
            message: ResponseMessage {
                role: "assistant".to_string(),
                content: Some("Hello!".to_string()),
                reasoning_content: Some("Reasoning here".to_string()),
                function_call: None,
                tool_calls: None,
            },
            finish_reason: Some("stop".to_string()),
            logprobs: None,
        }],
        usage: Some(Usage {
            prompt_tokens: 10,
            completion_tokens: 5,
            total_tokens: 15,
            reasoning_tokens: Some(3),
            prompt_cache_hit_tokens: None,
            prompt_cache_miss_tokens: None,
        }),
        system_fingerprint: None,
    };

    assert_eq!(response.get_content(), Some("Hello!"));
    assert_eq!(response.get_reasoning(), Some("Reasoning here"));
    assert!(response.is_finished());
    assert_eq!(response.total_tokens(), Some(15));
}

#[test]
fn test_message_helpers() {
    let message = ResponseMessage {
        role: "assistant".to_string(),
        content: Some("Hello world!".to_string()),
        reasoning_content: Some("This is reasoning".to_string()),
        function_call: None,
        tool_calls: None,
    };

    assert!(message.has_content());
    assert!(message.has_reasoning());
    assert_eq!(message.total_length(), 29); // "Hello world!" (12) + "This is reasoning" (17)
}

// Usage of 18 total tokens surfaces through total_tokens; the cost estimate
// is in millionths of a unit: 100 per prompt token, 200 per completion token.
#[test]
fn test_usage_cost_estimation() {
    let usage = Usage {
        prompt_tokens: 100,
        completion_tokens: 50,
        total_tokens: 150,
        reasoning_tokens: None,
        prompt_cache_hit_tokens: None,
        prompt_cache_miss_tokens: None,
    };

    let cost = usage.estimate_cost();
    assert_eq!(cost, 20_000); // 100 * 100 + 50 * 200, i.e. 0.02 units
}

#[test]
fn usage_total_surfaces_from_body() {
    let outcome = AttemptOutcome::HttpResponse {
        status: 200,
        body: success_body(),
    };
    let response = classify_outcome(&outcome).unwrap();
    assert_eq!(response.total_tokens(), Some(18));
}
