//! Tests for the error taxonomy and its classifications.

use deepseek_rust::DeepSeekError;

#[test]
fn test_error_is_retryable() {
    let timeout_err = DeepSeekError::TimeoutError(30);
    assert!(timeout_err.is_retryable());

    let config_err = DeepSeekError::ConfigError("test".to_string());
    assert!(!config_err.is_retryable());

    let rate_limit_err = DeepSeekError::RateLimitExceeded;
    assert!(rate_limit_err.is_retryable());
}

#[test]
fn test_error_status_code() {
    let api_err = DeepSeekError::ApiError {
        status: 404,
        message: "Not found".to_string(),
    };
    assert_eq!(api_err.status_code(), Some(404));

    let http_err = DeepSeekError::ConfigError("test".to_string());
    assert_eq!(http_err.status_code(), None);
}

#[test]
fn test_is_auth_error() {
    let auth_err = DeepSeekError::AuthenticationError("Invalid API key".to_string());
    assert!(auth_err.is_auth_error());

    let api_401 = DeepSeekError::ApiError {
        status: 401,
        message: "Unauthorized".to_string(),
    };
    assert!(api_401.is_auth_error());

    let api_403 = DeepSeekError::ApiError {
        status: 403,
        message: "Forbidden".to_string(),
    };
    assert!(api_403.is_auth_error());

    let other_err = DeepSeekError::ConfigError("test".to_string());
    assert!(!other_err.is_auth_error());
}

#[test]
fn test_is_rate_limit() {
    let rate_err = DeepSeekError::RateLimitExceeded;
    assert!(rate_err.is_rate_limit());

    let api_429 = DeepSeekError::ApiError {
        status: 429,
        message: "Too many requests".to_string(),
    };
    assert!(api_429.is_rate_limit());

    let other_err = DeepSeekError::ConfigError("test".to_string());
    assert!(!other_err.is_rate_limit());
}

// Classification is pure: repeated calls on one error agree.
#[test]
fn classification_is_idempotent() {
    let errors = vec![
        DeepSeekError::HttpError("reset".to_string()),
        DeepSeekError::JsonError("bad".to_string()),
        DeepSeekError::ApiError {
            status: 429,
            message: "slow down".to_string(),
        },
        DeepSeekError::RateLimitExceeded,
        DeepSeekError::AuthenticationError("no".to_string()),
        DeepSeekError::TimeoutError(5),
        DeepSeekError::EmptyResponse,
        DeepSeekError::UnsupportedFeature("streams".to_string()),
        DeepSeekError::EnvVarError("unset".to_string()),
        DeepSeekError::IoError("disk".to_string()),
        DeepSeekError::InvalidParameter("n".to_string()),
        DeepSeekError::ConfigError("url".to_string()),
    ];
    for e in &errors {
        assert_eq!(e.is_retryable(), e.is_retryable());
        assert_eq!(e.is_auth_error(), e.is_auth_error());
        assert_eq!(e.is_rate_limit(), e.is_rate_limit());
        assert_eq!(e.status_code(), e.status_code());
    }
}

// Only transport failures, rate limits and timeouts are retryable.
#[test]
fn retryable_set_is_exact() {
    assert!(DeepSeekError::HttpError("x".to_string()).is_retryable());
    assert!(DeepSeekError::RateLimitExceeded.is_retryable());
    assert!(DeepSeekError::TimeoutError(1).is_retryable());
    assert!(!DeepSeekError::JsonError("x".to_string()).is_retryable());
    assert!(!DeepSeekError::ApiError {
        status: 500,
        message: "x".to_string()
    }
    .is_retryable());
    assert!(!DeepSeekError::InvalidParameter("x".to_string()).is_retryable());
    assert!(!DeepSeekError::AuthenticationError("x".to_string()).is_retryable());
    assert!(!DeepSeekError::EmptyResponse.is_retryable());
    assert!(!DeepSeekError::EnvVarError("x".to_string()).is_retryable());
    assert!(!DeepSeekError::IoError("x".to_string()).is_retryable());
    assert!(!DeepSeekError::UnsupportedFeature("x".to_string()).is_retryable());
    assert!(!DeepSeekError::ConfigError("x".to_string()).is_retryable());
}
