//! The closed error taxonomy, with the retryability, authentication and
//! rate-limit classifications used by the transport layer.

use vstd::prelude::*;

verus! {

/// The closed set of failure kinds that library operations report.
///
/// Every error carries a machine-checkable kind plus human-readable detail;
/// errors are never surfaced as ad-hoc strings alone.
#[derive(Debug, Clone, PartialEq, Eq)]
pub enum DeepSeekError {
    /// A transport-level failure (connection reset, DNS, TLS), with detail text.
    HttpError(String),
    /// A body could not be parsed as the expected JSON shape, with detail text.
    JsonError(String),
    /// The API reported an error, with its HTTP status code and message.
    ApiError { status: u16, message: String },
    /// The client configuration was rejected.
    ConfigError(String),
    /// A request parameter was rejected before any network activity.
    InvalidParameter(String),
    /// The API rate limit was exceeded.
    RateLimitExceeded,
    /// Authentication failed.
    AuthenticationError(String),
    /// A required environment variable was missing or malformed.
    EnvVarError(String),
    /// An input/output failure outside the HTTP exchange itself.
    IoError(String),
    /// An attempt ran past the configured timeout, in elapsed whole seconds.
    TimeoutError(u64),
    /// A success status arrived with an empty or unusable body.
    EmptyResponse,
    /// A requested feature is not supported.
    UnsupportedFeature(String),
}

/// The mathematical value of an error: the same kinds over character
/// sequences.
pub enum DeepSeekErrorV {
    /// A transport-level failure.
    HttpError(Seq<char>),
    /// A body could not be parsed.
    JsonError(Seq<char>),
    /// An API-reported error.
    ApiError { status: u16, message: Seq<char> },
    /// A rejected configuration.
    ConfigError(Seq<char>),
    /// A rejected request parameter.
    InvalidParameter(Seq<char>),
    /// The rate limit was exceeded.
    RateLimitExceeded,
    /// Authentication failed.
    AuthenticationError(Seq<char>),
    /// A missing or malformed environment variable.
    EnvVarError(Seq<char>),
    /// An input/output failure.
    IoError(Seq<char>),
    /// A timed-out attempt, in elapsed whole seconds.
    TimeoutError(u64),
    /// An empty or unusable success body.
    EmptyResponse,
    /// An unsupported feature.
    UnsupportedFeature(Seq<char>),
}

impl View for DeepSeekError {
    type V = DeepSeekErrorV;

    open spec fn view(&self) -> DeepSeekErrorV {
        match self {
            DeepSeekError::HttpError(m) => DeepSeekErrorV::HttpError(m@),
            DeepSeekError::JsonError(m) => DeepSeekErrorV::JsonError(m@),
            DeepSeekError::ApiError { status, message } => DeepSeekErrorV::ApiError {
                status: *status,
                message: message@,
            },
            DeepSeekError::ConfigError(m) => DeepSeekErrorV::ConfigError(m@),
            DeepSeekError::InvalidParameter(m) => DeepSeekErrorV::InvalidParameter(m@),
            DeepSeekError::RateLimitExceeded => DeepSeekErrorV::RateLimitExceeded,
            DeepSeekError::AuthenticationError(m) => DeepSeekErrorV::AuthenticationError(m@),
            DeepSeekError::EnvVarError(m) => DeepSeekErrorV::EnvVarError(m@),
            DeepSeekError::IoError(m) => DeepSeekErrorV::IoError(m@),
            DeepSeekError::TimeoutError(s) => DeepSeekErrorV::TimeoutError(*s),
            DeepSeekError::EmptyResponse => DeepSeekErrorV::EmptyResponse,
            DeepSeekError::UnsupportedFeature(m) => DeepSeekErrorV::UnsupportedFeature(m@),
        }
    }
}

/// An error permits an automatic re-attempt exactly when it is a transport
/// failure, a rate-limit rejection, or a timeout.
pub open spec fn spec_is_retryable(e: DeepSeekErrorV) -> bool {
    ||| e is HttpError
    ||| e is RateLimitExceeded
    ||| e is TimeoutError
}

/// An error is an authentication failure exactly when it is the
/// authentication kind or an API-reported error with status 401 or 403.
pub open spec fn spec_is_auth_error(e: DeepSeekErrorV) -> bool {
    ||| e is AuthenticationError
    ||| (e matches DeepSeekErrorV::ApiError { status, .. } && (status == 401 || status == 403))
}

/// An error is a rate-limit signal exactly when it is the rate-limit kind or
/// an API-reported error with status 429.
pub open spec fn spec_is_rate_limit(e: DeepSeekErrorV) -> bool {
    ||| e is RateLimitExceeded
    ||| (e matches DeepSeekErrorV::ApiError { status, .. } && status == 429)
}

/// The HTTP status code, present exactly for API-reported errors.
pub open spec fn spec_status_code(e: DeepSeekErrorV) -> Option<u16> {
    match e {
        DeepSeekErrorV::ApiError { status, .. } => Some(status),
        _ => None,
    }
}

impl DeepSeekError {
    /// Whether the transport layer may re-attempt after this error.
    pub fn is_retryable(&self) -> (r: bool)
        ensures
            r == spec_is_retryable(self@),
    {
        match self {
            DeepSeekError::HttpError(_) => true,
            DeepSeekError::RateLimitExceeded => true,
            DeepSeekError::TimeoutError(_) => true,
            _ => false,
        }
    }

    /// The HTTP status code, if the API reported one.
    pub fn status_code(&self) -> (r: Option<u16>)
        ensures
            r == spec_status_code(self@),
    {
        match self {
            DeepSeekError::ApiError { status, .. } => Some(*status),
            _ => None,
        }
    }

    /// Whether this error signals an authentication failure.
    pub fn is_auth_error(&self) -> (r: bool)
        ensures
            r == spec_is_auth_error(self@),
    {
        match self {
            DeepSeekError::AuthenticationError(_) => true,
            DeepSeekError::ApiError { status, .. } => *status == 401 || *status == 403,
            _ => false,
        }
    }

    /// Whether this error signals a rate limit.
    pub fn is_rate_limit(&self) -> (r: bool)
        ensures
            r == spec_is_rate_limit(self@),
    {
        match self {
            DeepSeekError::RateLimitExceeded => true,
            DeepSeekError::ApiError { status, .. } => *status == 429,
            _ => false,
        }
    }
}

/// Classification is a pure function of the error value: errors with equal
/// values are classified identically, so repeated calls on one error yield
/// identical results.
pub proof fn lemma_classification_pure(e1: DeepSeekErrorV, e2: DeepSeekErrorV)
    requires
        e1 == e2,
    ensures
        spec_is_retryable(e1) == spec_is_retryable(e2),
        spec_is_auth_error(e1) == spec_is_auth_error(e2),
        spec_is_rate_limit(e1) == spec_is_rate_limit(e2),
        spec_status_code(e1) == spec_status_code(e2),
{
}

} // verus!
