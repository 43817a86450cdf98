//! A typed client library for a conversational-completion HTTP API.
//!
//! The library builds validated request payloads, encodes them to the JSON
//! wire shape, classifies server outcomes under a bounded retry policy, and
//! parses success and error bodies into strongly-typed results. The network
//! exchange itself belongs to the embedding program, which drives the retry
//! policy with each attempt's outcome.

use vstd::prelude::*;

pub mod client;
pub mod config;
pub mod error;
pub mod fidelity;
pub mod json;
pub mod models;
pub mod parse;
pub mod text;
pub mod transport;
pub mod wire;

pub use client::ChatBuilder;
pub use client::DeepSeekClient;
pub use config::ApiKey;
pub use config::DeepSeekConfig;
pub use config::DEFAULT_BASE_URL;
pub use config::DEFAULT_MAX_RETRIES;
pub use config::DEFAULT_TIMEOUT_SECS;
pub use error::DeepSeekError;
pub use models::request::ChatCompletionRequest;
pub use models::request::Message;
pub use models::request::Model;
pub use models::request::Role;
pub use models::request::Temperature;
pub use models::response::ApiErrorDetail;
pub use models::response::ApiErrorResponse;
pub use models::response::ChatCompletionResponse;
pub use models::response::Choice;
pub use models::response::DeltaContent;
pub use models::response::FunctionCall;
pub use models::response::ResponseMessage;
pub use models::response::StreamChoice;
pub use models::response::StreamChunk;
pub use models::response::ToolCall;
pub use models::response::Usage;
pub use transport::AttemptOutcome;
pub use transport::RetryPolicy;
pub use transport::RetryStep;

verus! {

/// Library version string.
pub const VERSION: &'static str = "0.1.0";

/// Library name.
pub const NAME: &'static str = "deepseek-rust";

} // verus!
