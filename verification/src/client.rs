//! The client entry point and the fluent chat builder.
//!
//! The builder accumulates messages and sampling parameters; finalization
//! snapshots them into a request. Dispatching the request over the network
//! is the embedding program's part: it serializes with the wire encoder,
//! performs the exchange, and drives the retry policy with each attempt's
//! outcome.

use vstd::prelude::*;

use crate::config::{DeepSeekConfig, spec_config_valid};
use crate::error::DeepSeekError;
use crate::models::request::{
    ChatCompletionRequest, Message, Model, Role, Temperature, temperature_in_range,
};
use crate::text::milli_chars;
use crate::transport::RetryPolicy;

verus! {

/// Fluent accumulator for a chat completion request.
#[derive(Debug, Clone, PartialEq)]
pub struct ChatBuilder {
    /// The messages accumulated so far, in order.
    pub messages: Vec<Message>,
    /// The model to use.
    pub model: Model,
    /// Sampling temperature, in thousandths, when set.
    pub temperature: Option<Temperature>,
    /// Maximum number of generated tokens, when set.
    pub max_tokens: Option<u32>,
    /// Nucleus-sampling parameter in thousandths, when set.
    pub top_p: Option<i32>,
    /// Frequency penalty in thousandths, when set.
    pub frequency_penalty: Option<i32>,
    /// Presence penalty in thousandths, when set.
    pub presence_penalty: Option<i32>,
    /// Stop sequences, when set.
    pub stop: Option<Vec<String>>,
    /// Streaming flag, when set.
    pub stream: Option<bool>,
    /// Completion count, when set.
    pub n: Option<u32>,
    /// User tag, when set.
    pub user: Option<String>,
}

impl ChatBuilder {
    /// A fresh builder: no messages, the default model, and every parameter
    /// unset.
    pub fn new() -> (r: Self)
        ensures
            r.messages@.len() == 0,
            r.model == Model::Chat,
            r.temperature is None,
            r.max_tokens is None,
            r.top_p is None,
            r.frequency_penalty is None,
            r.presence_penalty is None,
            r.stop is None,
            r.stream is None,
            r.n is None,
            r.user is None,
    {
        ChatBuilder {
            messages: Vec::new(),
            model: Model::Chat,
            temperature: None,
            max_tokens: None,
            top_p: None,
            frequency_penalty: None,
            presence_penalty: None,
            stop: None,
            stream: None,
            n: None,
            user: None,
        }
    }

    /// Appends a system message; everything else is unchanged.
    pub fn add_system_message(self, content: String) -> (r: Self)
        ensures
            r == (ChatBuilder { messages: r.messages, ..self }),
            r.messages@.len() == self.messages@.len() + 1,
            r.messages@ == self.messages@.push(r.messages@.last()),
            r.messages@.last().role == Role::System,
            r.messages@.last().content@ == content@,
    {
        let mut messages = self.messages;
        messages.push(Message::system(content));
        ChatBuilder { messages, ..self }
    }

    /// Appends a user message; everything else is unchanged.
    pub fn add_user_message(self, content: String) -> (r: Self)
        ensures
            r == (ChatBuilder { messages: r.messages, ..self }),
            r.messages@.len() == self.messages@.len() + 1,
            r.messages@ == self.messages@.push(r.messages@.last()),
            r.messages@.last().role == Role::User,
            r.messages@.last().content@ == content@,
    {
        let mut messages = self.messages;
        messages.push(Message::user(content));
        ChatBuilder { messages, ..self }
    }

    /// Appends an assistant message; everything else is unchanged.
    pub fn add_assistant_message(self, content: String) -> (r: Self)
        ensures
            r == (ChatBuilder { messages: r.messages, ..self }),
            r.messages@.len() == self.messages@.len() + 1,
            r.messages@ == self.messages@.push(r.messages@.last()),
            r.messages@.last().role == Role::Assistant,
            r.messages@.last().content@ == content@,
    {
        let mut messages = self.messages;
        messages.push(Message::assistant(content));
        ChatBuilder { messages, ..self }
    }

    /// Sets the model.
    pub fn with_model(self, model: Model) -> (r: Self)
        ensures
            r == (ChatBuilder { model, ..self }),
    {
        ChatBuilder { model, ..self }
    }

    /// Sets the temperature from a raw value in thousandths, validating it
    /// immediately: fails exactly when the value lies outside 0.0 through
    /// 2.0, rather than deferring to request validation.
    pub fn with_temperature(self, value: i32) -> (r: Result<Self, DeepSeekError>)
        ensures
            r is Ok <==> temperature_in_range(value as int),
            r matches Ok(b) ==> (b.temperature matches Some(t) && t.spec_value() == value as int)
                && b == (ChatBuilder { temperature: b.temperature, ..self }),
            r matches Err(e) ==> (e matches DeepSeekError::InvalidParameter(m) && m@
                == "Temperature must be between 0.0 and 2.0, got "@ + milli_chars(value as int)),
    {
        match Temperature::new(value) {
            Ok(t) => Ok(ChatBuilder { temperature: Some(t), ..self }),
            Err(e) => Err(e),
        }
    }

    /// Sets the maximum number of generated tokens.
    pub fn with_max_tokens(self, tokens: u32) -> (r: Self)
        ensures
            r == (ChatBuilder { max_tokens: Some(tokens), ..self }),
    {
        ChatBuilder { max_tokens: Some(tokens), ..self }
    }

    /// Sets the nucleus-sampling parameter, in thousandths.
    pub fn with_top_p(self, top_p: i32) -> (r: Self)
        ensures
            r == (ChatBuilder { top_p: Some(top_p), ..self }),
    {
        ChatBuilder { top_p: Some(top_p), ..self }
    }

    /// Sets the frequency penalty, in thousandths.
    pub fn with_frequency_penalty(self, penalty: i32) -> (r: Self)
        ensures
            r == (ChatBuilder { frequency_penalty: Some(penalty), ..self }),
    {
        ChatBuilder { frequency_penalty: Some(penalty), ..self }
    }

    /// Sets the presence penalty, in thousandths.
    pub fn with_presence_penalty(self, penalty: i32) -> (r: Self)
        ensures
            r == (ChatBuilder { presence_penalty: Some(penalty), ..self }),
    {
        ChatBuilder { presence_penalty: Some(penalty), ..self }
    }

    /// Sets the stop sequences.
    pub fn with_stop(self, stop: Vec<String>) -> (r: Self)
        ensures
            r == (ChatBuilder { stop: Some(stop), ..self }),
    {
        ChatBuilder { stop: Some(stop), ..self }
    }

    /// Sets the streaming flag.
    pub fn with_stream(self, stream: bool) -> (r: Self)
        ensures
            r == (ChatBuilder { stream: Some(stream), ..self }),
    {
        ChatBuilder { stream: Some(stream), ..self }
    }

    /// Sets the number of completions to generate.
    pub fn with_n(self, n: u32) -> (r: Self)
        ensures
            r == (ChatBuilder { n: Some(n), ..self }),
    {
        ChatBuilder { n: Some(n), ..self }
    }

    /// Sets the user identifier.
    pub fn with_user(self, user: String) -> (r: Self)
        ensures
            r == (ChatBuilder { user: Some(user), ..self }),
    {
        ChatBuilder { user: Some(user), ..self }
    }

    /// Materializes the accumulated state as a request snapshot; the builder
    /// stays as it is, so messages already sent remain for further turns.
    pub fn build(&self) -> (r: ChatCompletionRequest)
        ensures
            r.model == self.model,
            r.messages@.len() == self.messages@.len(),
            forall|i: int|
                0 <= i < self.messages@.len() ==> (#[trigger] r.messages@[i]).role
                    == self.messages@[i].role && r.messages@[i].content@
                    == self.messages@[i].content@,
            r.temperature == self.temperature,
            r.max_tokens == self.max_tokens,
            r.top_p == self.top_p,
            r.frequency_penalty == self.frequency_penalty,
            r.presence_penalty == self.presence_penalty,
            r.stream == self.stream,
            r.n == self.n,
            match (r.stop, self.stop) {
                (Some(a), Some(b)) => a@.map_values(|s: String| s@) == b@.map_values(
                    |s: String| s@,
                ),
                (None, None) => true,
                _ => false,
            },
            match (r.user, self.user) {
                (Some(a), Some(b)) => a@ == b@,
                (None, None) => true,
                _ => false,
            },
    {
        let mut messages: Vec<Message> = Vec::new();
        let mut i: usize = 0;
        while i < self.messages.len()
            invariant
                i <= self.messages@.len(),
                messages@.len() == i,
                forall|j: int|
                    0 <= j < i ==> (#[trigger] messages@[j]).role == self.messages@[j].role
                        && messages@[j].content@ == self.messages@[j].content@,
            decreases self.messages@.len() - i,
        {
            messages.push(self.messages[i].clone());
            i = i + 1;
        }
        let stop: Option<Vec<String>> = match &self.stop {
            Some(ss) => {
                let mut out: Vec<String> = Vec::new();
                let mut k: usize = 0;
                while k < ss.len()
                    invariant
                        k <= ss@.len(),
                        out@.len() == k,
                        forall|j: int| 0 <= j < k ==> (#[trigger] out@[j])@ == ss@[j]@,
                    decreases ss@.len() - k,
                {
                    out.push(ss[k].clone());
                    k = k + 1;
                }
                proof {
                    assert(out@.map_values(|s: String| s@) =~= ss@.map_values(|s: String| s@));
                }
                Some(out)
            },
            None => None,
        };
        let user: Option<String> = match &self.user {
            Some(u) => Some(u.clone()),
            None => None,
        };
        ChatCompletionRequest {
            model: self.model,
            messages,
            temperature: self.temperature,
            max_tokens: self.max_tokens,
            top_p: self.top_p,
            frequency_penalty: self.frequency_penalty,
            presence_penalty: self.presence_penalty,
            stop,
            stream: self.stream,
            n: self.n,
            user,
        }
    }
}

impl Default for ChatBuilder {
    /// The default builder is the fresh one: no messages, the default
    /// model, and every parameter unset.
    fn default() -> (r: Self)
        ensures
            r.messages@.len() == 0,
            r.model == Model::Chat,
            r.temperature is None,
            r.max_tokens is None,
            r.top_p is None,
            r.frequency_penalty is None,
            r.presence_penalty is None,
            r.stop is None,
            r.stream is None,
            r.n is None,
            r.user is None,
    {
        Self::new()
    }
}

/// The API client: a validated configuration and the retry policy drawn
/// from it.
#[derive(Debug, Clone)]
pub struct DeepSeekClient {
    /// The validated configuration.
    pub config: DeepSeekConfig,
}

impl DeepSeekClient {
    /// Creates a client from a configuration; fails exactly when the
    /// configuration does not validate.
    pub fn new(config: DeepSeekConfig) -> (r: Result<Self, DeepSeekError>)
        ensures
            r is Ok <==> spec_config_valid(config),
            r matches Ok(c) ==> c.config == config,
            r matches Err(e) ==> e is ConfigError,
    {
        match config.validate() {
            Ok(()) => Ok(DeepSeekClient { config }),
            Err(e) => Err(e),
        }
    }

    /// Starts a fresh chat builder: no messages, the default model, and
    /// every parameter unset.
    pub fn chat(&self) -> (r: ChatBuilder)
        ensures
            r.messages@.len() == 0,
            r.model == Model::Chat,
            r.temperature is None,
            r.max_tokens is None,
            r.top_p is None,
            r.frequency_penalty is None,
            r.presence_penalty is None,
            r.stop is None,
            r.stream is None,
            r.n is None,
            r.user is None,
    {
        ChatBuilder::new()
    }

    /// The retry policy this client's configuration calls for.
    pub fn retry_policy(&self) -> (r: RetryPolicy)
        ensures
            r.max_retries == self.config.max_retries,
    {
        RetryPolicy { max_retries: self.config.max_retries }
    }
}

} // verus!
