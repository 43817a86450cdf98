//! Request-side value types and the chat-completion request aggregate.
//!
//! Fractional sampling parameters are carried as integers counted in
//! thousandths of a unit: a temperature of 0.7 is the value 700, a penalty of
//! -1.5 is -1500. The wire encoder renders such values in fixed-point
//! decimal, so the wire shape is unchanged.

use vstd::prelude::*;

use crate::error::DeepSeekError;
use crate::text::{dec_chars, milli_chars, push_dec_u64, push_milli};

verus! {

use vstd::string::StringExecFns;

/// Available completion engines.
#[derive(Debug, Clone, Copy, PartialEq, Eq, Structural)]
pub enum Model {
    /// General conversation model.
    Chat,
    /// Complex reasoning model.
    Reasoner,
    /// Programming model.
    Coder,
}

/// The stable wire name of each model.
pub open spec fn spec_model_name(m: Model) -> Seq<char> {
    match m {
        Model::Chat => "deepseek-chat"@,
        Model::Reasoner => "deepseek-reasoner"@,
        Model::Coder => "deepseek-coder"@,
    }
}

impl Model {
    /// The model's wire-string representation.
    pub fn as_str(&self) -> (r: &'static str)
        ensures
            r@ == spec_model_name(*self),
    {
        match self {
            Model::Chat => "deepseek-chat",
            Model::Reasoner => "deepseek-reasoner",
            Model::Coder => "deepseek-coder",
        }
    }

    /// Whether this model supports reasoning output.
    pub fn supports_reasoning(&self) -> (r: bool)
        ensures
            r == (*self is Reasoner),
    {
        matches!(self, Model::Reasoner)
    }
}

impl Default for Model {
    /// The default engine is the general chat model.
    fn default() -> (r: Self)
        ensures
            r == Model::Chat,
    {
        Model::Chat
    }
}

/// Message role in a conversation.
#[derive(Debug, Clone, Copy, PartialEq, Eq, Structural)]
pub enum Role {
    /// System message that sets context.
    System,
    /// End-user message.
    User,
    /// Assistant response.
    Assistant,
}

/// The lowercase wire name of each role.
pub open spec fn spec_role_name(r: Role) -> Seq<char> {
    match r {
        Role::System => "system"@,
        Role::User => "user"@,
        Role::Assistant => "assistant"@,
    }
}

impl Role {
    /// The role's lowercase wire-string representation.
    pub fn as_str(&self) -> (r: &'static str)
        ensures
            r@ == spec_role_name(*self),
    {
        match self {
            Role::System => "system",
            Role::User => "user",
            Role::Assistant => "assistant",
        }
    }
}

/// One message of a conversation transcript.
#[derive(Debug, PartialEq, Eq)]
pub struct Message {
    /// The role of the message sender.
    pub role: Role,
    /// The content of the message.
    pub content: String,
}

impl Message {
    /// Creates a message with the given role.
    pub fn new(role: Role, content: String) -> (r: Self)
        ensures
            r.role == role,
            r.content@ == content@,
    {
        Message { role, content }
    }

    /// Creates a system message.
    pub fn system(content: String) -> (r: Self)
        ensures
            r.role == Role::System,
            r.content@ == content@,
    {
        Self::new(Role::System, content)
    }

    /// Creates a user message.
    pub fn user(content: String) -> (r: Self)
        ensures
            r.role == Role::User,
            r.content@ == content@,
    {
        Self::new(Role::User, content)
    }

    /// Creates an assistant message.
    pub fn assistant(content: String) -> (r: Self)
        ensures
            r.role == Role::Assistant,
            r.content@ == content@,
    {
        Self::new(Role::Assistant, content)
    }

    /// The length of the message content in bytes of its UTF-8 form.
    pub fn len(&self) -> (r: usize)
        ensures
            r == vstd::utf8::encode_utf8(self.content@).len() as usize,
    {
        self.content.as_str().len()
    }

    /// Whether the message content is empty.
    pub fn is_empty(&self) -> (r: bool)
        ensures
            r == (self.content@.len() == 0),
    {
        self.content.as_str().is_empty()
    }
}

impl Clone for Message {
    /// Cloning preserves the role and the content text.
    fn clone(&self) -> (r: Self)
        ensures
            r.role == self.role,
            r.content@ == self.content@,
    {
        Message { role: self.role, content: self.content.clone() }
    }
}

/// Whether a value in thousandths lies in the allowed temperature range,
/// 0.0 through 2.0.
pub open spec fn temperature_in_range(millis: int) -> bool {
    0 <= millis <= 2000
}

/// Sampling temperature: a bounded scalar in 0.0 through 2.0, carried in
/// thousandths.
#[derive(Debug, Clone, Copy, PartialEq, Eq, Structural)]
pub struct Temperature {
    millis: i32,
}

impl Temperature {
    /// The stored value in thousandths.
    pub closed spec fn spec_value(self) -> int {
        self.millis as int
    }

    /// Creates a temperature from a value in thousandths; fails exactly when
    /// the value lies outside 0.0 through 2.0.
    pub fn new(value: i32) -> (r: Result<Self, DeepSeekError>)
        ensures
            r is Ok <==> temperature_in_range(value as int),
            r matches Ok(t) ==> t.spec_value() == value as int,
            r matches Err(e) ==> (e matches DeepSeekError::InvalidParameter(m) && m@
                == "Temperature must be between 0.0 and 2.0, got "@ + milli_chars(value as int)),
    {
        if value < 0 || value > 2000 {
            let mut m = String::from_str("Temperature must be between 0.0 and 2.0, got ");
            push_milli(&mut m, value as i64);
            Err(DeepSeekError::InvalidParameter(m))
        } else {
            Ok(Temperature { millis: value })
        }
    }

    /// Creates a temperature without range validation; for internal preset
    /// construction.
    pub fn new_unchecked(value: i32) -> (r: Self)
        ensures
            r.spec_value() == value as int,
    {
        Temperature { millis: value }
    }

    /// The temperature value in thousandths.
    pub fn value(&self) -> (r: i32)
        ensures
            r as int == self.spec_value(),
    {
        self.millis
    }

    /// Very low randomness (0.1).
    pub fn very_low() -> (r: Self)
        ensures
            r.spec_value() == 100,
    {
        Temperature { millis: 100 }
    }

    /// Low randomness (0.3).
    pub fn low() -> (r: Self)
        ensures
            r.spec_value() == 300,
    {
        Temperature { millis: 300 }
    }

    /// Medium randomness (0.7).
    pub fn medium() -> (r: Self)
        ensures
            r.spec_value() == 700,
    {
        Temperature { millis: 700 }
    }

    /// High randomness (1.0).
    pub fn high() -> (r: Self)
        ensures
            r.spec_value() == 1000,
    {
        Temperature { millis: 1000 }
    }

    /// Very high randomness (1.5).
    pub fn very_high() -> (r: Self)
        ensures
            r.spec_value() == 1500,
    {
        Temperature { millis: 1500 }
    }
}

impl Default for Temperature {
    /// The default temperature is the medium preset (0.7).
    fn default() -> (r: Self)
        ensures
            r.spec_value() == 700,
    {
        Temperature { millis: 700 }
    }
}

/// A chat completion request: the conversation transcript plus sampling
/// parameters. Optional fields are omitted from the wire form when unset.
#[derive(Debug, Clone, PartialEq, Eq)]
pub struct ChatCompletionRequest {
    /// The model to use.
    pub model: Model,
    /// The messages of the conversation, in order.
    pub messages: Vec<Message>,
    /// Sampling temperature, in thousandths (0 through 2000).
    pub temperature: Option<Temperature>,
    /// Maximum number of tokens to generate.
    pub max_tokens: Option<u32>,
    /// Nucleus-sampling parameter, in thousandths (valid range 0 through 1000).
    pub top_p: Option<i32>,
    /// Frequency penalty, in thousandths (valid range -2000 through 2000).
    pub frequency_penalty: Option<i32>,
    /// Presence penalty, in thousandths (valid range -2000 through 2000).
    pub presence_penalty: Option<i32>,
    /// Stop sequences.
    pub stop: Option<Vec<String>>,
    /// Whether to stream the response.
    pub stream: Option<bool>,
    /// Number of completions to generate (valid range 1 through 10).
    pub n: Option<u32>,
    /// User identifier for tracking.
    pub user: Option<String>,
}

/// Whether every message of the sequence has non-empty content.
pub open spec fn all_messages_nonempty(ms: Seq<Message>) -> bool {
    forall|i: int| 0 <= i < ms.len() ==> #[trigger] ms[i].content@.len() > 0
}

/// The index of the first message with empty content; meaningful only when
/// one exists.
pub open spec fn first_empty_index(ms: Seq<Message>) -> int
    decreases ms.len(),
{
    if ms.len() == 0 {
        0
    } else if ms[0].content@.len() == 0 {
        0
    } else {
        1 + first_empty_index(ms.drop_first())
    }
}

proof fn lemma_first_empty_index(ms: Seq<Message>, i: int)
    requires
        0 <= i < ms.len(),
        ms[i].content@.len() == 0,
        forall|j: int| 0 <= j < i ==> #[trigger] ms[j].content@.len() > 0,
    ensures
        first_empty_index(ms) == i,
    decreases i,
{
    if i > 0 {
        assert forall|j: int| 0 <= j < i - 1 implies #[trigger] ms.drop_first()[j].content@.len()
            > 0 by {
            assert(ms.drop_first()[j] == ms[j + 1]);
        }
        assert(ms.drop_first()[i - 1] == ms[i]);
        lemma_first_empty_index(ms.drop_first(), i - 1);
    }
}

/// Whether the nucleus-sampling parameter, when set, lies in 0.0 through 1.0.
pub open spec fn spec_top_p_ok(r: ChatCompletionRequest) -> bool {
    r.top_p matches Some(p) ==> 0 <= p <= 1000
}

/// Whether the frequency penalty, when set, lies in -2.0 through 2.0.
pub open spec fn spec_frequency_ok(r: ChatCompletionRequest) -> bool {
    r.frequency_penalty matches Some(p) ==> -2000 <= p <= 2000
}

/// Whether the presence penalty, when set, lies in -2.0 through 2.0.
pub open spec fn spec_presence_ok(r: ChatCompletionRequest) -> bool {
    r.presence_penalty matches Some(p) ==> -2000 <= p <= 2000
}

/// Whether the completion count, when set, lies in 1 through 10.
pub open spec fn spec_n_ok(r: ChatCompletionRequest) -> bool {
    r.n matches Some(n) ==> 1 <= n <= 10
}

/// A request is valid when it has at least one message, every message has
/// non-empty content, and each set parameter lies in its allowed range.
pub open spec fn spec_valid(r: ChatCompletionRequest) -> bool {
    &&& r.messages@.len() > 0
    &&& all_messages_nonempty(r.messages@)
    &&& spec_top_p_ok(r)
    &&& spec_frequency_ok(r)
    &&& spec_presence_ok(r)
    &&& spec_n_ok(r)
}

impl ChatCompletionRequest {
    /// Creates a request with the given messages, the default model, and all
    /// optional parameters unset.
    pub fn new(messages: Vec<Message>) -> (r: Self)
        ensures
            r.model == Model::Chat,
            r.messages == messages,
            r.temperature is None,
            r.max_tokens is None,
            r.top_p is None,
            r.frequency_penalty is None,
            r.presence_penalty is None,
            r.stop is None,
            r.stream is None,
            r.n is None,
            r.user is None,
    {
        ChatCompletionRequest {
            model: Model::Chat,
            messages,
            temperature: None,
            max_tokens: None,
            top_p: None,
            frequency_penalty: None,
            presence_penalty: None,
            stop: None,
            stream: None,
            n: None,
            user: None,
        }
    }

    /// Creates a request holding a single user message.
    pub fn from_user_message(content: String) -> (r: Self)
        ensures
            r.model == Model::Chat,
            r.messages@.len() == 1,
            r.messages@[0].role == Role::User,
            r.messages@[0].content@ == content@,
            r.temperature is None,
            r.max_tokens is None,
            r.top_p is None,
            r.frequency_penalty is None,
            r.presence_penalty is None,
            r.stop is None,
            r.stream is None,
            r.n is None,
            r.user is None,
    {
        let mut messages: Vec<Message> = Vec::new();
        messages.push(Message::user(content));
        Self::new(messages)
    }

    /// Sets the model.
    pub fn with_model(self, model: Model) -> (r: Self)
        ensures
            r == (ChatCompletionRequest { model, ..self }),
    {
        ChatCompletionRequest { model, ..self }
    }

    /// Sets the temperature.
    pub fn with_temperature(self, temp: Temperature) -> (r: Self)
        ensures
            r == (ChatCompletionRequest { temperature: Some(temp), ..self }),
    {
        ChatCompletionRequest { temperature: Some(temp), ..self }
    }

    /// Sets the maximum number of generated tokens.
    pub fn with_max_tokens(self, tokens: u32) -> (r: Self)
        ensures
            r == (ChatCompletionRequest { max_tokens: Some(tokens), ..self }),
    {
        ChatCompletionRequest { max_tokens: Some(tokens), ..self }
    }

    /// Sets the nucleus-sampling parameter, in thousandths.
    pub fn with_top_p(self, top_p: i32) -> (r: Self)
        ensures
            r == (ChatCompletionRequest { top_p: Some(top_p), ..self }),
    {
        ChatCompletionRequest { top_p: Some(top_p), ..self }
    }

    /// Sets the frequency penalty, in thousandths.
    pub fn with_frequency_penalty(self, penalty: i32) -> (r: Self)
        ensures
            r == (ChatCompletionRequest { frequency_penalty: Some(penalty), ..self }),
    {
        ChatCompletionRequest { frequency_penalty: Some(penalty), ..self }
    }

    /// Sets the presence penalty, in thousandths.
    pub fn with_presence_penalty(self, penalty: i32) -> (r: Self)
        ensures
            r == (ChatCompletionRequest { presence_penalty: Some(penalty), ..self }),
    {
        ChatCompletionRequest { presence_penalty: Some(penalty), ..self }
    }

    /// Sets the stop sequences.
    pub fn with_stop(self, stop: Vec<String>) -> (r: Self)
        ensures
            r == (ChatCompletionRequest { stop: Some(stop), ..self }),
    {
        ChatCompletionRequest { stop: Some(stop), ..self }
    }

    /// Sets the streaming flag.
    pub fn with_stream(self, stream: bool) -> (r: Self)
        ensures
            r == (ChatCompletionRequest { stream: Some(stream), ..self }),
    {
        ChatCompletionRequest { stream: Some(stream), ..self }
    }

    /// Sets the number of completions to generate.
    pub fn with_n(self, n: u32) -> (r: Self)
        ensures
            r == (ChatCompletionRequest { n: Some(n), ..self }),
    {
        ChatCompletionRequest { n: Some(n), ..self }
    }

    /// Sets the user identifier.
    pub fn with_user(self, user: String) -> (r: Self)
        ensures
            r == (ChatCompletionRequest { user: Some(user), ..self }),
    {
        ChatCompletionRequest { user: Some(user), ..self }
    }

    /// Validates the request: succeeds exactly when the request is valid, and
    /// otherwise reports the first failing condition, in the order messages
    /// present, message contents non-empty, nucleus parameter, frequency
    /// penalty, presence penalty, completion count.
    pub fn validate(&self) -> (res: Result<(), DeepSeekError>)
        ensures
            res is Ok <==> spec_valid(*self),
            res matches Err(e) ==> e is InvalidParameter,
            self.messages@.len() == 0 ==> (res matches Err(e) && e
                matches DeepSeekError::InvalidParameter(m) && m@
                == "At least one message is required"@),
            self.messages@.len() > 0 && !all_messages_nonempty(self.messages@) ==> (res
                matches Err(e) && e matches DeepSeekError::InvalidParameter(m) && m@
                == "Message at index "@ + dec_chars(first_empty_index(self.messages@))
                + " is empty"@),
            self.messages@.len() > 0 && all_messages_nonempty(self.messages@) && !spec_top_p_ok(
                *self,
            ) ==> (res matches Err(e) && e matches DeepSeekError::InvalidParameter(m)
                && self.top_p matches Some(p) && m@ == "top_p must be between 0.0 and 1.0, got "@
                + milli_chars(p as int)),
            self.messages@.len() > 0 && all_messages_nonempty(self.messages@) && spec_top_p_ok(
                *self,
            ) && !spec_frequency_ok(*self) ==> (res matches Err(e) && e
                matches DeepSeekError::InvalidParameter(m) && self.frequency_penalty
                matches Some(p) && m@ == "frequency_penalty must be between -2.0 and 2.0, got "@
                + milli_chars(p as int)),
            self.messages@.len() > 0 && all_messages_nonempty(self.messages@) && spec_top_p_ok(
                *self,
            ) && spec_frequency_ok(*self) && !spec_presence_ok(*self) ==> (res matches Err(e) && e
                matches DeepSeekError::InvalidParameter(m) && self.presence_penalty
                matches Some(p) && m@ == "presence_penalty must be between -2.0 and 2.0, got "@
                + milli_chars(p as int)),
            self.messages@.len() > 0 && all_messages_nonempty(self.messages@) && spec_top_p_ok(
                *self,
            ) && spec_frequency_ok(*self) && spec_presence_ok(*self) && !spec_n_ok(*self) ==> (res
                matches Err(e) && e matches DeepSeekError::InvalidParameter(m) && self.n
                matches Some(n) && m@ == "n must be between 1 and 10, got "@ + dec_chars(n as int)),
    {
        if self.messages.len() == 0 {
            return Err(
                DeepSeekError::InvalidParameter(
                    String::from_str("At least one message is required"),
                ),
            );
        }
        let mut i: usize = 0;
        while i < self.messages.len()
            invariant
                i <= self.messages@.len(),
                forall|j: int| 0 <= j < i ==> #[trigger] self.messages@[j].content@.len() > 0,
            decreases self.messages@.len() - i,
        {
            if self.messages[i].is_empty() {
                proof {
                    lemma_first_empty_index(self.messages@, i as int);
                }
                let mut m = String::from_str("Message at index ");
                push_dec_u64(&mut m, i as u64);
                m.append(" is empty");
                return Err(DeepSeekError::InvalidParameter(m));
            }
            i = i + 1;
        }
        assert(all_messages_nonempty(self.messages@));
        if let Some(p) = self.top_p {
            if p < 0 || p > 1000 {
                let mut m = String::from_str("top_p must be between 0.0 and 1.0, got ");
                push_milli(&mut m, p as i64);
                return Err(DeepSeekError::InvalidParameter(m));
            }
        }
        if let Some(p) = self.frequency_penalty {
            if p < -2000 || p > 2000 {
                let mut m = String::from_str(
                    "frequency_penalty must be between -2.0 and 2.0, got ",
                );
                push_milli(&mut m, p as i64);
                return Err(DeepSeekError::InvalidParameter(m));
            }
        }
        if let Some(p) = self.presence_penalty {
            if p < -2000 || p > 2000 {
                let mut m = String::from_str(
                    "presence_penalty must be between -2.0 and 2.0, got ",
                );
                push_milli(&mut m, p as i64);
                return Err(DeepSeekError::InvalidParameter(m));
            }
        }
        if let Some(n) = self.n {
            if n == 0 || n > 10 {
                let mut m = String::from_str("n must be between 1 and 10, got ");
                push_dec_u64(&mut m, n as u64);
                return Err(DeepSeekError::InvalidParameter(m));
            }
        }
        Ok(())
    }
}

} // verus!
