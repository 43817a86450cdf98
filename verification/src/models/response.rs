//! Response-side wire shapes and their derived accessors.

use vstd::prelude::*;

use crate::json::Json;

verus! {

use vstd::string::StringExecFns;

/// UTF-8 byte length of an optional text field, zero when unset.
pub open spec fn opt_byte_len(o: Option<String>) -> int {
    match o {
        Some(s) => vstd::utf8::encode_utf8(s@).len() as int,
        None => 0,
    }
}

/// Function call information reported by the API.
#[derive(Debug, Clone, PartialEq, Eq)]
pub struct FunctionCall {
    /// The name of the function to call.
    pub name: String,
    /// The arguments to pass to the function, as a JSON string.
    pub arguments: String,
}

/// Tool call information reported by the API.
#[derive(Debug, Clone, PartialEq, Eq)]
pub struct ToolCall {
    /// Unique identifier for the tool call.
    pub id: String,
    /// The kind of tool (the wire field `type`, usually `"function"`).
    pub kind: String,
    /// The function call details.
    pub function: FunctionCall,
}

/// Response message from the assistant.
#[derive(Debug, Clone, PartialEq, Eq)]
pub struct ResponseMessage {
    /// The role of the message, usually `"assistant"`.
    pub role: String,
    /// The main content of the response.
    pub content: Option<String>,
    /// Reasoning content, present for reasoning models.
    pub reasoning_content: Option<String>,
    /// Function call information, if applicable.
    pub function_call: Option<FunctionCall>,
    /// Tool calls, if applicable.
    pub tool_calls: Option<Vec<ToolCall>>,
}

impl ResponseMessage {
    /// Whether the message carries non-empty content.
    pub fn has_content(&self) -> (r: bool)
        ensures
            r == (self.content matches Some(c) && c@.len() > 0),
    {
        match &self.content {
            Some(c) => !c.as_str().is_empty(),
            None => false,
        }
    }

    /// Whether the message carries non-empty reasoning content.
    pub fn has_reasoning(&self) -> (r: bool)
        ensures
            r == (self.reasoning_content matches Some(c) && c@.len() > 0),
    {
        match &self.reasoning_content {
            Some(c) => !c.as_str().is_empty(),
            None => false,
        }
    }

    /// The total UTF-8 byte length of content and reasoning content together.
    pub fn total_length(&self) -> (r: usize)
        requires
            opt_byte_len(self.content) + opt_byte_len(self.reasoning_content) <= usize::MAX,
        ensures
            r == opt_byte_len(self.content) + opt_byte_len(self.reasoning_content),
    {
        let content_len: usize = match &self.content {
            Some(s) => s.as_str().len(),
            None => 0,
        };
        let reasoning_len: usize = match &self.reasoning_content {
            Some(s) => s.as_str().len(),
            None => 0,
        };
        content_len + reasoning_len
    }
}

/// One candidate completion in a response.
#[derive(Debug, Clone, PartialEq)]
pub struct Choice {
    /// The index of this choice.
    pub index: u32,
    /// The message content.
    pub message: ResponseMessage,
    /// The reason the completion stopped.
    pub finish_reason: Option<String>,
    /// Raw log probabilities, if requested.
    pub logprobs: Option<Json>,
}

/// Token usage information.
#[derive(Debug, Clone, Copy, PartialEq, Eq, Structural)]
pub struct Usage {
    /// Number of tokens in the prompt.
    pub prompt_tokens: u32,
    /// Number of tokens in the completion.
    pub completion_tokens: u32,
    /// Total number of tokens used.
    pub total_tokens: u32,
    /// Number of reasoning tokens, for reasoning models.
    pub reasoning_tokens: Option<u32>,
    /// Prompt tokens served from cache.
    pub prompt_cache_hit_tokens: Option<u32>,
    /// Prompt tokens missing from cache.
    pub prompt_cache_miss_tokens: Option<u32>,
}

impl Usage {
    /// The estimated cost in millionths of a currency unit, from fixed
    /// illustrative per-token rates: 100 per prompt token and 200 per
    /// completion token (0.0001 and 0.0002 units). Callers must treat the
    /// result as approximate, not live pricing.
    pub fn estimate_cost(&self) -> (r: u64)
        ensures
            r == self.prompt_tokens * 100 + self.completion_tokens * 200,
    {
        (self.prompt_tokens as u64) * 100 + (self.completion_tokens as u64) * 200
    }
}

/// A chat completion response from the API.
#[derive(Debug, Clone, PartialEq)]
pub struct ChatCompletionResponse {
    /// Unique identifier for the completion.
    pub id: String,
    /// Object kind tag, usually `"chat.completion"`.
    pub object: String,
    /// Unix timestamp of when the completion was created.
    pub created: u64,
    /// The model used for the completion.
    pub model: String,
    /// The completion choices, in order.
    pub choices: Vec<Choice>,
    /// Token usage information.
    pub usage: Option<Usage>,
    /// System fingerprint for the response.
    pub system_fingerprint: Option<String>,
}

/// The first choice's content, absent when there is no choice or the field
/// is unset.
pub open spec fn spec_get_content(r: ChatCompletionResponse) -> Option<Seq<char>> {
    if r.choices@.len() > 0 {
        match r.choices@[0].message.content {
            Some(c) => Some(c@),
            None => None,
        }
    } else {
        None
    }
}

/// The first choice's reasoning content, absent when there is no choice or
/// the field is unset.
pub open spec fn spec_get_reasoning(r: ChatCompletionResponse) -> Option<Seq<char>> {
    if r.choices@.len() > 0 {
        match r.choices@[0].message.reasoning_content {
            Some(c) => Some(c@),
            None => None,
        }
    } else {
        None
    }
}

/// Whether the first choice finished with the natural stop reason.
pub open spec fn spec_is_finished(r: ChatCompletionResponse) -> bool {
    r.choices@.len() > 0 && (r.choices@[0].finish_reason matches Some(f) && f@ == "stop"@)
}

impl ChatCompletionResponse {
    /// The first choice's content, if available.
    pub fn get_content(&self) -> (r: Option<&str>)
        ensures
            r is Some <==> spec_get_content(*self) is Some,
            r matches Some(s) ==> spec_get_content(*self) == Some(s@),
    {
        if self.choices.len() > 0 {
            match &self.choices[0].message.content {
                Some(c) => Some(c.as_str()),
                None => None,
            }
        } else {
            None
        }
    }

    /// The first choice's reasoning content, if available.
    pub fn get_reasoning(&self) -> (r: Option<&str>)
        ensures
            r is Some <==> spec_get_reasoning(*self) is Some,
            r matches Some(s) ==> spec_get_reasoning(*self) == Some(s@),
    {
        if self.choices.len() > 0 {
            match &self.choices[0].message.reasoning_content {
                Some(c) => Some(c.as_str()),
                None => None,
            }
        } else {
            None
        }
    }

    /// Whether the response finished with the natural stop reason.
    pub fn is_finished(&self) -> (r: bool)
        ensures
            r == spec_is_finished(*self),
    {
        if self.choices.len() > 0 {
            match &self.choices[0].finish_reason {
                Some(f) => {
                    let stop = String::from_str("stop");
                    *f == stop
                },
                None => false,
            }
        } else {
            false
        }
    }

    /// The total tokens used, if the API reported usage.
    pub fn total_tokens(&self) -> (r: Option<u32>)
        ensures
            r == match self.usage {
                Some(u) => Some(u.total_tokens),
                None => None,
            },
    {
        match &self.usage {
            Some(u) => Some(u.total_tokens),
            None => None,
        }
    }
}

/// Wire shape of an API-reported error body.
#[derive(Debug, Clone, PartialEq, Eq)]
pub struct ApiErrorResponse {
    /// The error details.
    pub error: ApiErrorDetail,
}

/// Details of an API-reported error.
#[derive(Debug, Clone, PartialEq, Eq)]
pub struct ApiErrorDetail {
    /// Error message.
    pub message: String,
    /// Error kind tag (the wire field `type`).
    pub kind: Option<String>,
    /// Error code.
    pub code: Option<String>,
    /// Additional error parameter.
    pub param: Option<String>,
}

/// One incremental chunk of a streaming response.
#[derive(Debug, Clone, PartialEq)]
pub struct StreamChunk {
    /// Unique identifier for the chunk.
    pub id: String,
    /// Object kind tag.
    pub object: String,
    /// Creation timestamp.
    pub created: u64,
    /// Model used.
    pub model: String,
    /// Choices in this chunk, in order.
    pub choices: Vec<StreamChoice>,
}

/// A choice within a streaming chunk.
#[derive(Debug, Clone, PartialEq, Eq)]
pub struct StreamChoice {
    /// Index of the choice.
    pub index: u32,
    /// The incremental delta.
    pub delta: DeltaContent,
    /// Finish reason, on the final chunk of a choice.
    pub finish_reason: Option<String>,
}

/// Delta content of a streaming chunk; the role appears only on the first
/// chunk, and content fragments are concatenated by the caller in arrival
/// order.
#[derive(Debug, Clone, PartialEq, Eq)]
pub struct DeltaContent {
    /// Role, only in the first chunk.
    pub role: Option<String>,
    /// Content fragment.
    pub content: Option<String>,
    /// Reasoning content fragment.
    pub reasoning_content: Option<String>,
}

} // verus!
