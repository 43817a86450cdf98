//! The mapping between the typed models and the JSON wire shapes: an encoder
//! from requests to documents, and decoders from documents to the success,
//! error and request shapes.
//!
//! Decoding is strict about field types, ignores unknown members, treats a
//! `null` optional member as unset, and refuses documents whose numbers do
//! not fit the target fields — the behaviours the transport relies on.

use vstd::prelude::*;

use crate::error::DeepSeekError;
use crate::json::{Json, JsonV, view_arr, view_obj, lemma_view_arr, lemma_view_obj};
use crate::models::request::{
    ChatCompletionRequest, Message, Model, Role, Temperature, spec_model_name, spec_role_name,
    temperature_in_range,
};
use crate::models::response::{
    ApiErrorDetail, ApiErrorResponse, ChatCompletionResponse, Choice, FunctionCall,
    ResponseMessage, ToolCall, Usage,
};

verus! {

use vstd::string::StringExecFns;

/// The first value bound to `name` in an object's member list, if any.
pub open spec fn obj_get(fields: Seq<(Seq<char>, JsonV)>, name: Seq<char>) -> Option<JsonV>
    decreases fields.len(),
{
    if fields.len() == 0 {
        None
    } else if fields[0].0 == name {
        Some(fields[0].1)
    } else {
        obj_get(fields.drop_first(), name)
    }
}

/// An optional member: absent and `null` both mean unset.
pub open spec fn opt_member(fields: Seq<(Seq<char>, JsonV)>, name: Seq<char>) -> Option<JsonV> {
    match obj_get(fields, name) {
        None => None,
        Some(JsonV::Null) => None,
        Some(v) => Some(v),
    }
}

/// Whether a number in thousandths denotes a whole value that fits in u32.
pub open spec fn num_fits_u32(m: int) -> bool {
    m % 1000 == 0 && 0 <= m / 1000 <= u32::MAX
}

/// Whether a number in thousandths denotes a whole value that fits in u64.
pub open spec fn num_fits_u64(m: int) -> bool {
    m % 1000 == 0 && 0 <= m / 1000 <= u64::MAX
}

/// The mathematical value of a parsed message.
pub struct MessageV {
    /// The sender role.
    pub role: Role,
    /// The message text.
    pub content: Seq<char>,
}

impl View for Message {
    type V = MessageV;

    open spec fn view(&self) -> MessageV {
        MessageV { role: self.role, content: self.content@ }
    }
}

/// The mathematical value of a request.
pub struct ChatCompletionRequestV {
    /// The engine to use.
    pub model: Model,
    /// The conversation, in order.
    pub messages: Seq<MessageV>,
    /// Sampling temperature in thousandths, when set.
    pub temperature: Option<int>,
    /// Token limit, when set.
    pub max_tokens: Option<u32>,
    /// Nucleus-sampling parameter in thousandths, when set.
    pub top_p: Option<int>,
    /// Frequency penalty in thousandths, when set.
    pub frequency_penalty: Option<int>,
    /// Presence penalty in thousandths, when set.
    pub presence_penalty: Option<int>,
    /// Stop sequences, when set.
    pub stop: Option<Seq<Seq<char>>>,
    /// Streaming flag, when set.
    pub stream: Option<bool>,
    /// Completion count, when set.
    pub n: Option<u32>,
    /// User tag, when set.
    pub user: Option<Seq<char>>,
}

impl View for ChatCompletionRequest {
    type V = ChatCompletionRequestV;

    open spec fn view(&self) -> ChatCompletionRequestV {
        ChatCompletionRequestV {
            model: self.model,
            messages: self.messages@.map_values(|m: Message| m@),
            temperature: match self.temperature {
                Some(t) => Some(t.spec_value()),
                None => None,
            },
            max_tokens: self.max_tokens,
            top_p: match self.top_p {
                Some(p) => Some(p as int),
                None => None,
            },
            frequency_penalty: match self.frequency_penalty {
                Some(p) => Some(p as int),
                None => None,
            },
            presence_penalty: match self.presence_penalty {
                Some(p) => Some(p as int),
                None => None,
            },
            stop: match self.stop {
                Some(ss) => Some(ss@.map_values(|s: String| s@)),
                None => None,
            },
            stream: self.stream,
            n: self.n,
            user: match self.user {
                Some(u) => Some(u@),
                None => None,
            },
        }
    }
}

/// The mathematical value of a parsed function call.
pub struct FunctionCallV {
    /// The function name.
    pub name: Seq<char>,
    /// The arguments, as a JSON string.
    pub arguments: Seq<char>,
}

impl View for FunctionCall {
    type V = FunctionCallV;

    open spec fn view(&self) -> FunctionCallV {
        FunctionCallV { name: self.name@, arguments: self.arguments@ }
    }
}

/// The mathematical value of a parsed tool call.
pub struct ToolCallV {
    /// The tool call identifier.
    pub id: Seq<char>,
    /// The tool kind tag.
    pub kind: Seq<char>,
    /// The function call details.
    pub function: FunctionCallV,
}

impl View for ToolCall {
    type V = ToolCallV;

    open spec fn view(&self) -> ToolCallV {
        ToolCallV { id: self.id@, kind: self.kind@, function: self.function@ }
    }
}

/// The mathematical value of a parsed response message.
pub struct ResponseMessageV {
    /// The role text.
    pub role: Seq<char>,
    /// The content, when present.
    pub content: Option<Seq<char>>,
    /// The reasoning content, when present.
    pub reasoning_content: Option<Seq<char>>,
    /// The function call, when present.
    pub function_call: Option<FunctionCallV>,
    /// The tool calls, when present.
    pub tool_calls: Option<Seq<ToolCallV>>,
}

impl View for ResponseMessage {
    type V = ResponseMessageV;

    open spec fn view(&self) -> ResponseMessageV {
        ResponseMessageV {
            role: self.role@,
            content: match self.content {
                Some(c) => Some(c@),
                None => None,
            },
            reasoning_content: match self.reasoning_content {
                Some(c) => Some(c@),
                None => None,
            },
            function_call: match self.function_call {
                Some(f) => Some(f@),
                None => None,
            },
            tool_calls: match self.tool_calls {
                Some(ts) => Some(ts@.map_values(|t: ToolCall| t@)),
                None => None,
            },
        }
    }
}

/// The mathematical value of a parsed choice.
pub struct ChoiceV {
    /// The choice index.
    pub index: u32,
    /// The message.
    pub message: ResponseMessageV,
    /// The finish reason, when present.
    pub finish_reason: Option<Seq<char>>,
    /// Raw log probabilities, when present.
    pub logprobs: Option<JsonV>,
}

impl View for Choice {
    type V = ChoiceV;

    open spec fn view(&self) -> ChoiceV {
        ChoiceV {
            index: self.index,
            message: self.message@,
            finish_reason: match self.finish_reason {
                Some(f) => Some(f@),
                None => None,
            },
            logprobs: match self.logprobs {
                Some(l) => Some(l@),
                None => None,
            },
        }
    }
}

/// The mathematical value of a parsed response.
pub struct ChatCompletionResponseV {
    /// The completion identifier.
    pub id: Seq<char>,
    /// The object kind tag.
    pub object: Seq<char>,
    /// The creation timestamp.
    pub created: u64,
    /// The model text.
    pub model: Seq<char>,
    /// The choices, in order.
    pub choices: Seq<ChoiceV>,
    /// The usage counters, when present.
    pub usage: Option<Usage>,
    /// The system fingerprint, when present.
    pub system_fingerprint: Option<Seq<char>>,
}

impl View for ChatCompletionResponse {
    type V = ChatCompletionResponseV;

    open spec fn view(&self) -> ChatCompletionResponseV {
        ChatCompletionResponseV {
            id: self.id@,
            object: self.object@,
            created: self.created,
            model: self.model@,
            choices: self.choices@.map_values(|c: Choice| c@),
            usage: self.usage,
            system_fingerprint: match self.system_fingerprint {
                Some(f) => Some(f@),
                None => None,
            },
        }
    }
}

/// The mathematical value of parsed API error details.
pub struct ApiErrorDetailV {
    /// The error message.
    pub message: Seq<char>,
    /// The error kind tag, when present.
    pub kind: Option<Seq<char>>,
    /// The error code, when present.
    pub code: Option<Seq<char>>,
    /// The error parameter, when present.
    pub param: Option<Seq<char>>,
}

impl View for ApiErrorDetail {
    type V = ApiErrorDetailV;

    open spec fn view(&self) -> ApiErrorDetailV {
        ApiErrorDetailV {
            message: self.message@,
            kind: match self.kind {
                Some(k) => Some(k@),
                None => None,
            },
            code: match self.code {
                Some(c) => Some(c@),
                None => None,
            },
            param: match self.param {
                Some(p) => Some(p@),
                None => None,
            },
        }
    }
}

impl View for ApiErrorResponse {
    type V = ApiErrorDetailV;

    open spec fn view(&self) -> ApiErrorDetailV {
        self.error@
    }
}


/// A required string member.
pub open spec fn get_str(fields: Seq<(Seq<char>, JsonV)>, name: Seq<char>) -> Option<Seq<char>> {
    match obj_get(fields, name) {
        Some(JsonV::Str(s)) => Some(s),
        _ => None,
    }
}

/// An optional string member: `Some(None)` when absent or null, `None` when
/// present with the wrong type.
pub open spec fn opt_str(fields: Seq<(Seq<char>, JsonV)>, name: Seq<char>) -> Option<
    Option<Seq<char>>,
> {
    match opt_member(fields, name) {
        None => Some(None),
        Some(JsonV::Str(s)) => Some(Some(s)),
        Some(_) => None,
    }
}

/// A required whole-number member that fits in u32.
pub open spec fn get_u32(fields: Seq<(Seq<char>, JsonV)>, name: Seq<char>) -> Option<u32> {
    match obj_get(fields, name) {
        Some(JsonV::Num(m)) => if num_fits_u32(m) {
            Some((m / 1000) as u32)
        } else {
            None
        },
        _ => None,
    }
}

/// An optional whole-number member that fits in u32.
pub open spec fn opt_u32(fields: Seq<(Seq<char>, JsonV)>, name: Seq<char>) -> Option<Option<u32>> {
    match opt_member(fields, name) {
        None => Some(None),
        Some(JsonV::Num(m)) => if num_fits_u32(m) {
            Some(Some((m / 1000) as u32))
        } else {
            None
        },
        Some(_) => None,
    }
}

/// A parsed function call document: an object with string members `name`
/// and `arguments`.
pub open spec fn spec_function_call_from_json(j: JsonV) -> Option<FunctionCallV> {
    match j {
        JsonV::Obj(fields) => match (get_str(fields, "name"@), get_str(fields, "arguments"@)) {
            (Some(name), Some(arguments)) => Some(FunctionCallV { name, arguments }),
            _ => None,
        },
        _ => None,
    }
}

/// A parsed tool call document.
pub open spec fn spec_tool_call_from_json(j: JsonV) -> Option<ToolCallV> {
    match j {
        JsonV::Obj(fields) => match (
            get_str(fields, "id"@),
            get_str(fields, "type"@),
            obj_get(fields, "function"@),
        ) {
            (Some(id), Some(kind), Some(f)) => match spec_function_call_from_json(f) {
                Some(function) => Some(ToolCallV { id, kind, function }),
                None => None,
            },
            _ => None,
        },
        _ => None,
    }
}

/// A parsed sequence of tool calls; fails when any element fails.
pub open spec fn spec_tool_calls_from_json(items: Seq<JsonV>) -> Option<Seq<ToolCallV>>
    decreases items.len(),
{
    if items.len() == 0 {
        Some(Seq::empty())
    } else {
        match (spec_tool_call_from_json(items[0]), spec_tool_calls_from_json(items.drop_first())) {
            (Some(t), Some(rest)) => Some(seq![t] + rest),
            _ => None,
        }
    }
}

/// A parsed response message document.
pub open spec fn spec_message_from_json(j: JsonV) -> Option<ResponseMessageV> {
    match j {
        JsonV::Obj(fields) => {
            let function_call = match opt_member(fields, "function_call"@) {
                None => Some(None),
                Some(f) => match spec_function_call_from_json(f) {
                    Some(fc) => Some(Some(fc)),
                    None => None,
                },
            };
            let tool_calls = match opt_member(fields, "tool_calls"@) {
                None => Some(None),
                Some(JsonV::Arr(items)) => match spec_tool_calls_from_json(items) {
                    Some(ts) => Some(Some(ts)),
                    None => None,
                },
                Some(_) => None,
            };
            match (
                get_str(fields, "role"@),
                opt_str(fields, "content"@),
                opt_str(fields, "reasoning_content"@),
                function_call,
                tool_calls,
            ) {
                (Some(role), Some(content), Some(reasoning_content), Some(fc), Some(tc)) => Some(
                    ResponseMessageV {
                        role,
                        content,
                        reasoning_content,
                        function_call: fc,
                        tool_calls: tc,
                    },
                ),
                _ => None,
            }
        },
        _ => None,
    }
}

/// A parsed choice document.
pub open spec fn spec_choice_from_json(j: JsonV) -> Option<ChoiceV> {
    match j {
        JsonV::Obj(fields) => {
            let message = match obj_get(fields, "message"@) {
                Some(m) => spec_message_from_json(m),
                None => None,
            };
            match (get_u32(fields, "index"@), message, opt_str(fields, "finish_reason"@)) {
                (Some(index), Some(message), Some(finish_reason)) => Some(
                    ChoiceV { index, message, finish_reason, logprobs: opt_member(fields, "logprobs"@) },
                ),
                _ => None,
            }
        },
        _ => None,
    }
}

/// A parsed sequence of choices; fails when any element fails.
pub open spec fn spec_choices_from_json(items: Seq<JsonV>) -> Option<Seq<ChoiceV>>
    decreases items.len(),
{
    if items.len() == 0 {
        Some(Seq::empty())
    } else {
        match (spec_choice_from_json(items[0]), spec_choices_from_json(items.drop_first())) {
            (Some(c), Some(rest)) => Some(seq![c] + rest),
            _ => None,
        }
    }
}

/// A parsed usage document.
pub open spec fn spec_usage_from_json(j: JsonV) -> Option<Usage> {
    match j {
        JsonV::Obj(fields) => match (
            get_u32(fields, "prompt_tokens"@),
            get_u32(fields, "completion_tokens"@),
            get_u32(fields, "total_tokens"@),
            opt_u32(fields, "reasoning_tokens"@),
            opt_u32(fields, "prompt_cache_hit_tokens"@),
            opt_u32(fields, "prompt_cache_miss_tokens"@),
        ) {
            (Some(p), Some(c), Some(t), Some(rt), Some(ht), Some(mt)) => Some(
                Usage {
                    prompt_tokens: p,
                    completion_tokens: c,
                    total_tokens: t,
                    reasoning_tokens: rt,
                    prompt_cache_hit_tokens: ht,
                    prompt_cache_miss_tokens: mt,
                },
            ),
            _ => None,
        },
        _ => None,
    }
}

/// A required whole-number member that fits in u64.
pub open spec fn get_u64(fields: Seq<(Seq<char>, JsonV)>, name: Seq<char>) -> Option<u64> {
    match obj_get(fields, name) {
        Some(JsonV::Num(m)) => if num_fits_u64(m) {
            Some((m / 1000) as u64)
        } else {
            None
        },
        _ => None,
    }
}

/// A parsed success-response document.
pub open spec fn spec_response_from_json(j: JsonV) -> Option<ChatCompletionResponseV> {
    match j {
        JsonV::Obj(fields) => {
            let choices = match obj_get(fields, "choices"@) {
                Some(JsonV::Arr(items)) => spec_choices_from_json(items),
                _ => None,
            };
            let usage = match opt_member(fields, "usage"@) {
                None => Some(None),
                Some(u) => match spec_usage_from_json(u) {
                    Some(us) => Some(Some(us)),
                    None => None,
                },
            };
            match (
                get_str(fields, "id"@),
                get_str(fields, "object"@),
                get_u64(fields, "created"@),
                get_str(fields, "model"@),
                choices,
                usage,
                opt_str(fields, "system_fingerprint"@),
            ) {
                (Some(id), Some(object), Some(created), Some(model), Some(cs), Some(us), Some(
                    fp,
                )) => Some(
                    ChatCompletionResponseV {
                        id,
                        object,
                        created,
                        model,
                        choices: cs,
                        usage: us,
                        system_fingerprint: fp,
                    },
                ),
                _ => None,
            }
        },
        _ => None,
    }
}

/// A parsed API-error document: `{"error": {"message", "type"?, "code"?,
/// "param"?}}`.
pub open spec fn spec_api_error_from_json(j: JsonV) -> Option<ApiErrorDetailV> {
    match j {
        JsonV::Obj(fields) => match obj_get(fields, "error"@) {
            Some(JsonV::Obj(efields)) => match (
                get_str(efields, "message"@),
                opt_str(efields, "type"@),
                opt_str(efields, "code"@),
                opt_str(efields, "param"@),
            ) {
                (Some(message), Some(kind), Some(code), Some(param)) => Some(
                    ApiErrorDetailV { message, kind, code, param },
                ),
                _ => None,
            },
            _ => None,
        },
        _ => None,
    }
}

/// The model named by a wire string, if known.
pub open spec fn spec_model_of_name(s: Seq<char>) -> Option<Model> {
    if s == spec_model_name(Model::Chat) {
        Some(Model::Chat)
    } else if s == spec_model_name(Model::Reasoner) {
        Some(Model::Reasoner)
    } else if s == spec_model_name(Model::Coder) {
        Some(Model::Coder)
    } else {
        None
    }
}

/// The role named by a wire string, if known.
pub open spec fn spec_role_of_name(s: Seq<char>) -> Option<Role> {
    if s == spec_role_name(Role::System) {
        Some(Role::System)
    } else if s == spec_role_name(Role::User) {
        Some(Role::User)
    } else if s == spec_role_name(Role::Assistant) {
        Some(Role::Assistant)
    } else {
        None
    }
}

/// A parsed request message document: an object with a known role name and
/// string content.
pub open spec fn spec_req_message_from_json(j: JsonV) -> Option<MessageV> {
    match j {
        JsonV::Obj(fields) => match (get_str(fields, "role"@), get_str(fields, "content"@)) {
            (Some(role), Some(content)) => match spec_role_of_name(role) {
                Some(r) => Some(MessageV { role: r, content }),
                None => None,
            },
            _ => None,
        },
        _ => None,
    }
}

/// A parsed sequence of request messages; fails when any element fails.
pub open spec fn spec_req_messages_from_json(items: Seq<JsonV>) -> Option<Seq<MessageV>>
    decreases items.len(),
{
    if items.len() == 0 {
        Some(Seq::empty())
    } else {
        match (
            spec_req_message_from_json(items[0]),
            spec_req_messages_from_json(items.drop_first()),
        ) {
            (Some(m), Some(rest)) => Some(seq![m] + rest),
            _ => None,
        }
    }
}

/// An optional number member in thousandths that fits the i32 range.
pub open spec fn opt_milli_i32(fields: Seq<(Seq<char>, JsonV)>, name: Seq<char>) -> Option<
    Option<int>,
> {
    match opt_member(fields, name) {
        None => Some(None),
        Some(JsonV::Num(m)) => if i32::MIN <= m <= i32::MAX {
            Some(Some(m))
        } else {
            None
        },
        Some(_) => None,
    }
}

/// A parsed sequence of stop strings; fails when any element is not a string.
pub open spec fn spec_stops_from_json(items: Seq<JsonV>) -> Option<Seq<Seq<char>>>
    decreases items.len(),
{
    if items.len() == 0 {
        Some(Seq::empty())
    } else {
        match items[0] {
            JsonV::Str(s) => match spec_stops_from_json(items.drop_first()) {
                Some(rest) => Some(seq![s] + rest),
                None => None,
            },
            _ => None,
        }
    }
}

/// A parsed request document: the inverse reading of the request wire shape.
/// A temperature member outside its valid range is refused at parse time, as
/// the temperature type never holds such a value.
pub open spec fn spec_request_from_json(j: JsonV) -> Option<ChatCompletionRequestV> {
    match j {
        JsonV::Obj(fields) => {
            let model = match get_str(fields, "model"@) {
                Some(name) => spec_model_of_name(name),
                None => None,
            };
            let messages = match obj_get(fields, "messages"@) {
                Some(JsonV::Arr(items)) => spec_req_messages_from_json(items),
                _ => None,
            };
            let temperature = match opt_member(fields, "temperature"@) {
                None => Some(None),
                Some(JsonV::Num(m)) => if temperature_in_range(m) {
                    Some(Some(m))
                } else {
                    None
                },
                Some(_) => None,
            };
            let stop = match opt_member(fields, "stop"@) {
                None => Some(None),
                Some(JsonV::Arr(items)) => match spec_stops_from_json(items) {
                    Some(ss) => Some(Some(ss)),
                    None => None,
                },
                Some(_) => None,
            };
            let stream = match opt_member(fields, "stream"@) {
                None => Some(None),
                Some(JsonV::Bool(b)) => Some(Some(b)),
                Some(_) => None,
            };
            match (
                model,
                messages,
                temperature,
                opt_u32(fields, "max_tokens"@),
                opt_milli_i32(fields, "top_p"@),
                opt_milli_i32(fields, "frequency_penalty"@),
                opt_milli_i32(fields, "presence_penalty"@),
                stop,
                stream,
                opt_u32(fields, "n"@),
                opt_str(fields, "user"@),
            ) {
                (
                    Some(model),
                    Some(messages),
                    Some(temperature),
                    Some(max_tokens),
                    Some(top_p),
                    Some(frequency_penalty),
                    Some(presence_penalty),
                    Some(stop),
                    Some(stream),
                    Some(n),
                    Some(user),
                ) => Some(
                    ChatCompletionRequestV {
                        model,
                        messages,
                        temperature,
                        max_tokens,
                        top_p,
                        frequency_penalty,
                        presence_penalty,
                        stop,
                        stream,
                        n,
                        user,
                    },
                ),
                _ => None,
            }
        },
        _ => None,
    }
}


proof fn lemma_view_obj_skip(fields: Seq<(String, Json)>, name: Seq<char>, i: int)
    requires
        0 <= i < fields.len(),
        view_obj(fields)[i].0 != name,
    ensures
        obj_get(view_obj(fields).skip(i), name) == obj_get(view_obj(fields).skip(i + 1), name),
{
    lemma_view_obj(fields);
    assert(view_obj(fields).skip(i).drop_first() =~= view_obj(fields).skip(i + 1));
    assert(view_obj(fields).skip(i)[0] == view_obj(fields)[i]);
}

/// Finds the first member with the given name.
fn obj_find<'a>(fields: &'a Vec<(String, Json)>, name: &String) -> (r: Option<&'a Json>)
    ensures
        r is Some <==> obj_get(view_obj(fields@), name@) is Some,
        r matches Some(j) ==> obj_get(view_obj(fields@), name@) == Some(j@),
{
    proof {
        lemma_view_obj(fields@);
        assert(view_obj(fields@).skip(0) =~= view_obj(fields@));
    }
    let mut i: usize = 0;
    while i < fields.len()
        invariant
            i <= fields@.len(),
            view_obj(fields@).len() == fields@.len(),
            forall|k: int|
                0 <= k < fields@.len() ==> #[trigger] view_obj(fields@)[k] == (
                fields@[k].0@,
                fields@[k].1@,
                ),
            obj_get(view_obj(fields@), name@) == obj_get(
                view_obj(fields@).skip(i as int),
                name@,
            ),
        decreases fields@.len() - i,
    {
        if fields[i].0 == *name {
            proof {
                assert(view_obj(fields@).skip(i as int)[0] == view_obj(fields@)[i as int]);
            }
            return Some(&fields[i].1);
        }
        proof {
            lemma_view_obj_skip(fields@, name@, i as int);
        }
        i = i + 1;
    }
    proof {
        assert(view_obj(fields@).skip(fields@.len() as int) =~= Seq::<(Seq<char>, JsonV)>::empty());
    }
    None
}

/// Finds an optional member: absent and null both mean unset.
fn opt_find<'a>(fields: &'a Vec<(String, Json)>, name: &String) -> (r: Option<&'a Json>)
    ensures
        r is Some <==> opt_member(view_obj(fields@), name@) is Some,
        r matches Some(j) ==> opt_member(view_obj(fields@), name@) == Some(j@),
{
    match obj_find(fields, name) {
        None => None,
        Some(j) => match j {
            Json::Null => None,
            _ => Some(j),
        },
    }
}

fn get_str_exec(fields: &Vec<(String, Json)>, name: &String) -> (r: Option<String>)
    ensures
        r is Some <==> get_str(view_obj(fields@), name@) is Some,
        r matches Some(v) ==> get_str(view_obj(fields@), name@) == Some(v@),
{
    match obj_find(fields, name) {
        Some(j) => match j {
            Json::Str(v) => Some(v.clone()),
            _ => None,
        },
        None => None,
    }
}

fn opt_str_exec(fields: &Vec<(String, Json)>, name: &String) -> (r: Option<Option<String>>)
    ensures
        r is Some <==> opt_str(view_obj(fields@), name@) is Some,
        r matches Some(o) ==> opt_str(view_obj(fields@), name@) == Some(
            match o {
                Some(v) => Some(v@),
                None => None,
            },
        ),
{
    match opt_find(fields, name) {
        None => Some(None),
        Some(j) => match j {
            Json::Str(v) => Some(Some(v.clone())),
            _ => None,
        },
    }
}

fn get_u32_exec(fields: &Vec<(String, Json)>, name: &String) -> (r: Option<u32>)
    ensures
        r is Some <==> get_u32(view_obj(fields@), name@) is Some,
        r matches Some(v) ==> get_u32(view_obj(fields@), name@) == Some(v),
{
    match obj_find(fields, name) {
        Some(j) => match j {
            Json::Num(m) => {
                if *m >= 0 && *m % 1000 == 0 && *m / 1000 <= (u32::MAX as i64) {
                    Some((*m / 1000) as u32)
                } else {
                    None
                }
            },
            _ => None,
        },
        None => None,
    }
}

fn opt_u32_exec(fields: &Vec<(String, Json)>, name: &String) -> (r: Option<Option<u32>>)
    ensures
        r is Some <==> opt_u32(view_obj(fields@), name@) is Some,
        r matches Some(o) ==> opt_u32(view_obj(fields@), name@) == Some(o),
{
    match opt_find(fields, name) {
        None => Some(None),
        Some(j) => match j {
            Json::Num(m) => {
                if *m >= 0 && *m % 1000 == 0 && *m / 1000 <= (u32::MAX as i64) {
                    Some(Some((*m / 1000) as u32))
                } else {
                    None
                }
            },
            _ => None,
        },
    }
}

fn get_u64_exec(fields: &Vec<(String, Json)>, name: &String) -> (r: Option<u64>)
    ensures
        r is Some <==> get_u64(view_obj(fields@), name@) is Some,
        r matches Some(v) ==> get_u64(view_obj(fields@), name@) == Some(v),
{
    match obj_find(fields, name) {
        Some(j) => match j {
            Json::Num(m) => {
                if *m >= 0 && *m % 1000 == 0 {
                    Some((*m / 1000) as u64)
                } else {
                    None
                }
            },
            _ => None,
        },
        None => None,
    }
}

fn opt_milli_i32_exec(fields: &Vec<(String, Json)>, name: &String) -> (r: Option<Option<i32>>)
    ensures
        r is Some <==> opt_milli_i32(view_obj(fields@), name@) is Some,
        r matches Some(o) ==> opt_milli_i32(view_obj(fields@), name@) == Some(
            match o {
                Some(v) => Some(v as int),
                None => None,
            },
        ),
{
    match opt_find(fields, name) {
        None => Some(None),
        Some(j) => match j {
            Json::Num(m) => {
                if *m >= (i32::MIN as i64) && *m <= (i32::MAX as i64) {
                    Some(Some(*m as i32))
                } else {
                    None
                }
            },
            _ => None,
        },
    }
}

fn function_call_from_json(j: &Json) -> (r: Option<FunctionCall>)
    ensures
        r is Some <==> spec_function_call_from_json(j@) is Some,
        r matches Some(f) ==> spec_function_call_from_json(j@) == Some(f@),
{
    match j {
        Json::Obj(fields) => {
            let name = get_str_exec(fields, &String::from_str("name"));
            let arguments = get_str_exec(fields, &String::from_str("arguments"));
            match (name, arguments) {
                (Some(name), Some(arguments)) => Some(FunctionCall { name, arguments }),
                _ => None,
            }
        },
        _ => None,
    }
}

fn tool_call_from_json(j: &Json) -> (r: Option<ToolCall>)
    ensures
        r is Some <==> spec_tool_call_from_json(j@) is Some,
        r matches Some(t) ==> spec_tool_call_from_json(j@) == Some(t@),
{
    match j {
        Json::Obj(fields) => {
            let id = get_str_exec(fields, &String::from_str("id"));
            let kind = get_str_exec(fields, &String::from_str("type"));
            let function = match obj_find(fields, &String::from_str("function")) {
                Some(f) => function_call_from_json(f),
                None => None,
            };
            match (id, kind, function) {
                (Some(id), Some(kind), Some(function)) => Some(ToolCall { id, kind, function }),
                _ => None,
            }
        },
        _ => None,
    }
}

fn tool_calls_from_json(items: &Vec<Json>, i: usize) -> (r: Option<Vec<ToolCall>>)
    requires
        i <= items@.len(),
    ensures
        r is Some <==> spec_tool_calls_from_json(view_arr(items@).skip(i as int)) is Some,
        r matches Some(ts) ==> spec_tool_calls_from_json(view_arr(items@).skip(i as int)) == Some(
            ts@.map_values(|t: ToolCall| t@),
        ),
    decreases items@.len() - i,
{
    proof {
        lemma_view_arr(items@);
    }
    if i == items.len() {
        let ts: Vec<ToolCall> = Vec::new();
        proof {
            assert(view_arr(items@).skip(i as int) =~= Seq::<JsonV>::empty());
            assert(ts@.map_values(|t: ToolCall| t@) =~= Seq::<ToolCallV>::empty());
        }
        Some(ts)
    } else {
        proof {
            assert(view_arr(items@).skip(i as int)[0] == items@[i as int]@);
            assert(view_arr(items@).skip(i as int).drop_first() =~= view_arr(items@).skip(
                i as int + 1,
            ));
        }
        match tool_call_from_json(&items[i]) {
            None => None,
            Some(t) => match tool_calls_from_json(items, i + 1) {
                None => None,
                Some(rest) => {
                    let ghost grest = rest@;
                    let mut ts = rest;
                    ts.insert(0, t);
                    proof {
                        assert(ts@.map_values(|t2: ToolCall| t2@) =~= seq![t@]
                            + grest.map_values(|t2: ToolCall| t2@));
                    }
                    Some(ts)
                },
            },
        }
    }
}

fn message_from_json(j: &Json) -> (r: Option<ResponseMessage>)
    ensures
        r is Some <==> spec_message_from_json(j@) is Some,
        r matches Some(m) ==> spec_message_from_json(j@) == Some(m@),
{
    match j {
        Json::Obj(fields) => {
            let role = get_str_exec(fields, &String::from_str("role"));
            let content = opt_str_exec(fields, &String::from_str("content"));
            let reasoning_content = opt_str_exec(fields, &String::from_str("reasoning_content"));
            let function_call: Option<Option<FunctionCall>> = match opt_find(
                fields,
                &String::from_str("function_call"),
            ) {
                None => Some(None),
                Some(f) => match function_call_from_json(f) {
                    Some(fc) => Some(Some(fc)),
                    None => None,
                },
            };
            let tool_calls: Option<Option<Vec<ToolCall>>> = match opt_find(
                fields,
                &String::from_str("tool_calls"),
            ) {
                None => Some(None),
                Some(t) => match t {
                    Json::Arr(items) => {
                        proof {
                            assert(view_arr(items@).skip(0) =~= view_arr(items@));
                        }
                        match tool_calls_from_json(items, 0) {
                            Some(ts) => Some(Some(ts)),
                            None => None,
                        }
                    },
                    _ => None,
                },
            };
            match (role, content, reasoning_content, function_call, tool_calls) {
                (Some(role), Some(content), Some(reasoning_content), Some(fc), Some(tc)) => Some(
                    ResponseMessage {
                        role,
                        content,
                        reasoning_content,
                        function_call: fc,
                        tool_calls: tc,
                    },
                ),
                _ => None,
            }
        },
        _ => None,
    }
}

fn choice_from_json(j: &Json) -> (r: Option<Choice>)
    ensures
        r is Some <==> spec_choice_from_json(j@) is Some,
        r matches Some(c) ==> spec_choice_from_json(j@) == Some(c@),
{
    match j {
        Json::Obj(fields) => {
            let index = get_u32_exec(fields, &String::from_str("index"));
            let message = match obj_find(fields, &String::from_str("message")) {
                Some(m) => message_from_json(m),
                None => None,
            };
            let finish_reason = opt_str_exec(fields, &String::from_str("finish_reason"));
            let logprobs: Option<Json> = match opt_find(fields, &String::from_str("logprobs")) {
                Some(l) => Some(l.clone()),
                None => None,
            };
            match (index, message, finish_reason) {
                (Some(index), Some(message), Some(finish_reason)) => Some(
                    Choice { index, message, finish_reason, logprobs },
                ),
                _ => None,
            }
        },
        _ => None,
    }
}

fn choices_from_json(items: &Vec<Json>, i: usize) -> (r: Option<Vec<Choice>>)
    requires
        i <= items@.len(),
    ensures
        r is Some <==> spec_choices_from_json(view_arr(items@).skip(i as int)) is Some,
        r matches Some(cs) ==> spec_choices_from_json(view_arr(items@).skip(i as int)) == Some(
            cs@.map_values(|c: Choice| c@),
        ),
    decreases items@.len() - i,
{
    proof {
        lemma_view_arr(items@);
    }
    if i == items.len() {
        let cs: Vec<Choice> = Vec::new();
        proof {
            assert(view_arr(items@).skip(i as int) =~= Seq::<JsonV>::empty());
            assert(cs@.map_values(|c: Choice| c@) =~= Seq::<ChoiceV>::empty());
        }
        Some(cs)
    } else {
        proof {
            assert(view_arr(items@).skip(i as int)[0] == items@[i as int]@);
            assert(view_arr(items@).skip(i as int).drop_first() =~= view_arr(items@).skip(
                i as int + 1,
            ));
        }
        match choice_from_json(&items[i]) {
            None => None,
            Some(c) => match choices_from_json(items, i + 1) {
                None => None,
                Some(rest) => {
                    let ghost grest = rest@;
                    let mut cs = rest;
                    cs.insert(0, c);
                    proof {
                        assert(cs@.map_values(|c2: Choice| c2@) =~= seq![c@] + grest.map_values(
                            |c2: Choice| c2@,
                        ));
                    }
                    Some(cs)
                },
            },
        }
    }
}

fn usage_from_json(j: &Json) -> (r: Option<Usage>)
    ensures
        r is Some <==> spec_usage_from_json(j@) is Some,
        r matches Some(u) ==> spec_usage_from_json(j@) == Some(u),
{
    match j {
        Json::Obj(fields) => {
            let p = get_u32_exec(fields, &String::from_str("prompt_tokens"));
            let c = get_u32_exec(fields, &String::from_str("completion_tokens"));
            let t = get_u32_exec(fields, &String::from_str("total_tokens"));
            let rt = opt_u32_exec(fields, &String::from_str("reasoning_tokens"));
            let ht = opt_u32_exec(fields, &String::from_str("prompt_cache_hit_tokens"));
            let mt = opt_u32_exec(fields, &String::from_str("prompt_cache_miss_tokens"));
            match (p, c, t, rt, ht, mt) {
                (Some(p), Some(c), Some(t), Some(rt), Some(ht), Some(mt)) => Some(
                    Usage {
                        prompt_tokens: p,
                        completion_tokens: c,
                        total_tokens: t,
                        reasoning_tokens: rt,
                        prompt_cache_hit_tokens: ht,
                        prompt_cache_miss_tokens: mt,
                    },
                ),
                _ => None,
            }
        },
        _ => None,
    }
}

/// Decodes a success-response document into the typed response; fails with a
/// parse error exactly when the document does not match the success shape.
pub fn response_from_json(j: &Json) -> (r: Result<ChatCompletionResponse, DeepSeekError>)
    ensures
        r is Ok <==> spec_response_from_json(j@) is Some,
        r matches Ok(resp) ==> spec_response_from_json(j@) == Some(resp@),
        r matches Err(e) ==> e matches DeepSeekError::JsonError(m) && m@
            == "body does not match the completion shape"@,
{
    let fail_msg = "body does not match the completion shape";
    match j {
        Json::Obj(fields) => {
            let id = get_str_exec(fields, &String::from_str("id"));
            let object = get_str_exec(fields, &String::from_str("object"));
            let created = get_u64_exec(fields, &String::from_str("created"));
            let model = get_str_exec(fields, &String::from_str("model"));
            let choices: Option<Vec<Choice>> = match obj_find(
                fields,
                &String::from_str("choices"),
            ) {
                Some(c) => match c {
                    Json::Arr(items) => {
                        proof {
                            assert(view_arr(items@).skip(0) =~= view_arr(items@));
                        }
                        choices_from_json(items, 0)
                    },
                    _ => None,
                },
                None => None,
            };
            let usage: Option<Option<Usage>> = match opt_find(fields, &String::from_str("usage")) {
                None => Some(None),
                Some(u) => match usage_from_json(u) {
                    Some(us) => Some(Some(us)),
                    None => None,
                },
            };
            let fingerprint = opt_str_exec(fields, &String::from_str("system_fingerprint"));
            match (id, object, created, model, choices, usage, fingerprint) {
                (
                    Some(id),
                    Some(object),
                    Some(created),
                    Some(model),
                    Some(choices),
                    Some(usage),
                    Some(system_fingerprint),
                ) => Ok(
                    ChatCompletionResponse {
                        id,
                        object,
                        created,
                        model,
                        choices,
                        usage,
                        system_fingerprint,
                    },
                ),
                _ => Err(DeepSeekError::JsonError(String::from_str(fail_msg))),
            }
        },
        _ => Err(DeepSeekError::JsonError(String::from_str(fail_msg))),
    }
}

/// Decodes an API-error document into the typed error shape; absent exactly
/// when the document does not match the error shape.
pub fn api_error_from_json(j: &Json) -> (r: Option<ApiErrorResponse>)
    ensures
        r is Some <==> spec_api_error_from_json(j@) is Some,
        r matches Some(a) ==> spec_api_error_from_json(j@) == Some(a@),
{
    match j {
        Json::Obj(fields) => match obj_find(fields, &String::from_str("error")) {
            Some(e) => match e {
                Json::Obj(efields) => {
                    let message = get_str_exec(efields, &String::from_str("message"));
                    let kind = opt_str_exec(efields, &String::from_str("type"));
                    let code = opt_str_exec(efields, &String::from_str("code"));
                    let param = opt_str_exec(efields, &String::from_str("param"));
                    match (message, kind, code, param) {
                        (Some(message), Some(kind), Some(code), Some(param)) => Some(
                            ApiErrorResponse {
                                error: ApiErrorDetail { message, kind, code, param },
                            },
                        ),
                        _ => None,
                    }
                },
                _ => None,
            },
            None => None,
        },
        _ => None,
    }
}


/// The wire document of one request message: `{"role", "content"}`.
pub open spec fn spec_message_json(m: MessageV) -> JsonV {
    JsonV::Obj(
        seq![
            ("role"@, JsonV::Str(spec_role_name(m.role))),
            ("content"@, JsonV::Str(m.content)),
        ],
    )
}

/// Appends a member to an object's member list when one is present.
pub open spec fn with_member(
    f: Seq<(Seq<char>, JsonV)>,
    m: Option<(Seq<char>, JsonV)>,
) -> Seq<(Seq<char>, JsonV)> {
    match m {
        Some(x) => f.push(x),
        None => f,
    }
}

/// The members of a request's wire document: `model` and `messages` always,
/// then each optional parameter appended exactly when it is set, in the
/// order temperature, max_tokens, top_p, frequency_penalty,
/// presence_penalty, stop, stream, n, user.
pub open spec fn spec_request_fields(r: ChatCompletionRequestV) -> Seq<(Seq<char>, JsonV)> {
    let f = seq![
        ("model"@, JsonV::Str(spec_model_name(r.model))),
        ("messages"@, JsonV::Arr(r.messages.map_values(|m: MessageV| spec_message_json(m)))),
    ];
    let f = with_member(
        f,
        match r.temperature {
            Some(t) => Some(("temperature"@, JsonV::Num(t))),
            None => None,
        },
    );
    let f = with_member(
        f,
        match r.max_tokens {
            Some(v) => Some(("max_tokens"@, JsonV::Num(v as int * 1000))),
            None => None,
        },
    );
    let f = with_member(
        f,
        match r.top_p {
            Some(p) => Some(("top_p"@, JsonV::Num(p))),
            None => None,
        },
    );
    let f = with_member(
        f,
        match r.frequency_penalty {
            Some(p) => Some(("frequency_penalty"@, JsonV::Num(p))),
            None => None,
        },
    );
    let f = with_member(
        f,
        match r.presence_penalty {
            Some(p) => Some(("presence_penalty"@, JsonV::Num(p))),
            None => None,
        },
    );
    let f = with_member(
        f,
        match r.stop {
            Some(ss) => Some(
                ("stop"@, JsonV::Arr(ss.map_values(|s2: Seq<char>| JsonV::Str(s2)))),
            ),
            None => None,
        },
    );
    let f = with_member(
        f,
        match r.stream {
            Some(b) => Some(("stream"@, JsonV::Bool(b))),
            None => None,
        },
    );
    let f = with_member(
        f,
        match r.n {
            Some(v) => Some(("n"@, JsonV::Num(v as int * 1000))),
            None => None,
        },
    );
    let f = with_member(
        f,
        match r.user {
            Some(u) => Some(("user"@, JsonV::Str(u))),
            None => None,
        },
    );
    f
}

/// The wire document of a request: optional members are omitted, never null,
/// when unset.
pub open spec fn spec_request_json(r: ChatCompletionRequestV) -> JsonV {
    JsonV::Obj(spec_request_fields(r))
}

/// Appending one member extends the member views by that member.
proof fn lemma_view_obj_push(s: Seq<(String, Json)>, x: (String, Json))
    ensures
        view_obj(s.push(x)) == view_obj(s).push((x.0@, x.1@)),
{
    lemma_view_obj(s);
    lemma_view_obj(s.push(x));
    assert(view_obj(s.push(x)) =~= view_obj(s).push((x.0@, x.1@)));
}

fn push_member(fields: &mut Vec<(String, Json)>, name: &str, value: Json)
    ensures
        view_obj(final(fields)@) == view_obj(old(fields)@).push((name@, value@)),
{
    let ghost fprev = fields@;
    fields.push((String::from_str(name), value));
    proof {
        assert(fields@ == fprev.push(fields@[fields@.len() - 1]));
        lemma_view_obj_push(fprev, fields@[fields@.len() - 1]);
    }
}

fn message_to_json(m: &Message) -> (j: Json)
    ensures
        j@ == spec_message_json(m@),
{
    let mut fields: Vec<(String, Json)> = Vec::new();
    fields.push((String::from_str("role"), Json::Str(String::from_str(m.role.as_str()))));
    fields.push((String::from_str("content"), Json::Str(m.content.clone())));
    proof {
        lemma_view_obj(fields@);
        assert(view_obj(fields@) =~= seq![
            ("role"@, JsonV::Str(spec_role_name(m.role))),
            ("content"@, JsonV::Str(m.content@)),
        ]);
    }
    Json::Obj(fields)
}

/// Encodes a request as its wire document. Optional members are omitted
/// entirely when unset.
#[verifier::rlimit(100)]
pub fn request_to_json(req: &ChatCompletionRequest) -> (j: Json)
    ensures
        j@ == spec_request_json(req@),
{
    let ghost rv = req@;
    let mut fields: Vec<(String, Json)> = Vec::new();
    push_member(&mut fields, "model", Json::Str(String::from_str(req.model.as_str())));
    let mut msgs: Vec<Json> = Vec::new();
    let mut i: usize = 0;
    while i < req.messages.len()
        invariant
            i <= req.messages@.len(),
            msgs@.len() == i,
            forall|k: int| 0 <= k < i ==> #[trigger] msgs@[k]@ == spec_message_json(
                req.messages@[k]@,
            ),
        decreases req.messages@.len() - i,
    {
        msgs.push(message_to_json(&req.messages[i]));
        i = i + 1;
    }
    proof {
        lemma_view_arr(msgs@);
        assert(view_arr(msgs@) =~= rv.messages.map_values(|m: MessageV| spec_message_json(m)));
    }
    push_member(&mut fields, "messages", Json::Arr(msgs));
    let ghost base: Seq<(Seq<char>, JsonV)> = seq![
        ("model"@, JsonV::Str(spec_model_name(rv.model))),
        ("messages"@, JsonV::Arr(rv.messages.map_values(|m: MessageV| spec_message_json(m)))),
    ];
    proof {
        assert(view_obj(Seq::<(String, Json)>::empty()) =~= Seq::<(Seq<char>, JsonV)>::empty());
        assert(view_obj(fields@) =~= base);
    }
    if let Some(t) = &req.temperature {
        push_member(&mut fields, "temperature", Json::Num(t.value() as i64));
    }
    let ghost g1 = with_member(
        base,
        match rv.temperature {
            Some(t) => Some(("temperature"@, JsonV::Num(t))),
            None => None,
        },
    );
    proof {
        assert(view_obj(fields@) == g1);
    }
    if let Some(v) = req.max_tokens {
        push_member(&mut fields, "max_tokens", Json::Num((v as i64) * 1000));
    }
    let ghost g2 = with_member(
        g1,
        match rv.max_tokens {
            Some(v) => Some(("max_tokens"@, JsonV::Num(v as int * 1000))),
            None => None,
        },
    );
    proof {
        assert(view_obj(fields@) == g2);
    }
    if let Some(p) = req.top_p {
        push_member(&mut fields, "top_p", Json::Num(p as i64));
    }
    let ghost g3 = with_member(
        g2,
        match rv.top_p {
            Some(p) => Some(("top_p"@, JsonV::Num(p))),
            None => None,
        },
    );
    proof {
        assert(view_obj(fields@) == g3);
    }
    if let Some(p) = req.frequency_penalty {
        push_member(&mut fields, "frequency_penalty", Json::Num(p as i64));
    }
    let ghost g4 = with_member(
        g3,
        match rv.frequency_penalty {
            Some(p) => Some(("frequency_penalty"@, JsonV::Num(p))),
            None => None,
        },
    );
    proof {
        assert(view_obj(fields@) == g4);
    }
    if let Some(p) = req.presence_penalty {
        push_member(&mut fields, "presence_penalty", Json::Num(p as i64));
    }
    let ghost g5 = with_member(
        g4,
        match rv.presence_penalty {
            Some(p) => Some(("presence_penalty"@, JsonV::Num(p))),
            None => None,
        },
    );
    proof {
        assert(view_obj(fields@) == g5);
    }
    if let Some(ss) = &req.stop {
        let mut stops: Vec<Json> = Vec::new();
        let mut k: usize = 0;
        while k < ss.len()
            invariant
                k <= ss@.len(),
                stops@.len() == k,
                forall|t: int| 0 <= t < k ==> #[trigger] stops@[t]@ == JsonV::Str(ss@[t]@),
            decreases ss@.len() - k,
        {
            stops.push(Json::Str(ss[k].clone()));
            k = k + 1;
        }
        proof {
            lemma_view_arr(stops@);
            assert(view_arr(stops@) =~= ss@.map_values(|s2: String| s2@).map_values(
                |s2: Seq<char>| JsonV::Str(s2),
            ));
        }
        push_member(&mut fields, "stop", Json::Arr(stops));
    }
    let ghost g6 = with_member(
        g5,
        match rv.stop {
            Some(ss) => Some(
                ("stop"@, JsonV::Arr(ss.map_values(|s2: Seq<char>| JsonV::Str(s2)))),
            ),
            None => None,
        },
    );
    proof {
        assert(view_obj(fields@) == g6);
    }
    if let Some(b) = req.stream {
        push_member(&mut fields, "stream", Json::Bool(b));
    }
    let ghost g7 = with_member(
        g6,
        match rv.stream {
            Some(b) => Some(("stream"@, JsonV::Bool(b))),
            None => None,
        },
    );
    proof {
        assert(view_obj(fields@) == g7);
    }
    if let Some(v) = req.n {
        push_member(&mut fields, "n", Json::Num((v as i64) * 1000));
        proof {
            assert(((v as i64) * 1000) as int == v as int * 1000);
            assert(view_obj(fields@) == g7.push(("n"@, JsonV::Num(v as int * 1000))));
        }
    }
    let ghost g8 = with_member(
        g7,
        match rv.n {
            Some(v) => Some(("n"@, JsonV::Num(v as int * 1000))),
            None => None,
        },
    );
    proof {
        assert(view_obj(fields@) == g8);
    }
    if let Some(u) = &req.user {
        push_member(&mut fields, "user", Json::Str(u.clone()));
        proof {
            assert(view_obj(fields@) == g8.push(("user"@, JsonV::Str(u@))));
        }
    }
    let ghost g9 = with_member(
        g8,
        match rv.user {
            Some(u) => Some(("user"@, JsonV::Str(u))),
            None => None,
        },
    );
    proof {
        assert(view_obj(fields@) == g9);
        assert(g9 == spec_request_fields(rv));
    }
    Json::Obj(fields)
}

/// Decodes a request document back into the typed request; fails with a
/// parse error exactly when the document does not match the request shape.
pub fn request_from_json(j: &Json) -> (r: Result<ChatCompletionRequest, DeepSeekError>)
    ensures
        r is Ok <==> spec_request_from_json(j@) is Some,
        r matches Ok(req) ==> spec_request_from_json(j@) == Some(req@),
        r matches Err(e) ==> e matches DeepSeekError::JsonError(m) && m@
            == "body does not match the request shape"@,
{
    let fail_msg = "body does not match the request shape";
    match j {
        Json::Obj(fields) => {
            let model: Option<Model> = match get_str_exec(fields, &String::from_str("model")) {
                Some(name) => model_of_name(&name),
                None => None,
            };
            let messages: Option<Vec<Message>> = match obj_find(
                fields,
                &String::from_str("messages"),
            ) {
                Some(m) => match m {
                    Json::Arr(items) => {
                        proof {
                            assert(view_arr(items@).skip(0) =~= view_arr(items@));
                        }
                        req_messages_from_json(items, 0)
                    },
                    _ => None,
                },
                None => None,
            };
            let temperature: Option<Option<Temperature>> = match opt_find(
                fields,
                &String::from_str("temperature"),
            ) {
                None => Some(None),
                Some(t) => match t {
                    Json::Num(m) => {
                        if *m >= 0 && *m <= 2000 {
                            Some(Some(Temperature::new_unchecked(*m as i32)))
                        } else {
                            None
                        }
                    },
                    _ => None,
                },
            };
            let max_tokens = opt_u32_exec(fields, &String::from_str("max_tokens"));
            let top_p = opt_milli_i32_exec(fields, &String::from_str("top_p"));
            let frequency_penalty = opt_milli_i32_exec(
                fields,
                &String::from_str("frequency_penalty"),
            );
            let presence_penalty = opt_milli_i32_exec(
                fields,
                &String::from_str("presence_penalty"),
            );
            let stop: Option<Option<Vec<String>>> = match opt_find(
                fields,
                &String::from_str("stop"),
            ) {
                None => Some(None),
                Some(t) => match t {
                    Json::Arr(items) => {
                        proof {
                            assert(view_arr(items@).skip(0) =~= view_arr(items@));
                        }
                        match stops_from_json(items, 0) {
                            Some(ss) => Some(Some(ss)),
                            None => None,
                        }
                    },
                    _ => None,
                },
            };
            let stream: Option<Option<bool>> = match opt_find(
                fields,
                &String::from_str("stream"),
            ) {
                None => Some(None),
                Some(t) => match t {
                    Json::Bool(b) => Some(Some(*b)),
                    _ => None,
                },
            };
            let n = opt_u32_exec(fields, &String::from_str("n"));
            let user = opt_str_exec(fields, &String::from_str("user"));
            match (
                model,
                messages,
                temperature,
                max_tokens,
                top_p,
                frequency_penalty,
                presence_penalty,
                stop,
                stream,
                n,
                user,
            ) {
                (
                    Some(model),
                    Some(messages),
                    Some(temperature),
                    Some(max_tokens),
                    Some(top_p),
                    Some(frequency_penalty),
                    Some(presence_penalty),
                    Some(stop),
                    Some(stream),
                    Some(n),
                    Some(user),
                ) => Ok(
                    ChatCompletionRequest {
                        model,
                        messages,
                        temperature,
                        max_tokens,
                        top_p,
                        frequency_penalty,
                        presence_penalty,
                        stop,
                        stream,
                        n,
                        user,
                    },
                ),
                _ => Err(DeepSeekError::JsonError(String::from_str(fail_msg))),
            }
        },
        _ => Err(DeepSeekError::JsonError(String::from_str(fail_msg))),
    }
}

fn model_of_name(name: &String) -> (r: Option<Model>)
    ensures
        r == spec_model_of_name(name@),
{
    if *name == String::from_str("deepseek-chat") {
        Some(Model::Chat)
    } else if *name == String::from_str("deepseek-reasoner") {
        Some(Model::Reasoner)
    } else if *name == String::from_str("deepseek-coder") {
        Some(Model::Coder)
    } else {
        None
    }
}

fn role_of_name(name: &String) -> (r: Option<Role>)
    ensures
        r == spec_role_of_name(name@),
{
    if *name == String::from_str("system") {
        Some(Role::System)
    } else if *name == String::from_str("user") {
        Some(Role::User)
    } else if *name == String::from_str("assistant") {
        Some(Role::Assistant)
    } else {
        None
    }
}

fn req_message_from_json(j: &Json) -> (r: Option<Message>)
    ensures
        r is Some <==> spec_req_message_from_json(j@) is Some,
        r matches Some(m) ==> spec_req_message_from_json(j@) == Some(m@),
{
    match j {
        Json::Obj(fields) => {
            let role = get_str_exec(fields, &String::from_str("role"));
            let content = get_str_exec(fields, &String::from_str("content"));
            match (role, content) {
                (Some(role), Some(content)) => match role_of_name(&role) {
                    Some(r2) => Some(Message { role: r2, content }),
                    None => None,
                },
                _ => None,
            }
        },
        _ => None,
    }
}

fn req_messages_from_json(items: &Vec<Json>, i: usize) -> (r: Option<Vec<Message>>)
    requires
        i <= items@.len(),
    ensures
        r is Some <==> spec_req_messages_from_json(view_arr(items@).skip(i as int)) is Some,
        r matches Some(ms) ==> spec_req_messages_from_json(view_arr(items@).skip(i as int))
            == Some(ms@.map_values(|m: Message| m@)),
    decreases items@.len() - i,
{
    proof {
        lemma_view_arr(items@);
    }
    if i == items.len() {
        let ms: Vec<Message> = Vec::new();
        proof {
            assert(view_arr(items@).skip(i as int) =~= Seq::<JsonV>::empty());
            assert(ms@.map_values(|m: Message| m@) =~= Seq::<MessageV>::empty());
        }
        Some(ms)
    } else {
        proof {
            assert(view_arr(items@).skip(i as int)[0] == items@[i as int]@);
            assert(view_arr(items@).skip(i as int).drop_first() =~= view_arr(items@).skip(
                i as int + 1,
            ));
        }
        match req_message_from_json(&items[i]) {
            None => None,
            Some(m) => match req_messages_from_json(items, i + 1) {
                None => None,
                Some(rest) => {
                    let ghost grest = rest@;
                    let mut ms = rest;
                    ms.insert(0, m);
                    proof {
                        assert(ms@.map_values(|m2: Message| m2@) =~= seq![m@] + grest.map_values(
                            |m2: Message| m2@,
                        ));
                    }
                    Some(ms)
                },
            },
        }
    }
}

fn stops_from_json(items: &Vec<Json>, i: usize) -> (r: Option<Vec<String>>)
    requires
        i <= items@.len(),
    ensures
        r is Some <==> spec_stops_from_json(view_arr(items@).skip(i as int)) is Some,
        r matches Some(ss) ==> spec_stops_from_json(view_arr(items@).skip(i as int)) == Some(
            ss@.map_values(|s2: String| s2@),
        ),
    decreases items@.len() - i,
{
    proof {
        lemma_view_arr(items@);
    }
    if i == items.len() {
        let ss: Vec<String> = Vec::new();
        proof {
            assert(view_arr(items@).skip(i as int) =~= Seq::<JsonV>::empty());
            assert(ss@.map_values(|s2: String| s2@) =~= Seq::<Seq<char>>::empty());
        }
        Some(ss)
    } else {
        proof {
            assert(view_arr(items@).skip(i as int)[0] == items@[i as int]@);
            assert(view_arr(items@).skip(i as int).drop_first() =~= view_arr(items@).skip(
                i as int + 1,
            ));
        }
        match &items[i] {
            Json::Str(s2) => match stops_from_json(items, i + 1) {
                None => None,
                Some(rest) => {
                    let ghost grest = rest@;
                    let mut ss = rest;
                    ss.insert(0, s2.clone());
                    proof {
                        assert(ss@.map_values(|t: String| t@) =~= seq![s2@] + grest.map_values(
                            |t: String| t@,
                        ));
                    }
                    Some(ss)
                },
            },
            _ => None,
        }
    }
}

/// Looking a name up after appending one member finds the earlier binding
/// first, then the appended one.
proof fn lemma_obj_get_push(s: Seq<(Seq<char>, JsonV)>, x: (Seq<char>, JsonV))
    ensures
        forall|n: Seq<char>| #[trigger] obj_get(s.push(x), n) == (if obj_get(s, n) is Some {
            obj_get(s, n)
        } else if x.0 == n {
            Some(x.1)
        } else {
            None
        }),
    decreases s.len(),
{
    if s.len() == 0 {
        assert forall|n: Seq<char>| #[trigger] obj_get(s.push(x), n) == (if obj_get(s, n) is Some {
            obj_get(s, n)
        } else if x.0 == n {
            Some(x.1)
        } else {
            None
        }) by {
            reveal_with_fuel(obj_get, 3);
            assert(s.push(x) =~= seq![x]);
            assert(seq![x].drop_first() =~= Seq::<(Seq<char>, JsonV)>::empty());
        }
    } else {
        lemma_obj_get_push(s.drop_first(), x);
        assert forall|n: Seq<char>| #[trigger] obj_get(s.push(x), n) == (if obj_get(s, n) is Some {
            obj_get(s, n)
        } else if x.0 == n {
            Some(x.1)
        } else {
            None
        }) by {
            reveal_with_fuel(obj_get, 3);
            assert(s.push(x).drop_first() =~= s.drop_first().push(x));
            assert(s.push(x)[0] == s[0]);
            assert(obj_get(s.drop_first().push(x), n) == (if obj_get(s.drop_first(), n) is Some {
                obj_get(s.drop_first(), n)
            } else if x.0 == n {
                Some(x.1)
            } else {
                None
            }));
        }
    }
}

/// What each member name of a request document is bound to: the two fixed
/// members always, and each optional member exactly when its field is set.
proof fn lemma_request_fields_lookup(r: ChatCompletionRequestV)
    ensures
        obj_get(spec_request_fields(r), "model"@) == Some(
            JsonV::Str(spec_model_name(r.model)),
        ),
        obj_get(spec_request_fields(r), "messages"@) == Some(
            JsonV::Arr(r.messages.map_values(|m: MessageV| spec_message_json(m))),
        ),
        obj_get(spec_request_fields(r), "temperature"@) == (match r.temperature {
            Some(t) => Some(JsonV::Num(t)),
            None => None,
        }),
        obj_get(spec_request_fields(r), "max_tokens"@) == (match r.max_tokens {
            Some(v) => Some(JsonV::Num(v as int * 1000)),
            None => None,
        }),
        obj_get(spec_request_fields(r), "top_p"@) == (match r.top_p {
            Some(p) => Some(JsonV::Num(p)),
            None => None,
        }),
        obj_get(spec_request_fields(r), "frequency_penalty"@) == (match r.frequency_penalty {
            Some(p) => Some(JsonV::Num(p)),
            None => None,
        }),
        obj_get(spec_request_fields(r), "presence_penalty"@) == (match r.presence_penalty {
            Some(p) => Some(JsonV::Num(p)),
            None => None,
        }),
        obj_get(spec_request_fields(r), "stop"@) == (match r.stop {
            Some(ss) => Some(JsonV::Arr(ss.map_values(|s2: Seq<char>| JsonV::Str(s2)))),
            None => None,
        }),
        obj_get(spec_request_fields(r), "stream"@) == (match r.stream {
            Some(b) => Some(JsonV::Bool(b)),
            None => None,
        }),
        obj_get(spec_request_fields(r), "n"@) == (match r.n {
            Some(v) => Some(JsonV::Num(v as int * 1000)),
            None => None,
        }),
        obj_get(spec_request_fields(r), "user"@) == (match r.user {
            Some(u) => Some(JsonV::Str(u)),
            None => None,
        }),
{
    reveal_strlit("model");
    reveal_strlit("messages");
    reveal_strlit("temperature");
    reveal_strlit("max_tokens");
    reveal_strlit("top_p");
    reveal_strlit("frequency_penalty");
    reveal_strlit("presence_penalty");
    reveal_strlit("stop");
    reveal_strlit("stream");
    reveal_strlit("n");
    reveal_strlit("user");
    assert("model"@.len() == 5);
    assert("messages"@.len() == 8);
    assert("temperature"@.len() == 11);
    assert("max_tokens"@.len() == 10);
    assert("top_p"@.len() == 5);
    assert("frequency_penalty"@.len() == 17);
    assert("presence_penalty"@.len() == 16);
    assert("stop"@.len() == 4);
    assert("stream"@.len() == 6);
    assert("n"@.len() == 1);
    assert("user"@.len() == 4);
    assert("model"@[0] == 'm' && "top_p"@[0] == 't');
    assert("model"@ != "top_p"@);
    assert("stop"@[0] == 's');
    assert("user"@[0] == 'u');
    assert("stop"@ != "user"@);
    let f0: Seq<(Seq<char>, JsonV)> = seq![
        ("model"@, JsonV::Str(spec_model_name(r.model))),
        ("messages"@, JsonV::Arr(r.messages.map_values(|m: MessageV| spec_message_json(m)))),
    ];
    assert forall|n: Seq<char>| #[trigger] obj_get(f0, n) == (if "model"@ == n {
        Some(JsonV::Str(spec_model_name(r.model)))
    } else if "messages"@ == n {
        Some(JsonV::Arr(r.messages.map_values(|m: MessageV| spec_message_json(m))))
    } else {
        None
    }) by {
        reveal_with_fuel(obj_get, 4);
        assert(f0.drop_first() =~= seq![
            (
                "messages"@,
                JsonV::Arr(r.messages.map_values(|m: MessageV| spec_message_json(m))),
            ),
        ]);
        assert(f0.drop_first().drop_first() =~= Seq::<(Seq<char>, JsonV)>::empty());
    }
    let f1 = with_member(
        f0,
        match r.temperature {
            Some(t) => Some(("temperature"@, JsonV::Num(t))),
            None => None,
        },
    );
    if r.temperature is Some {
        lemma_obj_get_push(f0, ("temperature"@, JsonV::Num(r.temperature->0)));
    }
    let f2 = with_member(
        f1,
        match r.max_tokens {
            Some(v) => Some(("max_tokens"@, JsonV::Num(v as int * 1000))),
            None => None,
        },
    );
    if r.max_tokens is Some {
        lemma_obj_get_push(f1, ("max_tokens"@, JsonV::Num(r.max_tokens->0 as int * 1000)));
    }
    let f3 = with_member(
        f2,
        match r.top_p {
            Some(p) => Some(("top_p"@, JsonV::Num(p))),
            None => None,
        },
    );
    if r.top_p is Some {
        lemma_obj_get_push(f2, ("top_p"@, JsonV::Num(r.top_p->0)));
    }
    let f4 = with_member(
        f3,
        match r.frequency_penalty {
            Some(p) => Some(("frequency_penalty"@, JsonV::Num(p))),
            None => None,
        },
    );
    if r.frequency_penalty is Some {
        lemma_obj_get_push(f3, ("frequency_penalty"@, JsonV::Num(r.frequency_penalty->0)));
    }
    let f5 = with_member(
        f4,
        match r.presence_penalty {
            Some(p) => Some(("presence_penalty"@, JsonV::Num(p))),
            None => None,
        },
    );
    if r.presence_penalty is Some {
        lemma_obj_get_push(f4, ("presence_penalty"@, JsonV::Num(r.presence_penalty->0)));
    }
    let f6 = with_member(
        f5,
        match r.stop {
            Some(ss) => Some(
                ("stop"@, JsonV::Arr(ss.map_values(|s2: Seq<char>| JsonV::Str(s2)))),
            ),
            None => None,
        },
    );
    if r.stop is Some {
        lemma_obj_get_push(
            f5,
            ("stop"@, JsonV::Arr(r.stop->0.map_values(|s2: Seq<char>| JsonV::Str(s2)))),
        );
    }
    let f7 = with_member(
        f6,
        match r.stream {
            Some(b) => Some(("stream"@, JsonV::Bool(b))),
            None => None,
        },
    );
    if r.stream is Some {
        lemma_obj_get_push(f6, ("stream"@, JsonV::Bool(r.stream->0)));
    }
    let f8 = with_member(
        f7,
        match r.n {
            Some(v) => Some(("n"@, JsonV::Num(v as int * 1000))),
            None => None,
        },
    );
    if r.n is Some {
        lemma_obj_get_push(f7, ("n"@, JsonV::Num(r.n->0 as int * 1000)));
    }
    let f9 = with_member(
        f8,
        match r.user {
            Some(u) => Some(("user"@, JsonV::Str(u))),
            None => None,
        },
    );
    if r.user is Some {
        lemma_obj_get_push(f8, ("user"@, JsonV::Str(r.user->0)));
    }
    assert(f9 == spec_request_fields(r));
}

/// A known model name maps back to its model.
proof fn lemma_model_name_round_trip(m: Model)
    ensures
        spec_model_of_name(spec_model_name(m)) == Some(m),
{
    reveal_strlit("deepseek-chat");
    reveal_strlit("deepseek-reasoner");
    reveal_strlit("deepseek-coder");
    assert("deepseek-chat"@.len() == 13);
    assert("deepseek-reasoner"@.len() == 17);
    assert("deepseek-coder"@.len() == 14);
    assert("deepseek-reasoner"@ != "deepseek-chat"@);
    assert("deepseek-coder"@ != "deepseek-chat"@);
    assert("deepseek-coder"@ != "deepseek-reasoner"@);
}

/// A known role name maps back to its role.
proof fn lemma_role_name_round_trip(r: Role)
    ensures
        spec_role_of_name(spec_role_name(r)) == Some(r),
{
    reveal_strlit("system");
    reveal_strlit("user");
    reveal_strlit("assistant");
    assert("system"@.len() == 6);
    assert("user"@.len() == 4);
    assert("assistant"@.len() == 9);
    assert("user"@ != "system"@);
    assert("assistant"@ != "system"@);
    assert("assistant"@ != "user"@);
}

/// One encoded message decodes back to itself.
proof fn lemma_message_round_trip(m: MessageV)
    ensures
        spec_req_message_from_json(spec_message_json(m)) == Some(m),
{
    reveal_strlit("role");
    reveal_strlit("content");
    let fields: Seq<(Seq<char>, JsonV)> = seq![
        ("role"@, JsonV::Str(spec_role_name(m.role))),
        ("content"@, JsonV::Str(m.content)),
    ];
    reveal_with_fuel(obj_get, 4);
    assert(fields.drop_first() =~= seq![("content"@, JsonV::Str(m.content))]);
    assert(fields.drop_first().drop_first() =~= Seq::<(Seq<char>, JsonV)>::empty());
    assert("role"@.len() == 4);
    assert("content"@.len() == 7);
    assert("role"@ != "content"@);
    assert(obj_get(fields, "role"@) == Some(JsonV::Str(spec_role_name(m.role))));
    assert(obj_get(fields, "content"@) == Some(JsonV::Str(m.content)));
    lemma_role_name_round_trip(m.role);
}

/// An encoded message sequence decodes back to itself, in order.
proof fn lemma_messages_round_trip(ms: Seq<MessageV>)
    ensures
        spec_req_messages_from_json(ms.map_values(|m: MessageV| spec_message_json(m))) == Some(
            ms,
        ),
    decreases ms.len(),
{
    let mapped = ms.map_values(|m: MessageV| spec_message_json(m));
    if ms.len() == 0 {
        assert(mapped =~= Seq::<JsonV>::empty());
        assert(spec_req_messages_from_json(mapped) == Some(Seq::<MessageV>::empty()));
        assert(Seq::<MessageV>::empty() =~= ms);
    } else {
        lemma_messages_round_trip(ms.drop_first());
        lemma_message_round_trip(ms[0]);
        assert(mapped.drop_first() =~= ms.drop_first().map_values(
            |m: MessageV| spec_message_json(m),
        ));
        assert(mapped[0] == spec_message_json(ms[0]));
        assert(seq![ms[0]] + ms.drop_first() =~= ms);
    }
}

/// An encoded stop-sequence list decodes back to itself, in order.
proof fn lemma_stops_round_trip(ss: Seq<Seq<char>>)
    ensures
        spec_stops_from_json(ss.map_values(|s2: Seq<char>| JsonV::Str(s2))) == Some(ss),
    decreases ss.len(),
{
    let mapped = ss.map_values(|s2: Seq<char>| JsonV::Str(s2));
    if ss.len() == 0 {
        assert(mapped =~= Seq::<JsonV>::empty());
        assert(spec_stops_from_json(mapped) == Some(Seq::<Seq<char>>::empty()));
        assert(Seq::<Seq<char>>::empty() =~= ss);
    } else {
        lemma_stops_round_trip(ss.drop_first());
        assert(mapped.drop_first() =~= ss.drop_first().map_values(
            |s2: Seq<char>| JsonV::Str(s2),
        ));
        assert(mapped[0] == JsonV::Str(ss[0]));
        assert(seq![ss[0]] + ss.drop_first() =~= ss);
    }
}

/// Round trip: the wire document of a request decodes back to a request
/// equal to it field for field, message order preserved. The one premise is
/// the temperature type's own validity.
pub proof fn lemma_request_json_round_trip(r: ChatCompletionRequest)
    requires
        r.temperature matches Some(t) ==> temperature_in_range(t.spec_value()),
    ensures
        spec_request_from_json(spec_request_json(r@)) == Some(r@),
{
    let rv = r@;
    lemma_request_fields_lookup(rv);
    lemma_model_name_round_trip(rv.model);
    lemma_messages_round_trip(rv.messages);
    if rv.stop is Some {
        lemma_stops_round_trip(rv.stop->0);
    }
    let fields = spec_request_fields(rv);
    assert(get_str(fields, "model"@) == Some(spec_model_name(rv.model)));
    assert(spec_model_of_name(spec_model_name(rv.model)) == Some(rv.model));
    if rv.max_tokens is Some {
        let v = rv.max_tokens->0;
        assert(num_fits_u32(v as int * 1000)) by (nonlinear_arith);
        assert((v as int * 1000) / 1000 == v as int) by (nonlinear_arith);
    }
    if rv.n is Some {
        let v = rv.n->0;
        assert(num_fits_u32(v as int * 1000)) by (nonlinear_arith);
        assert((v as int * 1000) / 1000 == v as int) by (nonlinear_arith);
    }
    assert(spec_request_from_json(spec_request_json(rv)) == Some(rv));
}

} // verus!



