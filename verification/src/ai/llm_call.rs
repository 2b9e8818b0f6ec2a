//! The LLM call primitive: single-shot inference with optional structured
//! output, and the records kept of each invocation.

use vstd::prelude::*;
use crate::ai::backend::{LlmRequest, LlmResponse, TokenUsage};
use crate::ai::error::{LlmError, llm_error_text};
use crate::platform_core::id::{format_id, id_text};
use crate::support::clock::{is_instant, now_millis};
use crate::support::json::{Json, JsonView, compact_text, json_text};
use crate::support::text::{concat4, owned};
use crate::support::ulid_text::fresh_ulid;

verus! {

/// Identifier of one LLM invocation (text prefix `llm`).
#[derive(Debug, Clone, Copy, PartialEq, Eq, Hash, Structural)]
pub struct LlmInvocationId(pub u128);

impl LlmInvocationId {
    /// A new identifier with a freshly generated ULID.
    pub fn new() -> Self {
        LlmInvocationId(fresh_ulid())
    }

    /// The text form `llm_ULID`.
    pub fn to_string(&self) -> (s: String)
        ensures
            s@ == id_text("llm"@, self.0),
    {
        format_id("llm", self.0)
    }
}

/// The view of an optional JSON value.
pub open spec fn opt_json_view(o: Option<Json>) -> Option<JsonView> {
    match o {
        Some(j) => Some(j@),
        None => None,
    }
}

/// A copy of an optional JSON value.
pub fn clone_opt_json(o: &Option<Json>) -> (r: Option<Json>)
    ensures
        opt_json_view(r) == opt_json_view(*o),
{
    match o {
        Some(j) => Some(j.deep_clone()),
        None => None,
    }
}

/// The view of an optional owned text.
pub open spec fn opt_string_view(o: Option<String>) -> Option<Seq<char>> {
    match o {
        Some(s) => Some(s@),
        None => None,
    }
}

/// A copy of an optional text.
pub fn clone_opt_text(o: &Option<String>) -> (r: Option<String>)
    ensures
        opt_string_view(r) == opt_string_view(*o),
{
    match o {
        Some(s) => Some(owned(s.as_str())),
        None => None,
    }
}

/// Configuration of an LLM call.
#[derive(Debug)]
pub struct LlmCallConfig {
    pub prompt: String,
    pub system_prompt: Option<String>,
    pub output_schema: Option<Json>,
    /// Sampling temperature, as `f32` bits.
    pub temperature: Option<u32>,
    pub max_tokens: Option<u32>,
}

impl LlmCallConfig {
    /// A configuration with only a prompt.
    pub fn new(prompt: &str) -> (r: Self)
        ensures
            r.prompt@ == prompt@,
            r.system_prompt is None,
            r.output_schema is None,
            r.temperature is None,
            r.max_tokens is None,
    {
        LlmCallConfig {
            prompt: owned(prompt),
            system_prompt: None,
            output_schema: None,
            temperature: None,
            max_tokens: None,
        }
    }

    /// The configuration with a system prompt.
    pub fn with_system_prompt(self, system: &str) -> (r: Self)
        ensures
            r.system_prompt matches Some(s) && s@ == system@,
            r.prompt == self.prompt,
            r.output_schema == self.output_schema,
            r.temperature == self.temperature,
            r.max_tokens == self.max_tokens,
    {
        LlmCallConfig { system_prompt: Some(owned(system)), ..self }
    }

    /// The configuration with an output schema.
    pub fn with_output_schema(self, schema: Json) -> (r: Self)
        ensures
            r.output_schema == Some(schema),
            r.prompt == self.prompt,
            r.system_prompt == self.system_prompt,
            r.temperature == self.temperature,
            r.max_tokens == self.max_tokens,
    {
        LlmCallConfig { output_schema: Some(schema), ..self }
    }
}

/// The result of an LLM call.
#[derive(Debug)]
pub struct LlmCallResult {
    pub id: LlmInvocationId,
    pub content: String,
    pub structured_output: Option<Json>,
    pub usage: TokenUsage,
    pub model: String,
    /// When the call was made, in milliseconds since the Unix epoch.
    pub timestamp: i64,
    pub latency_ms: u64,
}

impl LlmCallResult {
    /// The result of a response, under a fresh identifier, stamped now.
    pub fn from_response(response: LlmResponse, latency_ms: u64) -> (r: Self)
        ensures
            r.content == response.content,
            r.structured_output == response.structured_output,
            r.usage == response.usage,
            r.model == response.model,
            r.latency_ms == latency_ms,
            is_instant(r.timestamp),
    {
        LlmCallResult {
            id: LlmInvocationId::new(),
            content: response.content,
            structured_output: response.structured_output,
            usage: response.usage,
            model: response.model,
            timestamp: now_millis(),
            latency_ms,
        }
    }
}

/// The prompt sent for a configured prompt and, when there is context, the
/// context's JSON text: `Context:\n<text>\n\n<prompt>`.
pub open spec fn prompt_with_context(prompt: Seq<char>, context_text: Option<Seq<char>>) -> Seq<char> {
    match context_text {
        Some(t) => "Context:\n"@ + t + "\n\n"@ + prompt,
        None => prompt,
    }
}

/// The request built from a configuration and a context text: the prompt as
/// `prompt_with_context` gives it, the other settings carried over.
pub open spec fn is_request_for(
    r: LlmRequest,
    config: LlmCallConfig,
    context_text: Option<Seq<char>>,
) -> bool {
    &&& r.prompt@ == prompt_with_context(config.prompt@, context_text)
    &&& opt_string_view(r.system) == opt_string_view(config.system_prompt)
    &&& opt_json_view(r.output_schema) == opt_json_view(config.output_schema)
    &&& r.temperature == config.temperature
    &&& r.max_tokens == config.max_tokens
    &&& r.context@.len() == 0
}

/// The view of an optional text.
pub open spec fn opt_text_view(o: Option<&str>) -> Option<Seq<char>> {
    match o {
        Some(s) => Some(s@),
        None => None,
    }
}

/// The request for `config` with the given context text.
pub fn request_with_context_text(config: &LlmCallConfig, context_text: Option<&str>) -> (r: LlmRequest)
    ensures
        is_request_for(r, *config, opt_text_view(context_text)),
{
    let prompt = match context_text {
        Some(t) => {
            let head = concat4("Context:\n", t, "\n\n", config.prompt.as_str());
            head
        },
        None => owned(config.prompt.as_str()),
    };
    LlmRequest {
        prompt,
        system: clone_opt_text(&config.system_prompt),
        context: Vec::new(),
        output_schema: clone_opt_json(&config.output_schema),
        temperature: config.temperature,
        max_tokens: config.max_tokens,
    }
}

/// An LLM call being configured.
#[derive(Debug)]
pub struct LlmCall {
    pub config: LlmCallConfig,
    /// Data included in the prompt as JSON text.
    pub context: Option<Json>,
}

impl LlmCall {
    /// A call with only a prompt.
    pub fn new(prompt: &str) -> (r: Self)
        ensures
            r.config.prompt@ == prompt@,
            r.config.system_prompt is None,
            r.config.output_schema is None,
            r.config.temperature is None,
            r.config.max_tokens is None,
            r.context is None,
    {
        LlmCall { config: LlmCallConfig::new(prompt), context: None }
    }

    /// A call with the given configuration.
    pub fn from_config(config: LlmCallConfig) -> (r: Self)
        ensures
            r.config == config,
            r.context is None,
    {
        LlmCall { config, context: None }
    }

    /// The call with a system prompt.
    pub fn with_system_prompt(self, system: &str) -> (r: Self)
        ensures
            r.config.system_prompt matches Some(s) && s@ == system@,
            r.config.prompt == self.config.prompt,
            r.config.output_schema == self.config.output_schema,
            r.config.temperature == self.config.temperature,
            r.config.max_tokens == self.config.max_tokens,
            r.context == self.context,
    {
        let LlmCall { config, context } = self;
        LlmCall { config: LlmCallConfig { system_prompt: Some(owned(system)), ..config }, context }
    }

    /// The call with an output schema.
    pub fn with_output_schema(self, schema: Json) -> (r: Self)
        ensures
            r.config.output_schema == Some(schema),
            r.config.prompt == self.config.prompt,
            r.config.system_prompt == self.config.system_prompt,
            r.config.temperature == self.config.temperature,
            r.config.max_tokens == self.config.max_tokens,
            r.context == self.context,
    {
        let LlmCall { config, context } = self;
        LlmCall { config: LlmCallConfig { output_schema: Some(schema), ..config }, context }
    }

    /// The call with a sampling temperature (`f32` bits).
    pub fn with_temperature(self, temperature: u32) -> (r: Self)
        ensures
            r.config.temperature == Some(temperature),
            r.config.prompt == self.config.prompt,
            r.config.system_prompt == self.config.system_prompt,
            r.config.output_schema == self.config.output_schema,
            r.config.max_tokens == self.config.max_tokens,
            r.context == self.context,
    {
        let LlmCall { config, context } = self;
        LlmCall { config: LlmCallConfig { temperature: Some(temperature), ..config }, context }
    }

    /// The call with context data for the prompt.
    pub fn with_context(self, context: Json) -> (r: Self)
        ensures
            r.config == self.config,
            r.context == Some(context),
    {
        LlmCall { context: Some(context), ..self }
    }

    /// The request this call sends: the prompt preceded by the context's
    /// compact JSON text when there is context, the other settings carried over.
    pub fn build_request(&self) -> (r: LlmRequest)
        ensures
            is_request_for(
                r,
                self.config,
                match self.context {
                    Some(c) => Some(json_text(c@)),
                    None => None,
                },
            ),
    {
        match &self.context {
            Some(c) => {
                let text = compact_text(c);
                request_with_context_text(&self.config, Some(text.as_str()))
            },
            None => request_with_context_text(&self.config, None),
        }
    }
}

/// The record of one invocation, kept for audit and debugging.
#[derive(Debug)]
pub struct LlmInvocationRecord {
    pub id: LlmInvocationId,
    pub request: LlmRequest,
    pub response: Option<LlmCallResult>,
    pub error: Option<String>,
    /// When the record was made, in milliseconds since the Unix epoch.
    pub timestamp: i64,
}

impl LlmInvocationRecord {
    /// The record of a successful invocation, under the result's identifier.
    pub fn success(request: LlmRequest, result: LlmCallResult) -> (r: Self)
        ensures
            r.id == result.id,
            r.request == request,
            r.response == Some(result),
            r.error is None,
            is_instant(r.timestamp),
    {
        LlmInvocationRecord {
            id: result.id,
            request,
            response: Some(result),
            error: None,
            timestamp: now_millis(),
        }
    }

    /// The record of a failed invocation, under a fresh identifier, holding
    /// the error's message.
    pub fn failure(request: LlmRequest, error: &LlmError) -> (r: Self)
        ensures
            r.request == request,
            r.response is None,
            r.error matches Some(e) && e@ == llm_error_text(*error),
            is_instant(r.timestamp),
    {
        LlmInvocationRecord {
            id: LlmInvocationId::new(),
            request,
            response: None,
            error: Some(error.to_string()),
            timestamp: now_millis(),
        }
    }
}

} // verus!
