//! Requests to and responses from an LLM backend.
//!
//! Sampling temperatures are held as the bit pattern of an `f32`
//! (`f32::to_bits`), which the library carries without reading.

use vstd::prelude::*;
use crate::support::json::Json;
use crate::support::text::owned;

verus! {

/// Available LLM providers.
#[derive(Debug, Clone, Copy, PartialEq, Eq, Structural)]
pub enum LlmProvider {
    Ollama,
    Anthropic,
    OpenAi,
    OpenAiCompatible,
}

/// Configuration of an LLM backend.
#[derive(Debug)]
pub struct LlmBackendConfig {
    pub provider: LlmProvider,
    pub base_url: String,
    pub model: String,
    pub api_key: Option<String>,
    /// Provider-specific options, by name.
    pub options: Vec<(String, Json)>,
}

impl LlmBackendConfig {
    /// A local Ollama backend at `base_url` serving `model`.
    pub fn ollama(base_url: &str, model: &str) -> (r: Self)
        ensures
            r.provider == LlmProvider::Ollama,
            r.base_url@ == base_url@,
            r.model@ == model@,
            r.api_key is None,
            r.options@.len() == 0,
    {
        LlmBackendConfig {
            provider: LlmProvider::Ollama,
            base_url: owned(base_url),
            model: owned(model),
            api_key: None,
            options: Vec::new(),
        }
    }

    /// The Anthropic API with `api_key`, serving `model`.
    pub fn anthropic(api_key: &str, model: &str) -> (r: Self)
        ensures
            r.provider == LlmProvider::Anthropic,
            r.base_url@ == "https://api.anthropic.com"@,
            r.model@ == model@,
            r.api_key matches Some(k) && k@ == api_key@,
            r.options@.len() == 0,
    {
        LlmBackendConfig {
            provider: LlmProvider::Anthropic,
            base_url: owned("https://api.anthropic.com"),
            model: owned(model),
            api_key: Some(owned(api_key)),
            options: Vec::new(),
        }
    }
}

/// The role of a message's sender.
#[derive(Debug, Clone, Copy, PartialEq, Eq, Structural)]
pub enum MessageRole {
    User,
    Assistant,
    System,
}

/// A message of a conversation handed to a model.
#[derive(Debug, Clone)]
pub struct LlmMessage {
    pub role: MessageRole,
    pub content: String,
}

impl LlmMessage {
    /// A message from the user.
    pub fn user(content: &str) -> (r: Self)
        ensures
            r.role == MessageRole::User,
            r.content@ == content@,
    {
        LlmMessage { role: MessageRole::User, content: owned(content) }
    }

    /// A message from the assistant.
    pub fn assistant(content: &str) -> (r: Self)
        ensures
            r.role == MessageRole::Assistant,
            r.content@ == content@,
    {
        LlmMessage { role: MessageRole::Assistant, content: owned(content) }
    }
}

/// A request to a model.
#[derive(Debug)]
pub struct LlmRequest {
    pub prompt: String,
    pub system: Option<String>,
    /// Earlier messages of the conversation.
    pub context: Vec<LlmMessage>,
    /// JSON schema the structured output must follow.
    pub output_schema: Option<Json>,
    /// Sampling temperature, as `f32` bits.
    pub temperature: Option<u32>,
    pub max_tokens: Option<u32>,
}

impl LlmRequest {
    /// A request with only a prompt.
    pub fn new(prompt: &str) -> (r: Self)
        ensures
            r.prompt@ == prompt@,
            r.system is None,
            r.context@.len() == 0,
            r.output_schema is None,
            r.temperature is None,
            r.max_tokens is None,
    {
        LlmRequest {
            prompt: owned(prompt),
            system: None,
            context: Vec::new(),
            output_schema: None,
            temperature: None,
            max_tokens: None,
        }
    }

    /// The request with a system prompt.
    pub fn with_system(self, system: &str) -> (r: Self)
        ensures
            r.system matches Some(s) && s@ == system@,
            r.prompt == self.prompt,
            r.context == self.context,
            r.output_schema == self.output_schema,
            r.temperature == self.temperature,
            r.max_tokens == self.max_tokens,
    {
        LlmRequest { system: Some(owned(system)), ..self }
    }

    /// The request with earlier messages as context.
    pub fn with_context(self, context: Vec<LlmMessage>) -> (r: Self)
        ensures
            r.context == context,
            r.prompt == self.prompt,
            r.system == self.system,
            r.output_schema == self.output_schema,
            r.temperature == self.temperature,
            r.max_tokens == self.max_tokens,
    {
        LlmRequest { context, ..self }
    }

    /// The request with an output schema.
    pub fn with_output_schema(self, schema: Json) -> (r: Self)
        ensures
            r.output_schema == Some(schema),
            r.prompt == self.prompt,
            r.system == self.system,
            r.context == self.context,
            r.temperature == self.temperature,
            r.max_tokens == self.max_tokens,
    {
        LlmRequest { output_schema: Some(schema), ..self }
    }

    /// The request with a sampling temperature (`f32` bits).
    pub fn with_temperature(self, temperature: u32) -> (r: Self)
        ensures
            r.temperature == Some(temperature),
            r.prompt == self.prompt,
            r.system == self.system,
            r.context == self.context,
            r.output_schema == self.output_schema,
            r.max_tokens == self.max_tokens,
    {
        LlmRequest { temperature: Some(temperature), ..self }
    }

    /// The request with a bound on generated tokens.
    pub fn with_max_tokens(self, max_tokens: u32) -> (r: Self)
        ensures
            r.max_tokens == Some(max_tokens),
            r.prompt == self.prompt,
            r.system == self.system,
            r.context == self.context,
            r.output_schema == self.output_schema,
            r.temperature == self.temperature,
    {
        LlmRequest { max_tokens: Some(max_tokens), ..self }
    }
}

/// Token counts of one model call.
#[derive(Debug, Clone, Copy, PartialEq, Eq, Structural)]
pub struct TokenUsage {
    pub input_tokens: u32,
    pub output_tokens: u32,
}

impl Default for TokenUsage {
    fn default() -> (r: Self)
        ensures
            r.input_tokens == 0 && r.output_tokens == 0,
    {
        TokenUsage { input_tokens: 0, output_tokens: 0 }
    }
}

impl TokenUsage {
    /// Input and output tokens together.
    pub fn total(&self) -> (r: u32)
        requires
            self.input_tokens + self.output_tokens <= u32::MAX,
        ensures
            r == self.input_tokens + self.output_tokens,
    {
        self.input_tokens + self.output_tokens
    }
}

/// A model's response.
#[derive(Debug)]
pub struct LlmResponse {
    pub content: String,
    /// Structured output, when the request gave a schema.
    pub structured_output: Option<Json>,
    pub usage: TokenUsage,
    pub model: String,
}

} // verus!
