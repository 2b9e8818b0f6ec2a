//! The coordinate primitive's configuration and records: an LLM-driven loop
//! that decides on operations, runs them, weighs the results and decides
//! again, until it is done or reaches its iteration bound.

use vstd::prelude::*;
use crate::ai::llm_call::{LlmInvocationId, opt_json_view};
use crate::platform_core::id::{format_id, id_text};
use crate::support::clock::{is_instant, now_millis};
use crate::support::json::{Json, empty_object};
use crate::support::text::owned;
use crate::support::ulid_text::fresh_ulid;

verus! {

/// Identifier of a coordination session (text prefix `coord`).
#[derive(Debug, Clone, Copy, PartialEq, Eq, Hash, Structural)]
pub struct CoordinateSessionId(pub u128);

impl CoordinateSessionId {
    /// A new identifier with a freshly generated ULID.
    pub fn new() -> Self {
        CoordinateSessionId(fresh_ulid())
    }

    /// The text form `coord_ULID`.
    pub fn to_string(&self) -> (s: String)
        ensures
            s@ == id_text("coord"@, self.0),
    {
        format_id("coord", self.0)
    }
}

/// The iteration bound of a new configuration.
pub const DEFAULT_MAX_ITERATIONS: u32 = 10;

/// A tool the coordinator may use.
#[derive(Debug)]
pub struct ToolDefinition {
    pub name: String,
    pub description: String,
    /// JSON schema of the tool's input.
    pub input_schema: Json,
    /// JSON schema of the tool's output.
    pub output_schema: Option<Json>,
}

impl ToolDefinition {
    /// A tool taking any input (`{}` schema) with no declared output.
    pub fn new(name: &str, description: &str) -> (r: Self)
        ensures
            r.name@ == name@,
            r.description@ == description@,
            r.input_schema@ == empty_object(),
            r.output_schema is None,
    {
        ToolDefinition {
            name: owned(name),
            description: owned(description),
            input_schema: Json::empty_object(),
            output_schema: None,
        }
    }

    /// The tool with an input schema.
    pub fn with_input_schema(self, schema: Json) -> (r: Self)
        ensures
            r.input_schema == schema,
            r.name == self.name,
            r.description == self.description,
            r.output_schema == self.output_schema,
    {
        ToolDefinition { input_schema: schema, ..self }
    }

    /// The tool with an output schema.
    pub fn with_output_schema(self, schema: Json) -> (r: Self)
        ensures
            r.output_schema == Some(schema),
            r.name == self.name,
            r.description == self.description,
            r.input_schema == self.input_schema,
    {
        ToolDefinition { output_schema: Some(schema), ..self }
    }
}

/// Configuration of a coordination session.
#[derive(Debug)]
pub struct CoordinateConfig {
    pub goal: String,
    pub max_iterations: u32,
    pub available_tools: Vec<ToolDefinition>,
    pub system_prompt: Option<String>,
}

impl CoordinateConfig {
    /// A configuration for `goal`, with the default iteration bound and no tools.
    pub fn new(goal: &str) -> (r: Self)
        ensures
            r.goal@ == goal@,
            r.max_iterations == DEFAULT_MAX_ITERATIONS,
            r.available_tools@.len() == 0,
            r.system_prompt is None,
    {
        CoordinateConfig {
            goal: owned(goal),
            max_iterations: DEFAULT_MAX_ITERATIONS,
            available_tools: Vec::new(),
            system_prompt: None,
        }
    }

    /// The configuration with another iteration bound.
    pub fn with_max_iterations(self, max: u32) -> (r: Self)
        ensures
            r.max_iterations == max,
            r.goal == self.goal,
            r.available_tools == self.available_tools,
            r.system_prompt == self.system_prompt,
    {
        CoordinateConfig { max_iterations: max, ..self }
    }

    /// The configuration with one more tool, after the others.
    pub fn with_tool(self, tool: ToolDefinition) -> (r: Self)
        ensures
            r.available_tools@ == self.available_tools@.push(tool),
            r.goal == self.goal,
            r.max_iterations == self.max_iterations,
            r.system_prompt == self.system_prompt,
    {
        let CoordinateConfig { goal, max_iterations, mut available_tools, system_prompt } = self;
        available_tools.push(tool);
        CoordinateConfig { goal, max_iterations, available_tools, system_prompt }
    }

    /// The configuration with a system prompt.
    pub fn with_system_prompt(self, prompt: &str) -> (r: Self)
        ensures
            r.system_prompt matches Some(p) && p@ == prompt@,
            r.goal == self.goal,
            r.max_iterations == self.max_iterations,
            r.available_tools == self.available_tools,
    {
        CoordinateConfig { system_prompt: Some(owned(prompt)), ..self }
    }
}

/// The record of one action run within a step.
#[derive(Debug)]
pub struct ActionExecution {
    pub tool_name: String,
    pub input: Json,
    pub output: Option<Json>,
    pub error: Option<String>,
    pub latency_ms: u64,
}

impl ActionExecution {
    /// A successful action with its output.
    pub fn success(tool_name: &str, input: Json, output: Json, latency_ms: u64) -> (r: Self)
        ensures
            r.tool_name@ == tool_name@,
            r.input == input,
            r.output == Some(output),
            r.error is None,
            r.latency_ms == latency_ms,
    {
        ActionExecution { tool_name: owned(tool_name), input, output: Some(output), error: None, latency_ms }
    }

    /// A failed action with its error message.
    pub fn failure(tool_name: &str, input: Json, error: &str, latency_ms: u64) -> (r: Self)
        ensures
            r.tool_name@ == tool_name@,
            r.input == input,
            r.output is None,
            r.error matches Some(e) && e@ == error@,
            r.latency_ms == latency_ms,
    {
        ActionExecution { tool_name: owned(tool_name), input, output: None, error: Some(owned(error)), latency_ms }
    }

    /// Whether the action succeeded: it holds no error.
    pub fn is_success(&self) -> (r: bool)
        ensures
            r == (self.error is None),
    {
        self.error.is_none()
    }
}

/// One step of a coordination session.
#[derive(Debug)]
pub struct CoordinateStep {
    /// Step number, counted from 1.
    pub step_number: u32,
    /// The invocation that decided this step.
    pub decision_invocation: LlmInvocationId,
    pub actions: Vec<ActionExecution>,
    pub reasoning: String,
    pub should_continue: bool,
    /// When the step was taken, in milliseconds since the Unix epoch.
    pub timestamp: i64,
}

/// The outcome of a coordination session.
#[derive(Debug)]
pub struct CoordinateResult {
    pub session_id: CoordinateSessionId,
    pub goal: String,
    pub success: bool,
    pub result: Option<Json>,
    pub error: Option<String>,
    pub steps: Vec<CoordinateStep>,
    /// The number of steps taken (kept modulo 2^32, as a `u32` cast keeps it).
    pub iteration_count: u32,
    /// When the session started and ended, in milliseconds since the Unix epoch.
    pub started_at: i64,
    pub finished_at: i64,
}

impl CoordinateResult {
    /// A session that reached its goal with `result`, finished now.
    pub fn success(
        session_id: CoordinateSessionId,
        goal: String,
        result: Json,
        steps: Vec<CoordinateStep>,
        started_at: i64,
    ) -> (r: Self)
        ensures
            r.session_id == session_id,
            r.goal == goal,
            r.success,
            r.result == Some(result),
            r.error is None,
            r.steps == steps,
            r.iteration_count == steps@.len() as u32,
            r.started_at == started_at,
            is_instant(r.finished_at),
    {
        let count = steps.len() as u32;
        CoordinateResult {
            session_id,
            goal,
            success: true,
            result: Some(result),
            error: None,
            iteration_count: count,
            steps,
            started_at,
            finished_at: now_millis(),
        }
    }

    /// A session that failed with `error`, finished now.
    pub fn failure(
        session_id: CoordinateSessionId,
        goal: String,
        error: String,
        steps: Vec<CoordinateStep>,
        started_at: i64,
    ) -> (r: Self)
        ensures
            r.session_id == session_id,
            r.goal == goal,
            !r.success,
            r.result is None,
            r.error == Some(error),
            r.steps == steps,
            r.iteration_count == steps@.len() as u32,
            r.started_at == started_at,
            is_instant(r.finished_at),
    {
        let count = steps.len() as u32;
        CoordinateResult {
            session_id,
            goal,
            success: false,
            result: None,
            error: Some(error),
            iteration_count: count,
            steps,
            started_at,
            finished_at: now_millis(),
        }
    }

    /// The session's length in milliseconds: its end minus its start.
    pub fn duration(&self) -> (d: i64)
        requires
            is_instant(self.started_at),
            is_instant(self.finished_at),
        ensures
            d == self.finished_at - self.started_at,
    {
        self.finished_at - self.started_at
    }
}

/// A coordination session being set up.
#[derive(Debug)]
pub struct Coordinator {
    pub config: CoordinateConfig,
    pub initial_context: Option<Json>,
}

impl Coordinator {
    /// A coordinator for `goal` with the default configuration.
    pub fn new(goal: &str) -> (r: Self)
        ensures
            r.config.goal@ == goal@,
            r.config.max_iterations == DEFAULT_MAX_ITERATIONS,
            r.config.available_tools@.len() == 0,
            r.config.system_prompt is None,
            r.initial_context is None,
    {
        Coordinator { config: CoordinateConfig::new(goal), initial_context: None }
    }

    /// A coordinator with the given configuration.
    pub fn from_config(config: CoordinateConfig) -> (r: Self)
        ensures
            r.config == config,
            r.initial_context is None,
    {
        Coordinator { config, initial_context: None }
    }

    /// The coordinator with another iteration bound.
    pub fn with_max_iterations(self, max: u32) -> (r: Self)
        ensures
            r.config.max_iterations == max,
            r.config.goal == self.config.goal,
            r.config.available_tools == self.config.available_tools,
            r.config.system_prompt == self.config.system_prompt,
            r.initial_context == self.initial_context,
    {
        let Coordinator { config, initial_context } = self;
        Coordinator { config: config.with_max_iterations(max), initial_context }
    }

    /// The coordinator with one more tool.
    pub fn with_tool(self, tool: ToolDefinition) -> (r: Self)
        ensures
            r.config.available_tools@ == self.config.available_tools@.push(tool),
            r.config.goal == self.config.goal,
            r.config.max_iterations == self.config.max_iterations,
            r.config.system_prompt == self.config.system_prompt,
            r.initial_context == self.initial_context,
    {
        let Coordinator { config, initial_context } = self;
        Coordinator { config: config.with_tool(tool), initial_context }
    }

    /// The coordinator with initial context.
    pub fn with_context(self, context: Json) -> (r: Self)
        ensures
            r.config == self.config,
            r.initial_context == Some(context),
    {
        Coordinator { initial_context: Some(context), ..self }
    }

    /// The configuration.
    pub fn config(&self) -> (r: &CoordinateConfig)
        ensures
            *r == self.config,
    {
        &self.config
    }

    /// The initial context, if any.
    pub fn initial_context(&self) -> (r: Option<&Json>)
        ensures
            r matches Some(c) ==> self.initial_context == Some(*c),
            r is None <==> self.initial_context is None,
    {
        match &self.initial_context {
            Some(c) => Some(c),
            None => None,
        }
    }
}

} // verus!
