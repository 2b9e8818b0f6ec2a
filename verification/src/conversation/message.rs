//! Messages of conversations: text, attachments, tool calls and tool results.

use vstd::prelude::*;
use crate::support::text::owned;
use crate::support::clock::now_millis;
use crate::support::json::{Json, JsonView};
use crate::platform_core::id::MessageId;

verus! {

/// Who wrote a message.
#[derive(Debug, Clone, Copy, PartialEq, Eq, Structural)]
pub enum MessageRole {
    /// The user.
    User,
    /// The assistant.
    Assistant,
    /// System instructions.
    System,
    /// A tool's result.
    Tool,
}

/// The kinds of attachment.
#[derive(Debug, Clone, Copy, PartialEq, Eq, Structural)]
pub enum AttachmentType {
    Text,
    Image,
    File,
    Data,
}

/// An attachment of a message.
#[derive(Debug)]
pub struct MessageAttachment {
    /// Kind.
    pub attachment_type: AttachmentType,
    /// Content (text, or a reference).
    pub content: String,
    /// Further data, if any.
    pub metadata: Option<Json>,
}

/// A call of a tool that the assistant asks for.
#[derive(Debug)]
pub struct ToolCall {
    /// Identifier of the call.
    pub id: String,
    /// Name of the tool.
    pub name: String,
    /// Arguments.
    pub arguments: Json,
}

impl ToolCall {
    /// A tool call.
    pub fn new(id: &str, name: &str, arguments: Json) -> (r: Self)
        ensures
            r.id@ == id@,
            r.name@ == name@,
            r.arguments == arguments,
    {
        ToolCall { id: owned(id), name: owned(name), arguments }
    }
}

/// The result of a tool call.
#[derive(Debug)]
pub struct ToolResult {
    /// The call it answers.
    pub tool_call_id: String,
    /// The result.
    pub result: Json,
    /// The error, if the call failed.
    pub error: Option<String>,
}

impl ToolResult {
    /// A successful result.
    pub fn success(tool_call_id: &str, result: Json) -> (r: Self)
        ensures
            r.tool_call_id@ == tool_call_id@,
            r.result == result,
            r.error is None,
    {
        ToolResult { tool_call_id: owned(tool_call_id), result, error: None }
    }

    /// A failed result (`null`, with the error).
    pub fn failure(tool_call_id: &str, error: &str) -> (r: Self)
        ensures
            r.tool_call_id@ == tool_call_id@,
            r.result@ == JsonView::Null,
            r.error matches Some(e) && e@ == error@,
    {
        ToolResult { tool_call_id: owned(tool_call_id), result: Json::Null, error: Some(owned(error)) }
    }

    /// Whether the call succeeded.
    pub fn is_success(&self) -> (r: bool)
        ensures
            r == self.error is None,
    {
        self.error.is_none()
    }
}

/// A message.
#[derive(Debug)]
pub struct Message {
    /// Identifier.
    pub id: MessageId,
    /// Author.
    pub role: MessageRole,
    /// Text.
    pub content: String,
    /// When it was written (milliseconds since the epoch).
    pub timestamp: i64,
    /// Attachments.
    pub attachments: Vec<MessageAttachment>,
    /// Tool calls (assistant messages).
    pub tool_calls: Vec<ToolCall>,
    /// Tool result (tool messages).
    pub tool_result: Option<ToolResult>,
}

impl Message {
    /// A message written now, without attachments, tool calls or result.
    pub fn new(role: MessageRole, content: &str) -> (r: Self)
        ensures
            r.role == role,
            r.content@ == content@,
            r.attachments@.len() == 0,
            r.tool_calls@.len() == 0,
            r.tool_result is None,
    {
        Message {
            id: MessageId::new(),
            role,
            content: owned(content),
            timestamp: now_millis(),
            attachments: Vec::new(),
            tool_calls: Vec::new(),
            tool_result: None,
        }
    }

    /// A user message.
    pub fn user(content: &str) -> (r: Self)
        ensures
            r.role == MessageRole::User,
            r.content@ == content@,
            r.attachments@.len() == 0,
            r.tool_calls@.len() == 0,
            r.tool_result is None,
    {
        Message::new(MessageRole::User, content)
    }

    /// An assistant message.
    pub fn assistant(content: &str) -> (r: Self)
        ensures
            r.role == MessageRole::Assistant,
            r.content@ == content@,
            r.attachments@.len() == 0,
            r.tool_calls@.len() == 0,
            r.tool_result is None,
    {
        Message::new(MessageRole::Assistant, content)
    }

    /// A system message.
    pub fn system(content: &str) -> (r: Self)
        ensures
            r.role == MessageRole::System,
            r.content@ == content@,
            r.attachments@.len() == 0,
            r.tool_calls@.len() == 0,
            r.tool_result is None,
    {
        Message::new(MessageRole::System, content)
    }

    /// A tool message carrying the successful result of a call.
    pub fn tool(tool_call_id: &str, result: Json) -> (r: Self)
        ensures
            r.role == MessageRole::Tool,
            r.content@ == Seq::<char>::empty(),
            r.tool_result matches Some(t) && t.tool_call_id@ == tool_call_id@ && t.result == result && t.error is None,
            r.attachments@.len() == 0,
            r.tool_calls@.len() == 0,
    {
        let mut msg = Message::new(MessageRole::Tool, "");
        proof {
            reveal_strlit("");
        }
        msg.tool_result = Some(ToolResult { tool_call_id: owned(tool_call_id), result, error: None });
        msg
    }

    /// The message with one more attachment.
    pub fn with_attachment(self, attachment: MessageAttachment) -> (r: Self)
        ensures
            r.attachments@ == self.attachments@.push(attachment),
            r.id == self.id,
            r.role == self.role,
            r.content == self.content,
            r.timestamp == self.timestamp,
            r.tool_calls == self.tool_calls,
            r.tool_result == self.tool_result,
    {
        let mut m = self;
        m.attachments.push(attachment);
        m
    }

    /// The message with one more tool call.
    pub fn with_tool_call(self, tool_call: ToolCall) -> (r: Self)
        ensures
            r.tool_calls@ == self.tool_calls@.push(tool_call),
            r.id == self.id,
            r.role == self.role,
            r.content == self.content,
            r.timestamp == self.timestamp,
            r.attachments == self.attachments,
            r.tool_result == self.tool_result,
    {
        let mut m = self;
        m.tool_calls.push(tool_call);
        m
    }

    /// Whether the message asks for tool calls.
    pub fn has_tool_calls(&self) -> (r: bool)
        ensures
            r == (self.tool_calls@.len() > 0),
    {
        self.tool_calls.len() > 0
    }
}

} // verus!
