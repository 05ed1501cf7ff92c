//! Records of the agent runtime, as the runtime's decisions read them.
use vstd::prelude::*;

verus! {

/// Per-agent security policy. Deny-by-default: an agent without one may use no tool.
#[derive(Debug, Clone)]
pub struct SecurityPolicy {
    pub agent_id: u64,
    /// manual | semi_auto | auto
    pub autonomy_level: String,
    /// JSON array of allowed tool names. Empty = all allowed.
    pub allowed_tools_json: String,
    /// JSON array of blocked tool names.
    pub blocked_tools_json: String,
    pub max_tool_iterations: u32,
    pub rate_limit_per_minute: u32,
}

/// Tool registry entry: an available tool and its JSON schema.
#[derive(Debug, Clone)]
pub struct ToolRegistryEntry {
    pub name: String,
    pub description: String,
    pub parameters_schema_json: String,
    /// "http" = executed inside procedures, "local" = needs worker
    pub execution_mode: String,
}

/// Channel configuration for outbound HTTP sends.
#[derive(Debug, Clone)]
pub struct ChannelConfig {
    pub name: String,
    /// telegram | discord | slack | webhook
    pub channel_type: String,
    /// Bot token or webhook URL
    pub credential: String,
    /// API base URL (e.g., "https://api.telegram.org")
    pub api_base_url: String,
}

/// Result of handling a message or continuing a conversation.
#[derive(Debug, Clone)]
pub struct ProcessResult {
    pub status: String,
    pub response: String,
    pub conversation_id: u64,
    /// Non-empty if local tools are pending and need worker execution.
    pub pending_local_tools_json: String,
}

/// A tool call requested by the LLM.
#[derive(Debug, Clone)]
pub struct ToolCall {
    pub id: String,
    pub name: String,
    pub arguments: String,
}

/// A conversation session, scoped to agent + channel + sender.
#[derive(Debug, Clone)]
pub struct Conversation {
    pub id: u64,
    pub agent_id: u64,
    pub channel: String,
    pub sender: String,
    pub active: bool,
    pub tool_iteration: u32,
}

/// A tool request that needs local execution by a worker.
#[derive(Debug, Clone)]
pub struct LocalToolRequest {
    pub id: u64,
    pub conversation_id: u64,
    pub tool_call_id: String,
    pub tool_name: String,
    pub parameters_json: String,
    /// pending → processing → completed | failed
    pub status: String,
    pub result: String,
    pub claimed_by: String,
}

/// An outbound message waiting to be sent by a worker.
#[derive(Debug, Clone)]
pub struct PendingSend {
    pub id: u64,
    pub conversation_id: u64,
    pub channel: String,
    pub target: String,
    pub content: String,
    /// pending → sent | failed
    pub status: String,
}

/// A stored memory entry.
#[derive(Debug, Clone)]
pub struct Memory {
    pub id: u64,
    pub agent_id: u64,
    pub key: String,
    pub content: String,
    /// core | daily | conversation
    pub category: String,
    pub session_id: String,
}

/// A stored conversation message. Roles: system, user, assistant, tool.
#[derive(Debug, Clone)]
pub struct Message {
    pub id: u64,
    pub conversation_id: u64,
    pub role: String,
    pub content: String,
    /// Set when role="tool": the tool_call ID this responds to.
    pub tool_call_id: String,
    /// JSON tool_calls array when the assistant wants to use tools.
    pub tool_calls_json: String,
}

} // verus!
