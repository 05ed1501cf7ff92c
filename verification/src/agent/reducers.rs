//! Validation and record-building rules of the runtime's state changes.
use vstd::prelude::*;
use vstd::string::StringSliceAdditionalSpecFns;
use crate::agent::records::{Memory, SecurityPolicy};
use crate::text::{push_decimal, push_str, string_of, decimal};

verus! {

/// The configurable parts of an agent.
#[derive(Debug, Clone)]
pub struct AgentProfile {
    pub name: String,
    /// Provider-prefixed model ID, e.g. "openai/gpt-4o"
    pub model: String,
    /// LLM API base URL for this agent's provider
    pub api_base_url: String,
    pub api_key: String,
    pub system_prompt: String,
    pub max_tool_iterations: u32,
    pub max_history_messages: u32,
}

/// Tool iterations allowed per turn for a new agent.
pub const DEFAULT_MAX_TOOL_ITERATIONS: u32 = 10;

/// History messages sent to the LLM for a new agent.
pub const DEFAULT_MAX_HISTORY_MESSAGES: u32 = 50;

/// The profile of a new agent; an agent needs a name.
pub fn new_agent_profile(
    name: String,
    model: String,
    api_base_url: String,
    api_key: String,
    system_prompt: String,
) -> (r: Result<AgentProfile, String>)
    ensures
        r is Err <==> name@.len() == 0,
        r matches Err(e) ==> e@ == "Agent name required"@,
        r matches Ok(p) ==> {
            &&& p.name@ == name@
            &&& p.model@ == model@
            &&& p.api_base_url@ == api_base_url@
            &&& p.api_key@ == api_key@
            &&& p.system_prompt@ == system_prompt@
            &&& p.max_tool_iterations == DEFAULT_MAX_TOOL_ITERATIONS
            &&& p.max_history_messages == DEFAULT_MAX_HISTORY_MESSAGES
        },
{
    if name.as_str().is_empty() {
        return Err(string_of("Agent name required"));
    }
    Ok(
        AgentProfile {
            name,
            model,
            api_base_url,
            api_key,
            system_prompt,
            max_tool_iterations: DEFAULT_MAX_TOOL_ITERATIONS,
            max_history_messages: DEFAULT_MAX_HISTORY_MESSAGES,
        },
    )
}

/// The agent created when the runtime is initialized, with the deployment's default
/// model ID.
pub fn default_agent_profile(model: String) -> (r: AgentProfile)
    ensures
        r.name@ == "zeroclaw"@,
        r.model@ == model@,
        r.api_base_url@ == "https://api.anthropic.com/v1/messages"@,
        r.api_key@.len() == 0,
        r.system_prompt@
            == "You are ZeroClaw, an autonomous agent. Be helpful, precise, and security-conscious."@,
        r.max_tool_iterations == 10,
        r.max_history_messages == 50,
{
    AgentProfile {
        name: string_of("zeroclaw"),
        model,
        api_base_url: string_of("https://api.anthropic.com/v1/messages"),
        api_key: String::new(),
        system_prompt: string_of(
            "You are ZeroClaw, an autonomous agent. Be helpful, precise, and security-conscious.",
        ),
        max_tool_iterations: 10,
        max_history_messages: 50,
    }
}

/// The security policy created for the default agent when the runtime is initialized:
/// semi-automatic, no tool lists, 10 tool iterations, 60 actions a minute.
pub fn default_security_policy() -> (r: SecurityPolicy)
    ensures
        r.agent_id == 1,
        r.autonomy_level@ == "semi_auto"@,
        r.allowed_tools_json@ == "[]"@,
        r.blocked_tools_json@ == "[]"@,
        r.max_tool_iterations == 10,
        r.rate_limit_per_minute == 60,
{
    SecurityPolicy {
        agent_id: 1,
        autonomy_level: string_of("semi_auto"),
        allowed_tools_json: string_of("[]"),
        blocked_tools_json: string_of("[]"),
        max_tool_iterations: 10,
        rate_limit_per_minute: 60,
    }
}

/// Whether a change to an agent may proceed: the agent must exist and the caller must own
/// it.
pub fn check_agent_owner(agent_found: bool, caller_is_owner: bool) -> (r: Result<(), String>)
    ensures
        r is Ok <==> agent_found && caller_is_owner,
        r matches Err(e) ==> e@ == (if !agent_found {
            "Agent not found"@
        } else {
            "Not the agent owner"@
        }),
{
    if !agent_found {
        Err(string_of("Agent not found"))
    } else if !caller_is_owner {
        Err(string_of("Not the agent owner"))
    } else {
        Ok(())
    }
}

/// Whether a memory may be stored: it needs a key and content.
pub fn check_memory_entry(key: &str, content: &str) -> (r: Result<(), String>)
    ensures
        r is Ok <==> key@.len() > 0 && content@.len() > 0,
        r matches Err(e) ==> e@ == "Key and content required"@,
{
    if key.is_empty() || content.is_empty() {
        Err(string_of("Key and content required"))
    } else {
        Ok(())
    }
}

/// The error of forgetting a memory that does not exist.
pub fn memory_not_found() -> (r: String)
    ensures
        r@ == "Memory not found"@,
{
    string_of("Memory not found")
}

/// The error of reporting a result for an unknown local tool request.
pub fn request_not_found() -> (r: String)
    ensures
        r@ == "Request not found"@,
{
    string_of("Request not found")
}

/// The memory stored under a key: an existing entry keeps its ID, agent, key and session
/// and takes the new content and category; a new entry (ID 0, assigned on insert) belongs
/// to the given agent.
pub fn upserted_memory(
    existing: Option<&Memory>,
    agent_id: u64,
    key: &str,
    content: &str,
    category: &str,
) -> (r: Memory)
    ensures
        r.content@ == content@,
        r.category@ == category@,
        existing matches Some(m) ==> r.id == m.id && r.agent_id == m.agent_id && r.key@ == m.key@
            && r.session_id@ == m.session_id@,
        existing is None ==> r.id == 0 && r.agent_id == agent_id && r.key@ == key@
            && r.session_id@.len() == 0,
{
    match existing {
        Some(m) => Memory {
            id: m.id,
            agent_id: m.agent_id,
            key: m.key.clone(),
            content: string_of(content),
            category: string_of(category),
            session_id: m.session_id.clone(),
        },
        None => Memory {
            id: 0,
            agent_id,
            key: string_of(key),
            content: string_of(content),
            category: string_of(category),
            session_id: String::new(),
        },
    }
}

/// Whether an inbound message is long enough (more than 20 bytes) to be saved to memory.
pub fn should_autosave(content: &str) -> (r: bool)
    ensures
        r == (content.spec_bytes().len() > 20),
{
    content.as_bytes().len() > 20
}

/// The memory key of an auto-saved message: `conv_<conversation>_<timestamp>`.
pub fn autosave_key(conversation_id: u64, timestamp: &str) -> (r: String)
    ensures
        r@ == "conv_"@ + decimal(conversation_id as nat) + "_"@ + timestamp@,
{
    let mut key = string_of("conv_");
    push_decimal(&mut key, conversation_id);
    push_str(&mut key, "_");
    push_str(&mut key, timestamp);
    key
}

/// The agent a memory tool call acts for: agent 1 unless one is given.
pub fn tool_agent_id(agent_id: u64) -> (r: u64)
    ensures
        r == (if agent_id == 0 {
            1
        } else {
            agent_id
        }),
{
    if agent_id == 0 {
        1
    } else {
        agent_id
    }
}

/// The category of a memory stored by the memory tool when none is given.
pub fn default_memory_category() -> (r: String)
    ensures
        r@ == "core"@,
{
    string_of("core")
}

/// The result text of the memory tool after storing a memory.
pub fn stored_memory_message(key: &str) -> (r: String)
    ensures
        r@ == "Stored memory: "@ + key@,
{
    let mut s = string_of("Stored memory: ");
    push_str(&mut s, key);
    s
}

} // verus!
