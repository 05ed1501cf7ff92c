//! The message list sent to the LLM: the system prompt, then the recalled memories (when
//! there are any), then the conversation's history window.
use vstd::prelude::*;
use crate::agent::history::{answered_tool_call, carries_tool_calls, history_window, ids_unique, is_history_window};
use crate::agent::memory::{memory_context_message, recall_context, recalled_context};
use crate::agent::records::{Memory, Message};
use crate::text::string_of;

verus! {

/// A message as sent to the LLM. The tool calls of an assistant message stay in their
/// stored JSON text; the caller turns them into the API's shape.
#[derive(Debug, Clone)]
pub struct OutgoingMessage {
    pub role: String,
    pub content: String,
    /// The tool call a tool message answers, if any.
    pub tool_call_id: Option<String>,
    /// The JSON list of tool calls an assistant message requested, if any.
    pub tool_calls_json: Option<String>,
}

/// The parts of an outgoing message: role, content, answered tool call, tool calls.
pub type OutgoingView = (Seq<char>, Seq<char>, Option<Seq<char>>, Option<Seq<char>>);

/// The parts of an outgoing message.
pub open spec fn outgoing_view(o: OutgoingMessage) -> OutgoingView {
    (o.role@, o.content@, o.tool_call_id.deep_view(), o.tool_calls_json.deep_view())
}

/// A system message.
pub open spec fn system_view(content: Seq<char>) -> OutgoingView {
    ("system"@, content, None, None)
}

/// A stored message as sent: role and content copied, the answered tool call when its ID
/// is not empty, its tool calls when it carries any.
pub open spec fn stored_view(m: Message) -> OutgoingView {
    (
        m.role@,
        m.content@,
        if m.tool_call_id@.len() == 0 {
            None
        } else {
            Some(m.tool_call_id@)
        },
        if m.tool_calls_json@.len() > 0 && m.tool_calls_json@ != "[]"@ {
            Some(m.tool_calls_json@)
        } else {
            None
        },
    )
}

/// The list sent to the LLM: the system prompt, the memory message when `context` is not
/// empty, then the messages at `picks`.
pub open spec fn assembled(
    system_prompt: Seq<char>,
    context: Seq<char>,
    messages: Seq<Message>,
    picks: Seq<usize>,
) -> Seq<OutgoingView> {
    let head = if context.len() == 0 {
        seq![system_view(system_prompt)]
    } else {
        seq![system_view(system_prompt), system_view("Relevant memories:\n"@ + context)]
    };
    head + Seq::new(picks.len(), |i: int| stored_view(messages[picks[i] as int]))
}

/// Builds the message list of a conversation turn: the agent's system prompt, the
/// memories recalled for the conversation, and the conversation's latest `max_history`
/// messages in increasing order of ID. Message IDs of a conversation are unique.
pub fn outgoing_messages(
    messages: &Vec<Message>,
    memories: &Vec<Memory>,
    system_prompt: &str,
    agent_id: u64,
    conversation_id: u64,
    max_history: u32,
) -> (r: Vec<OutgoingMessage>)
    requires
        ids_unique(messages@, conversation_id),
    ensures
        exists|picks: Seq<usize>|
            #[trigger] is_history_window(messages@, conversation_id, max_history as nat, picks)
                && r@.len() == assembled(
                system_prompt@,
                recalled_context(messages@, memories@, agent_id, conversation_id),
                messages@,
                picks,
            ).len() && forall|j: int|
                0 <= j < r@.len() ==> outgoing_view(#[trigger] r@[j]) == assembled(
                    system_prompt@,
                    recalled_context(messages@, memories@, agent_id, conversation_id),
                    messages@,
                    picks,
                )[j],
{
    let context = recall_context(messages, memories, agent_id, conversation_id);
    let mut out: Vec<OutgoingMessage> = Vec::new();
    out.push(
        OutgoingMessage {
            role: string_of("system"),
            content: string_of(system_prompt),
            tool_call_id: None,
            tool_calls_json: None,
        },
    );
    if let Some(m) = memory_context_message(context.as_str()) {
        out.push(OutgoingMessage { role: string_of("system"), content: m, tool_call_id: None, tool_calls_json: None });
    }
    let picks = history_window(messages, conversation_id, max_history);
    let ghost want = assembled(system_prompt@, context@, messages@, picks@);
    let k = out.len();
    assert(k == if context@.len() == 0 { 1int } else { 2int });
    let mut i: usize = 0;
    while i < picks.len()
        invariant
            0 <= i <= picks@.len(),
            k + picks@.len() == want.len(),
            out@.len() == k + i,
            is_history_window(messages@, conversation_id, max_history as nat, picks@),
            want == assembled(system_prompt@, context@, messages@, picks@),
            forall|j: int| 0 <= j < out@.len() ==> outgoing_view(#[trigger] out@[j]) == want[j],
        decreases picks@.len() - i,
    {
        let m = &messages[picks[i]];
        let tool_calls_json = if carries_tool_calls(m.tool_calls_json.as_str()) {
            Some(m.tool_calls_json.clone())
        } else {
            None
        };
        let o = OutgoingMessage {
            role: m.role.clone(),
            content: m.content.clone(),
            tool_call_id: answered_tool_call(m),
            tool_calls_json,
        };
        assert(outgoing_view(o) == want[k + i]);
        out.push(o);
        i = i + 1;
    }
    out
}

} // verus!
