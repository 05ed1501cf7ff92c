use zeroclaw::agent::prompt::outgoing_messages;
use zeroclaw::agent::records::{Memory, Message};

fn message(id: u64, conversation_id: u64, role: &str, content: &str, call_id: &str, calls: &str) -> Message {
    Message {
        id,
        conversation_id,
        role: role.to_string(),
        content: content.to_string(),
        tool_call_id: call_id.to_string(),
        tool_calls_json: calls.to_string(),
    }
}

#[test]
fn prompt_then_memories_then_latest_history() {
    let memories = vec![Memory {
        id: 1,
        agent_id: 1,
        key: "pet".to_string(),
        content: "Has a cat named Miso".to_string(),
        category: "core".to_string(),
        session_id: String::new(),
    }];
    let messages = vec![
        message(3, 7, "assistant", "", "", "[{\"id\":\"c1\"}]"),
        message(1, 7, "user", "tell me about Miso", "", ""),
        message(2, 8, "user", "other conversation", "", ""),
        message(4, 7, "tool", "ok", "c1", "[]"),
    ];
    let out = outgoing_messages(&messages, &memories, "Be brief.", 1, 7, 2);
    assert_eq!(out.len(), 4);
    assert_eq!((out[0].role.as_str(), out[0].content.as_str()), ("system", "Be brief."));
    assert_eq!(out[1].content, "Relevant memories:\n- [pet] Has a cat named Miso");
    assert_eq!((out[2].role.as_str(), out[2].tool_calls_json.as_deref()), ("assistant", Some("[{\"id\":\"c1\"}]")));
    assert_eq!(out[2].tool_call_id, None);
    assert_eq!((out[3].role.as_str(), out[3].tool_call_id.as_deref(), out[3].tool_calls_json.as_deref()), ("tool", Some("c1"), None));

    let plain = outgoing_messages(&messages, &Vec::new(), "P", 1, 8, 50);
    assert_eq!(plain.len(), 2);
    assert_eq!(plain[1].content, "other conversation");
}
