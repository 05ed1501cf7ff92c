use zeroclaw::agent::conversation::{
    finished_requests, find_active_conversation, has_pending_requests, hygiene_requests,
    hygiene_sends, still_pending_result, submitted_status,
};
use zeroclaw::agent::history::{answered_tool_call, carries_tool_calls, history_window};
use zeroclaw::agent::records::{Conversation, LocalToolRequest, Message, PendingSend};

fn conv(id: u64, agent_id: u64, channel: &str, sender: &str, active: bool) -> Conversation {
    Conversation {
        id,
        agent_id,
        channel: channel.to_string(),
        sender: sender.to_string(),
        active,
        tool_iteration: 0,
    }
}

fn request(id: u64, conversation_id: u64, status: &str) -> LocalToolRequest {
    LocalToolRequest {
        id,
        conversation_id,
        tool_call_id: format!("call_{}", id),
        tool_name: "shell".to_string(),
        parameters_json: "{}".to_string(),
        status: status.to_string(),
        result: String::new(),
        claimed_by: String::new(),
    }
}

fn send(id: u64, status: &str) -> PendingSend {
    PendingSend {
        id,
        conversation_id: 1,
        channel: "cli".to_string(),
        target: "me".to_string(),
        content: "hi".to_string(),
        status: status.to_string(),
    }
}

fn message(id: u64, conversation_id: u64, role: &str) -> Message {
    Message {
        id,
        conversation_id,
        role: role.to_string(),
        content: format!("m{}", id),
        tool_call_id: String::new(),
        tool_calls_json: String::new(),
    }
}

#[test]
fn active_conversation_is_found_by_agent_channel_and_sender() {
    let convs = vec![
        conv(1, 1, "cli", "alice", false),
        conv(2, 1, "cli", "bob", true),
        conv(3, 1, "cli", "alice", true),
        conv(4, 1, "cli", "alice", true),
        conv(5, 2, "cli", "alice", true),
    ];
    assert_eq!(find_active_conversation(&convs, 1, "cli", "alice"), Some(3));
    assert_eq!(find_active_conversation(&convs, 2, "cli", "alice"), Some(5));
    assert_eq!(find_active_conversation(&convs, 1, "telegram", "alice"), None);
}

#[test]
fn submitted_results_set_the_status() {
    assert_eq!(submitted_status(true), "completed");
    assert_eq!(submitted_status(false), "failed");
}

#[test]
fn pending_requests_block_continuation() {
    let reqs = vec![request(1, 7, "completed"), request(2, 7, "pending"), request(3, 8, "failed")];
    assert!(has_pending_requests(&reqs, 7));
    assert!(!has_pending_requests(&reqs, 8));
    let r = still_pending_result(7);
    assert_eq!(r.status, "error");
    assert_eq!(r.response, "Local tool requests still pending");
}

#[test]
fn finished_requests_of_a_conversation() {
    let reqs = vec![
        request(1, 7, "completed"),
        request(2, 7, "pending"),
        request(3, 8, "failed"),
        request(4, 7, "failed"),
        request(5, 7, "processing"),
    ];
    assert_eq!(finished_requests(&reqs, 7), vec![0, 3]);
    assert_eq!(finished_requests(&reqs, 8), vec![2]);
    assert_eq!(hygiene_requests(&reqs), vec![0, 2, 3]);
}

#[test]
fn hygiene_removes_sent_messages() {
    let sends = vec![send(1, "sent"), send(2, "pending"), send(3, "failed"), send(4, "sent")];
    assert_eq!(hygiene_sends(&sends), vec![0, 3]);
}

#[test]
fn history_window_keeps_latest_messages_in_id_order() {
    let msgs = vec![
        message(5, 1, "user"),
        message(3, 1, "assistant"),
        message(7, 2, "user"),
        message(9, 1, "user"),
        message(1, 1, "system"),
    ];
    assert_eq!(history_window(&msgs, 1, 2), vec![0, 3]);
    assert_eq!(history_window(&msgs, 1, 10), vec![4, 1, 0, 3]);
    assert_eq!(history_window(&msgs, 2, 10), vec![2]);
    assert_eq!(history_window(&msgs, 1, 0), Vec::<usize>::new());
    assert_eq!(history_window(&msgs, 3, 5), Vec::<usize>::new());
}

#[test]
fn tool_call_markers() {
    assert!(!carries_tool_calls(""));
    assert!(!carries_tool_calls("[]"));
    assert!(carries_tool_calls("[{\"id\":\"c1\"}]"));
    let mut m = message(1, 1, "tool");
    assert_eq!(answered_tool_call(&m), None);
    m.tool_call_id = "c1".to_string();
    assert_eq!(answered_tool_call(&m), Some("c1".to_string()));
}
