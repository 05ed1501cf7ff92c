use zeroclaw::agent::orchestration::{blocked_tool_message, route_tool_call, ToolRoute};
use zeroclaw::agent::policy::{is_tool_allowed, list_contains, tool_allowed_by_lists};
use zeroclaw::agent::records::SecurityPolicy;
use zeroclaw::agent::reducers::default_security_policy;

fn policy(allowed: &str, blocked: &str) -> SecurityPolicy {
    SecurityPolicy {
        agent_id: 1,
        autonomy_level: "semi_auto".to_string(),
        allowed_tools_json: allowed.to_string(),
        blocked_tools_json: blocked.to_string(),
        max_tool_iterations: 10,
        rate_limit_per_minute: 60,
    }
}

#[test]
fn no_policy_refuses_every_tool() {
    assert!(!is_tool_allowed(&None, "shell"));
    assert!(!is_tool_allowed(&None, "web_search"));
}

#[test]
fn default_policy_allows_every_tool() {
    let p = default_security_policy();
    assert_eq!(p.allowed_tools_json, "[]");
    assert_eq!(p.blocked_tools_json, "[]");
    assert!(is_tool_allowed(&Some(p.clone()), "shell"));
    assert!(is_tool_allowed(&Some(p), "file_write"));
}

#[test]
fn blocked_tool_is_refused() {
    let p = Some(policy("[]", "[\"shell\",\"file_write\"]"));
    assert!(!is_tool_allowed(&p, "shell"));
    assert!(!is_tool_allowed(&p, "file_write"));
    assert!(is_tool_allowed(&p, "web_search"));
}

#[test]
fn blocked_wins_over_allowed() {
    let p = Some(policy("[\"shell\"]", "[\"shell\"]"));
    assert!(!is_tool_allowed(&p, "shell"));
}

#[test]
fn non_empty_allowed_list_admits_only_its_tools() {
    let p = Some(policy("[\"web_search\",\"memory_recall\"]", "[]"));
    assert!(is_tool_allowed(&p, "web_search"));
    assert!(is_tool_allowed(&p, "memory_recall"));
    assert!(!is_tool_allowed(&p, "shell"));
}

#[test]
fn unreadable_lists_restrict_nothing() {
    let p = Some(policy("not json", "{\"shell\": true}"));
    assert!(is_tool_allowed(&p, "shell"));
}

#[test]
fn list_contains_matches_whole_names() {
    let list = vec!["shell".to_string(), "file_read".to_string()];
    assert!(list_contains(&list, "shell"));
    assert!(!list_contains(&list, "she"));
    assert!(!list_contains(&Vec::new(), "shell"));
}

#[test]
fn lists_already_read_decide_alike() {
    let blocked = Some(vec!["shell".to_string()]);
    let allowed = Some(vec!["web_search".to_string()]);
    assert!(!tool_allowed_by_lists(&blocked, &allowed, "shell"));
    assert!(tool_allowed_by_lists(&blocked, &allowed, "web_search"));
    assert!(!tool_allowed_by_lists(&None, &allowed, "file_read"));
    assert!(tool_allowed_by_lists(&None, &None, "file_read"));
}

#[test]
fn tool_routes() {
    assert_eq!(route_tool_call(false, "http"), ToolRoute::Blocked);
    assert_eq!(route_tool_call(true, "http"), ToolRoute::Http);
    assert_eq!(route_tool_call(true, "local"), ToolRoute::Local);
    assert_eq!(route_tool_call(true, ""), ToolRoute::Local);
}

#[test]
fn blocked_tool_message_names_the_tool() {
    assert_eq!(blocked_tool_message("shell"), "Error: tool 'shell' blocked by security policy");
}
