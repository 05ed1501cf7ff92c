use zeroclaw::agent::orchestration::{
    after_llm_reply, after_tool_round, completed_result, error_result, iteration_limit_result,
    loop_start, ReplyStep, RoundStep, ToolRoute,
};
use zeroclaw::agent::records::ToolCall;

fn call(name: &str) -> ToolCall {
    ToolCall { id: "call_1".to_string(), name: name.to_string(), arguments: "{}".to_string() }
}

#[test]
fn zero_budget_ends_at_once() {
    let r = loop_start(7, 0).expect("a turn without budget ends");
    assert_eq!(r.status, "iteration_limit");
    assert_eq!(r.response, "[Tool iteration limit reached]");
    assert_eq!(r.conversation_id, 7);
    assert_eq!(r.pending_local_tools_json, "");
    assert!(loop_start(7, 10).is_none());
}

#[test]
fn results_carry_status_and_response() {
    let c = completed_result(3, "done".to_string());
    assert_eq!((c.status.as_str(), c.response.as_str(), c.conversation_id), ("completed", "done", 3));
    let e = error_result(4, "bad".to_string());
    assert_eq!((e.status.as_str(), e.response.as_str()), ("error", "bad"));
    let l = iteration_limit_result(5);
    assert_eq!(l.status, "iteration_limit");
}

#[test]
fn failed_llm_call_ends_with_error() {
    let reply: Result<(String, Vec<ToolCall>), String> = Err("timeout".to_string());
    match after_llm_reply(9, &reply, &vec![], &vec![]) {
        ReplyStep::Failed(p) => {
            assert_eq!(p.status, "error");
            assert_eq!(p.response, "LLM API error: timeout");
            assert_eq!(p.conversation_id, 9);
        },
        other => panic!("unexpected step {:?}", other),
    }
}

#[test]
fn answer_without_tools_completes() {
    let reply: Result<(String, Vec<ToolCall>), String> = Ok(("Hello!".to_string(), vec![]));
    match after_llm_reply(9, &reply, &vec![], &vec![]) {
        ReplyStep::Completed(p) => {
            assert_eq!(p.status, "completed");
            assert_eq!(p.response, "Hello!");
        },
        other => panic!("unexpected step {:?}", other),
    }
}

#[test]
fn tool_calls_are_routed() {
    let reply: Result<(String, Vec<ToolCall>), String> =
        Ok((String::new(), vec![call("web_search"), call("shell"), call("file_write")]));
    let allowed = vec![true, true, false];
    let modes = vec!["http".to_string(), "local".to_string(), "local".to_string()];
    match after_llm_reply(9, &reply, &allowed, &modes) {
        ReplyStep::RunTools(routes) => {
            assert_eq!(routes, vec![ToolRoute::Http, ToolRoute::Local, ToolRoute::Blocked]);
        },
        other => panic!("unexpected step {:?}", other),
    }
}

#[test]
fn pending_local_tools_pause_the_turn() {
    let routes = vec![ToolRoute::Http, ToolRoute::Local];
    let pending = "[{\"id\":\"c2\"}]".to_string();
    match after_tool_round(2, 0, 10, "checking", &routes, pending) {
        RoundStep::AwaitLocal(p) => {
            assert_eq!(p.status, "awaiting_local_tools");
            assert_eq!(p.response, "checking");
            assert_eq!(p.pending_local_tools_json, "[{\"id\":\"c2\"}]");
        },
        other => panic!("unexpected step {:?}", other),
    }
}

#[test]
fn finished_round_calls_the_llm_again() {
    let routes = vec![ToolRoute::Http, ToolRoute::Blocked];
    assert!(matches!(
        after_tool_round(2, 0, 10, "", &routes, String::new()),
        RoundStep::NextIteration(1)
    ));
}

#[test]
fn last_iteration_hits_the_limit() {
    let routes = vec![ToolRoute::Http];
    match after_tool_round(2, 9, 10, "", &routes, String::new()) {
        RoundStep::IterationLimit(p) => {
            assert_eq!(p.status, "iteration_limit");
            assert_eq!(p.response, "[Tool iteration limit reached]");
        },
        other => panic!("unexpected step {:?}", other),
    }
}

#[test]
fn a_turn_never_exceeds_its_budget() {
    let routes = vec![ToolRoute::Http];
    let max = 3;
    let mut iteration = 0;
    let mut calls = 1;
    loop {
        match after_tool_round(1, iteration, max, "", &routes, String::new()) {
            RoundStep::NextIteration(n) => {
                assert!(n < max);
                iteration = n;
                calls += 1;
            },
            RoundStep::IterationLimit(_) => break,
            RoundStep::AwaitLocal(_) => panic!("no local tool was routed"),
        }
    }
    assert_eq!(calls, 3);
}
