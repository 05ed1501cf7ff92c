//! The orchestration loop of a conversation turn, as decisions between outside steps.
//!
//! A turn alternates LLM calls and tool executions. The caller performs each call and
//! each tool execution; these functions decide what happens next:
//!
//! 1. [`loop_start`] — a turn with no iteration budget ends at once.
//! 2. After each LLM call, [`after_llm_reply`] ends the turn (error or final answer) or
//!    routes the requested tool calls: blocked, executed over HTTP, or left to a local
//!    worker.
//! 3. After the tools ran, [`after_tool_round`] ends the turn when local tools are
//!    pending or the iteration budget is spent, and otherwise calls the LLM again.
use vstd::prelude::*;
use crate::agent::records::{ProcessResult, ToolCall};
use crate::text::{push_str, str_eq, string_of};

verus! {

/// How a requested tool call is carried out.
#[derive(Debug, Clone, Copy, PartialEq, Eq, Structural)]
pub enum ToolRoute {
    /// The security policy refuses the tool; the refusal is recorded as its result.
    Blocked,
    /// The tool runs over HTTP inside the runtime.
    Http,
    /// The tool needs a local worker.
    Local,
}

/// The route of a tool call: blocked unless allowed; HTTP when registered as such;
/// otherwise local.
pub open spec fn route_for(allowed: bool, execution_mode: Seq<char>) -> ToolRoute {
    if !allowed {
        ToolRoute::Blocked
    } else if execution_mode == "http"@ {
        ToolRoute::Http
    } else {
        ToolRoute::Local
    }
}

/// Routes one tool call.
pub fn route_tool_call(allowed: bool, execution_mode: &str) -> (r: ToolRoute)
    ensures
        r == route_for(allowed, execution_mode@),
{
    if !allowed {
        ToolRoute::Blocked
    } else if str_eq(execution_mode, "http") {
        ToolRoute::Http
    } else {
        ToolRoute::Local
    }
}

/// The result recorded for a tool call that the policy blocked.
pub fn blocked_tool_message(tool_name: &str) -> (r: String)
    ensures
        r@ == "Error: tool '"@ + tool_name@ + "' blocked by security policy"@,
{
    let mut s = string_of("Error: tool '");
    push_str(&mut s, tool_name);
    push_str(&mut s, "' blocked by security policy");
    s
}

/// The response of a turn whose LLM call failed.
pub open spec fn llm_error_text(error: Seq<char>) -> Seq<char> {
    "LLM API error: "@ + error
}

/// The response of a turn that used up its iteration budget.
pub open spec fn iteration_limit_text() -> Seq<char> {
    "[Tool iteration limit reached]"@
}

/// Whether a result has the given status, response, conversation and pending-tools JSON.
pub open spec fn result_is(
    r: ProcessResult,
    status: Seq<char>,
    response: Seq<char>,
    conversation_id: u64,
    pending: Seq<char>,
) -> bool {
    &&& r.status@ == status
    &&& r.response@ == response
    &&& r.conversation_id == conversation_id
    &&& r.pending_local_tools_json@ == pending
}

/// A finished result of a turn.
fn make_result(status: &str, response: String, conversation_id: u64, pending: String) -> (r:
    ProcessResult)
    ensures
        result_is(r, status@, response@, conversation_id, pending@),
{
    ProcessResult {
        status: string_of(status),
        response,
        conversation_id,
        pending_local_tools_json: pending,
    }
}

/// A completed turn: the LLM answered without tool calls.
pub fn completed_result(conversation_id: u64, response: String) -> (r: ProcessResult)
    ensures
        result_is(r, "completed"@, response@, conversation_id, Seq::empty()),
{
    make_result("completed", response, conversation_id, String::new())
}

/// A turn that ended in an error.
pub fn error_result(conversation_id: u64, response: String) -> (r: ProcessResult)
    ensures
        result_is(r, "error"@, response@, conversation_id, Seq::empty()),
{
    make_result("error", response, conversation_id, String::new())
}

/// A turn paused until local tools have run.
pub fn awaiting_result(conversation_id: u64, response: String, pending_json: String) -> (r:
    ProcessResult)
    ensures
        result_is(r, "awaiting_local_tools"@, response@, conversation_id, pending_json@),
{
    make_result("awaiting_local_tools", response, conversation_id, pending_json)
}

/// A turn that used up its iteration budget.
pub fn iteration_limit_result(conversation_id: u64) -> (r: ProcessResult)
    ensures
        result_is(r, "iteration_limit"@, iteration_limit_text(), conversation_id, Seq::empty()),
{
    make_result(
        "iteration_limit",
        string_of("[Tool iteration limit reached]"),
        conversation_id,
        String::new(),
    )
}

/// How a turn begins: a turn whose budget is zero iterations ends at once with the
/// iteration-limit result (whose response is then sent); otherwise the first LLM call
/// follows (`None`).
pub fn loop_start(conversation_id: u64, max_iterations: u32) -> (r: Option<ProcessResult>)
    ensures
        r is Some <==> max_iterations == 0,
        r matches Some(p) ==> result_is(
            p,
            "iteration_limit"@,
            iteration_limit_text(),
            conversation_id,
            Seq::empty(),
        ),
{
    if max_iterations == 0 {
        Some(iteration_limit_result(conversation_id))
    } else {
        None
    }
}

/// What follows an LLM call.
#[derive(Debug)]
pub enum ReplyStep {
    /// The call failed: the turn ends with this error result.
    Failed(ProcessResult),
    /// The LLM answered without tool calls: the answer is sent and the turn ends with
    /// this result.
    Completed(ProcessResult),
    /// The LLM asked for tools: run each call as routed, then decide with
    /// [`after_tool_round`].
    RunTools(Vec<ToolRoute>),
}

/// The routes of a list of tool calls, from whether each is allowed and its execution
/// mode.
pub open spec fn routes_for(allowed: Seq<bool>, modes: Seq<Seq<char>>) -> Seq<ToolRoute> {
    Seq::new(allowed.len(), |i: int| route_for(allowed[i], modes[i]))
}

/// Decides what follows an LLM call. For a reply with tool calls, `allowed[i]` and
/// `modes[i]` tell whether call `i` is allowed by the policy and how the registry says
/// it executes.
pub fn after_llm_reply(
    conversation_id: u64,
    reply: &Result<(String, Vec<ToolCall>), String>,
    allowed: &Vec<bool>,
    modes: &Vec<String>,
) -> (r: ReplyStep)
    requires
        reply matches Ok((_, calls)) ==> allowed@.len() == calls@.len() && modes@.len()
            == calls@.len(),
    ensures
        reply matches Err(e) ==> (r matches ReplyStep::Failed(p) && result_is(
            p,
            "error"@,
            llm_error_text(e@),
            conversation_id,
            Seq::empty(),
        )),
        reply matches Ok((content, calls)) ==> (calls@.len() == 0 ==> (r matches ReplyStep::Completed(
            p,
        ) && result_is(p, "completed"@, content@, conversation_id, Seq::empty()))),
        reply matches Ok((content, calls)) ==> (calls@.len() > 0 ==> (r matches ReplyStep::RunTools(
            routes,
        ) && routes@ == routes_for(allowed@, modes.deep_view()))),
{
    match reply {
        Err(e) => {
            let mut msg = string_of("LLM API error: ");
            push_str(&mut msg, e.as_str());
            ReplyStep::Failed(error_result(conversation_id, msg))
        },
        Ok((content, calls)) => {
            if calls.len() == 0 {
                ReplyStep::Completed(completed_result(conversation_id, content.clone()))
            } else {
                let mut routes: Vec<ToolRoute> = Vec::new();
                let mut i: usize = 0;
                while i < allowed.len()
                    invariant
                        0 <= i <= allowed@.len(),
                        allowed@.len() == modes@.len(),
                        routes@ =~= routes_for(allowed@, modes.deep_view()).subrange(0, i as int),
                    decreases allowed@.len() - i,
                {
                    routes.push(route_tool_call(allowed[i], modes[i].as_str()));
                    i = i + 1;
                }
                proof {
                    assert(routes@ =~= routes_for(allowed@, modes.deep_view()));
                }
                ReplyStep::RunTools(routes)
            }
        },
    }
}

/// What follows a round of tool execution.
#[derive(Debug)]
pub enum RoundStep {
    /// Local tools are pending: the turn pauses with this result until the worker
    /// reports and the conversation is continued.
    AwaitLocal(ProcessResult),
    /// Every tool ran: call the LLM again, as iteration number `n` (counting from 0).
    NextIteration(u32),
    /// The iteration budget is spent: the limit message is sent and the turn ends with
    /// this result.
    IterationLimit(ProcessResult),
}

/// Decides what follows a round of tool execution in iteration `iteration`. `content` is
/// the LLM reply of this iteration and `pending_json` the JSON list of the tool calls left
/// to local workers.
pub fn after_tool_round(
    conversation_id: u64,
    iteration: u32,
    max_iterations: u32,
    content: &str,
    routes: &Vec<ToolRoute>,
    pending_json: String,
) -> (r: RoundStep)
    requires
        iteration < max_iterations,
    ensures
        routes@.contains(ToolRoute::Local) ==> (r matches RoundStep::AwaitLocal(p) && result_is(
            p,
            "awaiting_local_tools"@,
            content@,
            conversation_id,
            pending_json@,
        )),
        !routes@.contains(ToolRoute::Local) && iteration + 1 < max_iterations ==> r
            == RoundStep::NextIteration((iteration + 1) as u32),
        !routes@.contains(ToolRoute::Local) && iteration + 1 >= max_iterations ==> (r matches RoundStep::IterationLimit(
            p,
        ) && result_is(p, "iteration_limit"@, iteration_limit_text(), conversation_id, Seq::empty())),
        r matches RoundStep::NextIteration(n) ==> n < max_iterations,
{
    let mut any_local = false;
    let mut i: usize = 0;
    while i < routes.len()
        invariant
            0 <= i <= routes@.len(),
            any_local == (exists|j: int| 0 <= j < i && routes@[j] == ToolRoute::Local),
        decreases routes@.len() - i,
    {
        if routes[i] == ToolRoute::Local {
            any_local = true;
        }
        i = i + 1;
    }
    if any_local {
        RoundStep::AwaitLocal(awaiting_result(conversation_id, string_of(content), pending_json))
    } else if iteration + 1 < max_iterations {
        RoundStep::NextIteration(iteration + 1)
    } else {
        RoundStep::IterationLimit(iteration_limit_result(conversation_id))
    }
}

} // verus!
