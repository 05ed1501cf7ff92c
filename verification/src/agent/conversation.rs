//! Conversation bookkeeping: finding the active conversation, resuming after local
//! tools, and cleaning up finished rows.
use vstd::prelude::*;
use crate::agent::orchestration::{error_result, result_is};
use crate::agent::records::{Conversation, LocalToolRequest, PendingSend, ProcessResult};
use crate::text::{str_eq, string_of};

verus! {

/// Whether a conversation is the active one of an agent, channel and sender.
pub open spec fn is_active_for(c: Conversation, agent_id: u64, channel: Seq<char>, sender: Seq<char>) -> bool {
    c.agent_id == agent_id && c.channel@ == channel && c.sender@ == sender && c.active
}

/// Finds the first active conversation of an agent, channel and sender; `None` means a
/// new conversation is to be created.
pub fn find_active_conversation(
    conversations: &Vec<Conversation>,
    agent_id: u64,
    channel: &str,
    sender: &str,
) -> (r: Option<u64>)
    ensures
        r matches Some(id) ==> exists|i: int|
            0 <= i < conversations@.len() && is_active_for(conversations@[i], agent_id, channel@, sender@)
                && conversations@[i].id == id && forall|j: int|
                0 <= j < i ==> !is_active_for(#[trigger] conversations@[j], agent_id, channel@, sender@),
        r is None ==> forall|i: int|
            0 <= i < conversations@.len() ==> !is_active_for(
                #[trigger] conversations@[i],
                agent_id,
                channel@,
                sender@,
            ),
{
    let mut i: usize = 0;
    while i < conversations.len()
        invariant
            0 <= i <= conversations@.len(),
            forall|j: int|
                0 <= j < i ==> !is_active_for(#[trigger] conversations@[j], agent_id, channel@, sender@),
        decreases conversations@.len() - i,
    {
        let c = &conversations[i];
        if c.agent_id == agent_id && str_eq(c.channel.as_str(), channel) && str_eq(
            c.sender.as_str(),
            sender,
        ) && c.active {
            return Some(c.id);
        }
        i = i + 1;
    }
    None
}

/// Whether a local tool request has finished (completed or failed).
pub open spec fn is_finished(r: LocalToolRequest) -> bool {
    r.status@ == "completed"@ || r.status@ == "failed"@
}

/// The status recorded for a local tool result: `completed` on success, else `failed`.
pub fn submitted_status(success: bool) -> (r: String)
    ensures
        r@ == (if success {
            "completed"@
        } else {
            "failed"@
        }),
{
    if success {
        string_of("completed")
    } else {
        string_of("failed")
    }
}

/// Whether some request of the conversation is still pending.
pub fn has_pending_requests(requests: &Vec<LocalToolRequest>, conversation_id: u64) -> (r: bool)
    ensures
        r == exists|i: int|
            0 <= i < requests@.len() && #[trigger] requests@[i].conversation_id == conversation_id
                && requests@[i].status@ == "pending"@,
{
    let mut i: usize = 0;
    while i < requests.len()
        invariant
            0 <= i <= requests@.len(),
            forall|j: int|
                0 <= j < i ==> !(#[trigger] requests@[j].conversation_id == conversation_id
                    && requests@[j].status@ == "pending"@),
        decreases requests@.len() - i,
    {
        if requests[i].conversation_id == conversation_id && str_eq(
            requests[i].status.as_str(),
            "pending",
        ) {
            return true;
        }
        i = i + 1;
    }
    false
}

/// The result of continuing a conversation while local tools are still pending.
pub fn still_pending_result(conversation_id: u64) -> (r: ProcessResult)
    ensures
        result_is(r, "error"@, "Local tool requests still pending"@, conversation_id, Seq::empty()),
{
    error_result(conversation_id, string_of("Local tool requests still pending"))
}

/// The positions, in order, of the requests that satisfy a per-position condition.
pub open spec fn positions_where(n: nat, keep: spec_fn(int) -> bool) -> Seq<usize>
    decreases n,
{
    if n == 0 {
        Seq::empty()
    } else {
        let before = positions_where((n - 1) as nat, keep);
        if keep(n - 1) {
            before.push((n - 1) as usize)
        } else {
            before
        }
    }
}

/// The finished requests of a conversation, whose results become tool messages when the
/// conversation continues.
pub open spec fn finished_of(requests: Seq<LocalToolRequest>, conversation_id: u64) -> Seq<usize> {
    positions_where(
        requests.len(),
        |i: int| requests[i].conversation_id == conversation_id && is_finished(requests[i]),
    )
}

/// Whether a request has finished.
fn request_finished(r: &LocalToolRequest) -> (b: bool)
    ensures
        b == is_finished(*r),
{
    str_eq(r.status.as_str(), "completed") || str_eq(r.status.as_str(), "failed")
}

/// The positions of the finished requests of a conversation, in order.
pub fn finished_requests(requests: &Vec<LocalToolRequest>, conversation_id: u64) -> (r: Vec<usize>)
    ensures
        r@ == finished_of(requests@, conversation_id),
{
    let ghost keep = |i: int| requests@[i].conversation_id == conversation_id && is_finished(requests@[i]);
    let mut out: Vec<usize> = Vec::new();
    let mut i: usize = 0;
    while i < requests.len()
        invariant
            0 <= i <= requests@.len(),
            keep == (|i: int| requests@[i].conversation_id == conversation_id && is_finished(requests@[i])),
            out@ == positions_where(i as nat, keep),
        decreases requests@.len() - i,
    {
        if requests[i].conversation_id == conversation_id && request_finished(&requests[i]) {
            out.push(i);
        }
        i = i + 1;
    }
    out
}

/// The requests that hygiene removes: every finished request.
pub open spec fn hygiene_requests_of(requests: Seq<LocalToolRequest>) -> Seq<usize> {
    positions_where(requests.len(), |i: int| is_finished(requests[i]))
}

/// The positions of the requests that hygiene removes.
pub fn hygiene_requests(requests: &Vec<LocalToolRequest>) -> (r: Vec<usize>)
    ensures
        r@ == hygiene_requests_of(requests@),
{
    let ghost keep = |i: int| is_finished(requests@[i]);
    let mut out: Vec<usize> = Vec::new();
    let mut i: usize = 0;
    while i < requests.len()
        invariant
            0 <= i <= requests@.len(),
            keep == (|i: int| is_finished(requests@[i])),
            out@ == positions_where(i as nat, keep),
        decreases requests@.len() - i,
    {
        if request_finished(&requests[i]) {
            out.push(i);
        }
        i = i + 1;
    }
    out
}

/// The sends that hygiene removes: every send already sent.
pub open spec fn hygiene_sends_of(sends: Seq<PendingSend>) -> Seq<usize> {
    positions_where(sends.len(), |i: int| sends[i].status@ == "sent"@)
}

/// The positions of the pending sends that hygiene removes.
pub fn hygiene_sends(sends: &Vec<PendingSend>) -> (r: Vec<usize>)
    ensures
        r@ == hygiene_sends_of(sends@),
{
    let ghost keep = |i: int| sends@[i].status@ == "sent"@;
    let mut out: Vec<usize> = Vec::new();
    let mut i: usize = 0;
    while i < sends.len()
        invariant
            0 <= i <= sends@.len(),
            keep == (|i: int| sends@[i].status@ == "sent"@),
            out@ == positions_where(i as nat, keep),
        decreases sends@.len() - i,
    {
        if str_eq(sends[i].status.as_str(), "sent") {
            out.push(i);
        }
        i = i + 1;
    }
    out
}

} // verus!
