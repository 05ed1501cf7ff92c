//! The conversation history sent to the LLM.
//!
//! The history holds the conversation's latest messages, at most the agent's history
//! budget, in the order of their IDs.
use vstd::prelude::*;
use crate::agent::records::Message;
use crate::text::str_eq;

verus! {

/// Whether message IDs are unique among the messages of a conversation.
pub open spec fn ids_unique(messages: Seq<Message>, conversation_id: u64) -> bool {
    forall|i: int, j: int|
        0 <= i < messages.len() && 0 <= j < messages.len() && i != j && messages[i].conversation_id
            == conversation_id && messages[j].conversation_id == conversation_id ==> #[trigger] messages[i].id
            != #[trigger] messages[j].id
}

/// Whether positions are in strictly increasing order of message ID.
pub open spec fn id_ordered(messages: Seq<Message>, picks: Seq<usize>) -> bool {
    forall|a: int, b: int|
        0 <= a < b < picks.len() ==> messages[#[trigger] picks[a] as int].id < messages[#[trigger] picks[b] as int].id
}

/// The number of messages of a conversation.
pub open spec fn count_in(messages: Seq<Message>, conversation_id: u64) -> nat
    decreases messages.len(),
{
    if messages.len() == 0 {
        0
    } else {
        count_in(messages.drop_last(), conversation_id) + if messages.last().conversation_id
            == conversation_id {
            1nat
        } else {
            0nat
        }
    }
}

/// Whether `picks` is the history window of a conversation: its latest `max_history`
/// messages (or all of them, if fewer), in increasing order of ID.
pub open spec fn is_history_window(
    messages: Seq<Message>,
    conversation_id: u64,
    max_history: nat,
    picks: Seq<usize>,
) -> bool {
    &&& picks.len() == if count_in(messages, conversation_id) <= max_history {
        count_in(messages, conversation_id)
    } else {
        max_history
    }
    &&& forall|a: int|
        0 <= a < picks.len() ==> #[trigger] picks[a] < messages.len()
            && messages[picks[a] as int].conversation_id == conversation_id
    &&& id_ordered(messages, picks)
    &&& forall|p: int|
        0 <= p < messages.len() && messages[p].conversation_id == conversation_id
            && !picks.contains(p as usize) && picks.len() > 0 ==> #[trigger] messages[p].id
            < messages[picks[0] as int].id
}

/// Inserts position `p` into `sorted`, keeping increasing ID order.
fn insert_by_id(messages: &Vec<Message>, sorted: &mut Vec<usize>, p: usize)
    requires
        p < messages@.len(),
        forall|a: int| 0 <= a < old(sorted)@.len() ==> #[trigger] old(sorted)@[a] < messages@.len(),
        id_ordered(messages@, old(sorted)@),
        forall|a: int|
            0 <= a < old(sorted)@.len() ==> messages@[#[trigger] old(sorted)@[a] as int].id
                != messages@[p as int].id,
    ensures
        final(sorted)@.len() == old(sorted)@.len() + 1,
        forall|a: int| 0 <= a < final(sorted)@.len() ==> #[trigger] final(sorted)@[a] < messages@.len(),
        id_ordered(messages@, final(sorted)@),
        forall|q: usize| #[trigger] final(sorted)@.contains(q) <==> (old(sorted)@.contains(q) || q == p),
{
    let ghost before = sorted@;
    let id = messages[p].id;
    let mut k: usize = 0;
    while k < sorted.len() && messages[sorted[k]].id < id
        invariant
            sorted@ == before,
            0 <= k <= sorted@.len(),
            forall|a: int| 0 <= a < sorted@.len() ==> #[trigger] sorted@[a] < messages@.len(),
            forall|a: int| 0 <= a < k ==> messages@[#[trigger] sorted@[a] as int].id < id,
        decreases sorted@.len() - k,
    {
        k = k + 1;
    }
    sorted.insert(k, p);
    proof {
        assert(sorted@ =~= before.subrange(0, k as int).push(p) + before.subrange(k as int, before.len() as int));
        assert forall|a: int, b: int|
            0 <= a < b < sorted@.len() implies messages@[#[trigger] sorted@[a] as int].id < messages@[#[trigger] sorted@[b] as int].id by {
            if b < k {
            } else if b == k {
            } else if a < k {
                assert(messages@[before[b - 1] as int].id >= id) by {
                    if b - 1 > k {
                        assert(messages@[before[k as int] as int].id < messages@[before[b - 1] as int].id);
                    }
                }
            } else if a == k {
                assert(messages@[before[b - 1] as int].id != id);
                if b - 1 > k {
                    assert(messages@[before[k as int] as int].id < messages@[before[b - 1] as int].id);
                }
            } else {
                assert(sorted@[a] == before[a - 1]);
                assert(sorted@[b] == before[b - 1]);
            }
        }
        assert forall|q: usize| #[trigger] sorted@.contains(q) <==> (before.contains(q) || q == p) by {
            if sorted@.contains(q) {
                let a = choose|a: int| 0 <= a < sorted@.len() && sorted@[a] == q;
                if a < k {
                    assert(before[a] == q);
                } else if a > k {
                    assert(before[a - 1] == q);
                }
            }
            if before.contains(q) {
                let a = choose|a: int| 0 <= a < before.len() && before[a] == q;
                if a < k {
                    assert(sorted@[a] == q);
                } else {
                    assert(sorted@[a + 1] == q);
                }
            }
            if q == p {
                assert(sorted@[k as int] == q);
            }
        }
    }
}

/// The positions of a conversation's history window: its latest `max_history` messages,
/// in increasing order of ID. Message IDs of a conversation are unique (they are keys).
pub fn history_window(messages: &Vec<Message>, conversation_id: u64, max_history: u32) -> (r: Vec<
    usize,
>)
    requires
        ids_unique(messages@, conversation_id),
    ensures
        is_history_window(messages@, conversation_id, max_history as nat, r@),
{
    let mut sorted: Vec<usize> = Vec::new();
    let mut i: usize = 0;
    while i < messages.len()
        invariant
            0 <= i <= messages@.len(),
            ids_unique(messages@, conversation_id),
            sorted@.len() == count_in(messages@.subrange(0, i as int), conversation_id),
            forall|a: int|
                0 <= a < sorted@.len() ==> #[trigger] sorted@[a] < i && messages@[sorted@[a] as int].conversation_id
                    == conversation_id,
            id_ordered(messages@, sorted@),
            forall|q: usize|
                #[trigger] sorted@.contains(q) <==> (q < i && messages@[q as int].conversation_id
                    == conversation_id),
        decreases messages@.len() - i,
    {
        proof {
            assert(messages@.subrange(0, i + 1).drop_last() =~= messages@.subrange(0, i as int));
        }
        if messages[i].conversation_id == conversation_id {
            proof {
                assert forall|a: int| 0 <= a < sorted@.len() implies messages@[#[trigger] sorted@[a] as int].id
                    != messages@[i as int].id by {
                    assert(sorted@[a] != i);
                }
            }
            let ghost prev = sorted@;
            insert_by_id(messages, &mut sorted, i);
            proof {
                assert forall|a: int| 0 <= a < sorted@.len() implies #[trigger] sorted@[a] < i + 1
                    && messages@[sorted@[a] as int].conversation_id == conversation_id by {
                    assert(sorted@.contains(sorted@[a]));
                    if prev.contains(sorted@[a]) {
                        let b = choose|b: int| 0 <= b < prev.len() && prev[b] == sorted@[a];
                        assert(prev[b] < i);
                    }
                }
            }
        }
        i = i + 1;
    }
    proof {
        assert(messages@.subrange(0, messages@.len() as int) =~= messages@);
    }
    let n = sorted.len();
    let start: usize = if n > max_history as usize {
        n - max_history as usize
    } else {
        0
    };
    let mut window: Vec<usize> = Vec::new();
    let mut k: usize = start;
    while k < n
        invariant
            start <= k <= n,
            n == sorted@.len(),
            window@ == sorted@.subrange(start as int, k as int),
        decreases n - k,
    {
        window.push(sorted[k]);
        k = k + 1;
        proof {
            assert(window@ =~= sorted@.subrange(start as int, k as int));
        }
    }
    proof {
        let all = sorted@;
        assert forall|p: int|
            0 <= p < messages@.len() && messages@[p].conversation_id == conversation_id
                && !window@.contains(p as usize) && window@.len() > 0 implies #[trigger] messages@[p].id
                < messages@[window@[0] as int].id by {
            assert(all.contains(p as usize));
            let a = choose|a: int| 0 <= a < all.len() && all[a] == p as usize;
            if a >= start {
                assert(window@[a - start] == p as usize);
            }
            assert(a < start);
            assert(window@[0] == all[start as int]);
        }
        assert forall|a: int, b: int| 0 <= a < b < window@.len() implies messages@[#[trigger] window@[a] as int].id
            < messages@[#[trigger] window@[b] as int].id by {
            assert(window@[a] == all[a + start]);
            assert(window@[b] == all[b + start]);
        }
    }
    window
}

/// Whether a stored message carries tool calls to replay: its JSON is neither empty nor
/// an empty list.
pub fn carries_tool_calls(tool_calls_json: &str) -> (r: bool)
    ensures
        r == (tool_calls_json@.len() > 0 && tool_calls_json@ != "[]"@),
{
    !tool_calls_json.is_empty() && !str_eq(tool_calls_json, "[]")
}

/// The tool call a stored message answers, if any (an empty ID means none).
pub fn answered_tool_call(message: &Message) -> (r: Option<String>)
    ensures
        message.tool_call_id@.len() == 0 ==> r is None,
        message.tool_call_id@.len() > 0 ==> (r matches Some(id) && id@ == message.tool_call_id@),
{
    if message.tool_call_id.as_str().is_empty() {
        None
    } else {
        Some(message.tool_call_id.clone())
    }
}

} // verus!
