//! Properties of the agent runtime's decisions that hold for every input.
use vstd::prelude::*;
use vstd::utf8::encode_utf8;
use crate::agent::conversation::positions_where;
use crate::agent::channels::{delivery_for, ChannelKind, Delivery};
use crate::agent::memory::{
    lemma_positions_below, mentions_any, recall_candidate, recalled, user_contents,
};
use crate::agent::orchestration::{route_for, routes_for, ToolRoute};
use crate::agent::policy::{json_string_list, policy_allows};
use crate::agent::records::{ChannelConfig, Memory, Message, SecurityPolicy};
use crate::agent::urlencode::{encode_byte, encode_bytes, hex_digit, url_encoded};

verus! {

/// Policies are deny-by-default: with no security policy, every tool is refused and its
/// call is routed as blocked.
pub proof fn law_no_policy_refuses_every_tool(name: Seq<char>, mode: Seq<char>)
    ensures
        !policy_allows(None, name),
        route_for(policy_allows(None, name), mode) == ToolRoute::Blocked,
{
}

/// A tool on a policy's blocked list is refused, whatever the allowed list says, and the
/// call is routed as blocked, whatever the registry says of its execution.
pub proof fn law_blocked_tool_is_refused(policy: SecurityPolicy, name: Seq<char>, mode: Seq<char>)
    requires
        json_string_list(policy.blocked_tools_json@) matches Some(blocked) && blocked.contains(name),
    ensures
        !policy_allows(Some(policy), name),
        route_for(policy_allows(Some(policy), name), mode) == ToolRoute::Blocked,
{
}

/// A non-empty allowed list admits only the tools it names.
pub proof fn law_allowed_list_admits_only_its_tools(policy: SecurityPolicy, name: Seq<char>)
    requires
        json_string_list(policy.allowed_tools_json@) matches Some(allowed) && allowed.len() > 0
            && !allowed.contains(name),
    ensures
        !policy_allows(Some(policy), name),
{
}

/// An empty allowed list restricts nothing: every tool that is not blocked is allowed.
pub proof fn law_empty_allowed_list_admits_unblocked(policy: SecurityPolicy, name: Seq<char>)
    requires
        json_string_list(policy.allowed_tools_json@) == Some(Seq::<Seq<char>>::empty()),
        !(json_string_list(policy.blocked_tools_json@) matches Some(blocked) && blocked.contains(
            name,
        )),
    ensures
        policy_allows(Some(policy), name),
{
}

/// Whether a character may stand in an encoded URL query: an unreserved character, `+`
/// or `%`.
pub open spec fn is_query_char(c: char) -> bool {
    let n = c as u32;
    (65 <= n <= 90) || (97 <= n <= 122) || (48 <= n <= 57) || n == 45 || n == 95 || n == 46
        || n == 126 || n == 43 || n == 37
}

proof fn lemma_hex_digit_is_query_char(n: int)
    ensures
        is_query_char(hex_digit(n)),
{
}

proof fn lemma_encode_byte_is_query_safe(b: u8)
    ensures
        forall|i: int|
            0 <= i < encode_byte(b).len() ==> is_query_char(#[trigger] encode_byte(b)[i]),
{
    lemma_hex_digit_is_query_char((b / 16) as int);
    lemma_hex_digit_is_query_char((b % 16) as int);
}

proof fn lemma_encode_bytes_is_query_safe(bytes: Seq<u8>)
    ensures
        forall|i: int|
            0 <= i < encode_bytes(bytes).len() ==> is_query_char(#[trigger] encode_bytes(bytes)[i]),
    decreases bytes.len(),
{
    if bytes.len() > 0 {
        let front = bytes.drop_last();
        let b = bytes.last();
        lemma_encode_bytes_is_query_safe(front);
        lemma_encode_byte_is_query_safe(b);
        let all = encode_bytes(bytes);
        assert(all == encode_bytes(front) + encode_byte(b));
        assert forall|i: int| 0 <= i < all.len() implies is_query_char(#[trigger] all[i]) by {
            if i < encode_bytes(front).len() {
                assert(all[i] == encode_bytes(front)[i]);
            } else {
                assert(all[i] == encode_byte(b)[i - encode_bytes(front).len()]);
            }
        }
    }
}

/// The URL encoding of any text holds only unreserved characters, `+` and `%` (with its
/// hexadecimal digits): it can stand in a query as it is.
pub proof fn law_url_encoding_is_query_safe(text: Seq<char>)
    ensures
        forall|i: int|
            0 <= i < url_encoded(text).len() ==> is_query_char(#[trigger] url_encoded(text)[i]),
{
    lemma_encode_bytes_is_query_safe(encode_utf8(text));
}

proof fn lemma_positions_kept_and_increasing(n: nat, keep: spec_fn(int) -> bool)
    requires
        n <= usize::MAX,
    ensures
        forall|i: int|
            0 <= i < positions_where(n, keep).len() ==> keep(#[trigger] positions_where(n, keep)[i] as int),
        forall|i: int, j: int|
            0 <= i < j < positions_where(n, keep).len() ==> #[trigger] positions_where(n, keep)[i]
                < #[trigger] positions_where(n, keep)[j],
    decreases n,
{
    if n > 0 {
        let m = (n - 1) as nat;
        lemma_positions_kept_and_increasing(m, keep);
        lemma_positions_below(m, keep);
        let before = positions_where(m, keep);
        let all = positions_where(n, keep);
        if keep(m as int) {
            assert(all == before.push(m as usize));
            assert forall|i: int| 0 <= i < all.len() implies keep(#[trigger] all[i] as int) by {
                if i < before.len() {
                    assert(all[i] == before[i]);
                } else {
                    assert(all[i] == m as usize);
                }
            }
            assert forall|i: int, j: int| 0 <= i < j < all.len() implies #[trigger] all[i] < #[trigger] all[j] by {
                assert(all[i] == before[i]);
                if j < before.len() {
                    assert(all[j] == before[j]);
                } else {
                    assert(all[j] == m as usize);
                    assert(before[i] < m);
                }
            }
        } else {
            assert(all == before);
        }
    }
}

/// Recall brings back at most `limit` memories, in storage order, each a memory of the
/// agent (outside the "conversation" category when those are skipped) whose content
/// mentions one of the words.
pub proof fn law_recall_is_bounded_and_relevant(
    memories: Seq<Memory>,
    agent_id: u64,
    skip_conversation: bool,
    words: Seq<Seq<char>>,
    limit: nat,
)
    requires
        memories.len() <= usize::MAX,
    ensures
        recalled(memories, agent_id, skip_conversation, words, limit).len() <= limit,
        forall|i: int|
            0 <= i < recalled(memories, agent_id, skip_conversation, words, limit).len() ==> {
                let p = #[trigger] recalled(memories, agent_id, skip_conversation, words, limit)[i];
                &&& p < memories.len()
                &&& memories[p as int].agent_id == agent_id
                &&& !(skip_conversation && memories[p as int].category@ == "conversation"@)
                &&& mentions_any(memories[p as int].content@, words)
            },
        forall|i: int, j: int|
            0 <= i < j < recalled(memories, agent_id, skip_conversation, words, limit).len()
                ==> #[trigger] recalled(memories, agent_id, skip_conversation, words, limit)[i]
                < #[trigger] recalled(memories, agent_id, skip_conversation, words, limit)[j],
{
    let keep = |i: int|
        recall_candidate(memories[i], agent_id, skip_conversation) && mentions_any(
            memories[i].content@,
            words,
        );
    let all = positions_where(memories.len(), keep);
    let r = recalled(memories, agent_id, skip_conversation, words, limit);
    lemma_positions_kept_and_increasing(memories.len(), keep);
    lemma_positions_below(memories.len(), keep);
    assert forall|i: int| 0 <= i < r.len() implies r[i] == all[i] by {}
    assert forall|i: int| 0 <= i < r.len() implies {
        let p = #[trigger] r[i];
        &&& p < memories.len()
        &&& memories[p as int].agent_id == agent_id
        &&& !(skip_conversation && memories[p as int].category@ == "conversation"@)
        &&& mentions_any(memories[p as int].content@, words)
    } by {
        assert(r[i] == all[i]);
        assert(keep(all[i] as int));
    }
    assert forall|i: int, j: int| 0 <= i < j < r.len() implies #[trigger] r[i] < #[trigger] r[j] by {
        assert(r[i] == all[i]);
        assert(r[j] == all[j]);
    }
}

/// Each requested tool call is routed by its own policy flag and registry mode alone,
/// whatever the other calls of the reply are: a refused call is blocked, an allowed call
/// registered as `http` runs over HTTP, and any other allowed call goes to a local worker.
pub proof fn law_each_call_routed_on_its_own(allowed: Seq<bool>, modes: Seq<Seq<char>>, i: int)
    requires
        allowed.len() == modes.len(),
        0 <= i < allowed.len(),
    ensures
        routes_for(allowed, modes).len() == allowed.len(),
        !allowed[i] ==> routes_for(allowed, modes)[i] == ToolRoute::Blocked,
        allowed[i] && modes[i] == "http"@ ==> routes_for(allowed, modes)[i] == ToolRoute::Http,
        allowed[i] && modes[i] != "http"@ ==> routes_for(allowed, modes)[i] == ToolRoute::Local,
{
}

/// The user text of a conversation gathers every user message of it, in storage order:
/// the user messages of two stretches of storage are those of the first followed by those
/// of the second, and a single message contributes its content exactly when it is a user
/// message of the conversation.
pub proof fn law_user_contents_gather_every_user_message(
    first: Seq<Message>,
    second: Seq<Message>,
    m: Message,
    conversation_id: u64,
)
    ensures
        user_contents(first + second, conversation_id) == user_contents(first, conversation_id)
            + user_contents(second, conversation_id),
        user_contents(seq![m], conversation_id) == if m.conversation_id == conversation_id
            && m.role@ == "user"@ {
            seq![m.content@]
        } else {
            Seq::<Seq<char>>::empty()
        },
    decreases second.len(),
{
    assert(seq![m].drop_last() =~= Seq::<Message>::empty());
    assert(seq![m].last() == m);
    assert(user_contents(Seq::<Message>::empty(), conversation_id) == Seq::<Seq<char>>::empty());
    assert(Seq::<Seq<char>>::empty().push(m.content@) =~= seq![m.content@]);
    if second.len() == 0 {
        assert(first + second =~= first);
    } else {
        law_user_contents_gather_every_user_message(first, second.drop_last(), m, conversation_id);
        assert((first + second).drop_last() =~= first + second.drop_last());
        assert((first + second).last() == second.last());
    }
}

proof fn lemma_kept_position_found(n: nat, keep: spec_fn(int) -> bool, i: int)
    requires
        n <= usize::MAX,
        0 <= i < n,
        keep(i),
    ensures
        exists|k: int|
            0 <= k < positions_where(n, keep).len() && #[trigger] positions_where(n, keep)[k]
                == i as usize,
    decreases n,
{
    let m = (n - 1) as nat;
    let before = positions_where(m, keep);
    let all = positions_where(n, keep);
    if i < m {
        lemma_kept_position_found(m, keep, i);
        let k = choose|k: int| 0 <= k < before.len() && #[trigger] before[k] == i as usize;
        if keep(m as int) {
            assert(all == before.push(m as usize));
        } else {
            assert(all == before);
        }
        assert(all[k] == i as usize);
    } else {
        assert(all == before.push(m as usize));
        assert(all[before.len() as int] == i as usize);
    }
}

/// Recall misses no memory: every memory of the agent (outside the "conversation"
/// category when those are skipped) whose content mentions one of the words is recalled,
/// unless `limit` memories stored before it already were.
pub proof fn law_recall_misses_no_relevant_memory(
    memories: Seq<Memory>,
    agent_id: u64,
    skip_conversation: bool,
    words: Seq<Seq<char>>,
    limit: nat,
    i: int,
)
    requires
        memories.len() <= usize::MAX,
        0 <= i < memories.len(),
        memories[i].agent_id == agent_id,
        !(skip_conversation && memories[i].category@ == "conversation"@),
        mentions_any(memories[i].content@, words),
    ensures
        recalled(memories, agent_id, skip_conversation, words, limit).contains(i as usize) || (
        recalled(memories, agent_id, skip_conversation, words, limit).len() == limit && forall|j: int|
            0 <= j < limit ==> #[trigger] recalled(memories, agent_id, skip_conversation, words, limit)[j]
                < i),
{
    let keep = |k: int|
        recall_candidate(memories[k], agent_id, skip_conversation) && mentions_any(
            memories[k].content@,
            words,
        );
    let all = positions_where(memories.len(), keep);
    let r = recalled(memories, agent_id, skip_conversation, words, limit);
    assert(keep(i));
    lemma_kept_position_found(memories.len(), keep, i);
    lemma_positions_kept_and_increasing(memories.len(), keep);
    let k = choose|k: int| 0 <= k < all.len() && #[trigger] all[k] == i as usize;
    if all.len() <= limit {
        assert(r == all);
        assert(r[k] == i as usize);
    } else if k < limit {
        assert(r[k] == all[k]);
    } else {
        assert forall|j: int| 0 <= j < limit implies #[trigger] r[j] < i by {
            assert(r[j] == all[j]);
        }
    }
}

/// A response goes straight out through a configured channel of a kind the runtime
/// sends to (Telegram, Discord, Slack, webhook); it is queued for a worker only when the
/// channel is not configured or of another type.
pub proof fn law_configured_http_channels_are_sent(config: Option<ChannelConfig>)
    ensures
        config is None ==> delivery_for(config) == Delivery::Queue,
        config matches Some(c) && c.channel_type@ == "telegram"@ ==> delivery_for(config)
            == Delivery::Send(ChannelKind::Telegram),
        config matches Some(c) && c.channel_type@ == "discord"@ ==> delivery_for(config)
            == Delivery::Send(ChannelKind::Discord),
        config matches Some(c) && c.channel_type@ == "slack"@ ==> delivery_for(config)
            == Delivery::Send(ChannelKind::Slack),
        config matches Some(c) && c.channel_type@ == "webhook"@ ==> delivery_for(config)
            == Delivery::Send(ChannelKind::Webhook),
        config matches Some(c) && c.channel_type@ != "telegram"@ && c.channel_type@ != "discord"@
            && c.channel_type@ != "slack"@ && c.channel_type@ != "webhook"@ ==> delivery_for(config)
            == Delivery::Queue,
{
    reveal_strlit("telegram");
    reveal_strlit("discord");
    reveal_strlit("slack");
    reveal_strlit("webhook");
    assert("telegram"@.len() == 8 && "discord"@.len() == 7);
    assert("slack"@.len() == 5 && "webhook"@.len() == 7);
    assert("discord"@[0] != "webhook"@[0]);
}

} // verus!
