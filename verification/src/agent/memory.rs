//! Memory recall: which stored memories a query (or a conversation) brings back.
//!
//! A memory matches when its content, lower-cased, contains one of the query's words
//! longer than three bytes, lower-cased. Memories are considered in storage order and
//! only the first few matches are kept.
use vstd::prelude::*;
use vstd::string::StringSliceAdditionalSpecFns;
use vstd::string::StrSliceExecFns;
use crate::agent::conversation::positions_where;
use crate::agent::records::{Memory, Message};
use crate::text::{push_char, push_str, str_eq, string_of};

verus! {

/// Whether a character is white space: the Unicode `White_Space` property, which
/// `char::is_whitespace` and `str::split_whitespace` use.
pub open spec fn is_white_space(c: char) -> bool {
    let n = c as u32;
    ||| 0x9 <= n <= 0xD
    ||| n == 0x20
    ||| n == 0x85
    ||| n == 0xA0
    ||| n == 0x1680
    ||| 0x2000 <= n <= 0x200A
    ||| n == 0x2028
    ||| n == 0x2029
    ||| n == 0x202F
    ||| n == 0x205F
    ||| n == 0x3000
}

/// The words finished, and the word in progress, after reading `text` from the start.
pub open spec fn words_so_far(text: Seq<char>) -> (Seq<Seq<char>>, Seq<char>)
    decreases text.len(),
{
    if text.len() == 0 {
        (Seq::empty(), Seq::empty())
    } else {
        let (done, cur) = words_so_far(text.drop_last());
        let c = text.last();
        if !is_white_space(c) {
            (done, cur.push(c))
        } else if cur.len() > 0 {
            (done.push(cur), Seq::empty())
        } else {
            (done, cur)
        }
    }
}

/// The whitespace-separated words of a text, in order: its maximal runs of characters
/// that are not white space.
pub open spec fn whitespace_words(text: Seq<char>) -> Seq<Seq<char>> {
    let (done, cur) = words_so_far(text);
    if cur.len() > 0 {
        done.push(cur)
    } else {
        done
    }
}

/// The lower-case form of a text.
pub uninterp spec fn lowercase(text: Seq<char>) -> Seq<char>;

/// Whether a character is white space.
fn white_space_char(c: char) -> (r: bool)
    ensures
        r == is_white_space(c),
{
    let n = c as u32;
    (0x9 <= n && n <= 0xD) || n == 0x20 || n == 0x85 || n == 0xA0 || n == 0x1680 || (0x2000 <= n
        && n <= 0x200A) || n == 0x2028 || n == 0x2029 || n == 0x202F || n == 0x205F || n == 0x3000
}

/// Splits a text into its whitespace-separated words.
fn split_words(text: &str) -> (r: Vec<String>)
    ensures
        r.deep_view() == whitespace_words(text@),
{
    let chars = chars_of(text);
    let mut done: Vec<String> = Vec::new();
    let mut cur = String::new();
    let mut i: usize = 0;
    while i < chars.len()
        invariant
            chars@ == text@,
            0 <= i <= chars@.len(),
            (done.deep_view(), cur@) == words_so_far(text@.subrange(0, i as int)),
        decreases chars@.len() - i,
    {
        proof {
            assert(text@.subrange(0, i + 1).drop_last() =~= text@.subrange(0, i as int));
        }
        let c = chars[i];
        if !white_space_char(c) {
            push_char(&mut cur, c);
        } else if !cur.as_str().is_empty() {
            let ghost before = done.deep_view();
            done.push(cur);
            proof {
                assert(done.deep_view() =~= before.push(words_so_far(text@.subrange(0, i as int)).1));
            }
            cur = String::new();
        }
        i = i + 1;
    }
    proof {
        assert(text@.subrange(0, chars@.len() as int) =~= text@);
    }
    if !cur.as_str().is_empty() {
        let ghost before = done.deep_view();
        done.push(cur);
        proof {
            assert(done.deep_view() =~= before.push(words_so_far(text@).1));
        }
    }
    done
}

/// Lower-cases a text.
///
/// Wraps `str::to_lowercase` from std (Unicode case mapping), a function of the text
/// alone; the contract names its result `lowercase` and says nothing more of it.
#[verifier::external_body]
fn to_lower(text: &str) -> (r: String)
    ensures
        r@ == lowercase(text@),
{
    text.to_lowercase()
}

/// Whether `needle` occurs in `hay` as a contiguous run of characters.
pub open spec fn occurs_in(needle: Seq<char>, hay: Seq<char>) -> bool {
    exists|i: int| 0 <= i <= hay.len() - needle.len() && #[trigger] hay.subrange(i, i + needle.len()) == needle
}

/// The characters of a string slice.
pub(crate) fn chars_of(s: &str) -> (r: Vec<char>)
    ensures
        r@ == s@,
{
    let n = s.unicode_len();
    let mut out: Vec<char> = Vec::new();
    let mut i: usize = 0;
    while i < n
        invariant
            n == s@.len(),
            0 <= i <= n,
            out@ == s@.subrange(0, i as int),
        decreases n - i,
    {
        out.push(s.get_char(i));
        i = i + 1;
        proof {
            assert(out@ =~= s@.subrange(0, i as int));
        }
    }
    proof {
        assert(s@.subrange(0, n as int) =~= s@);
    }
    out
}

/// Whether `needle` occurs in `hay`.
pub fn contains_text(hay: &str, needle: &str) -> (r: bool)
    ensures
        r == occurs_in(needle@, hay@),
{
    let h = chars_of(hay);
    let n = chars_of(needle);
    if n.len() > h.len() {
        proof {
            assert forall|i: int| 0 <= i <= hay@.len() - needle@.len() implies #[trigger] hay@.subrange(
                i,
                i + needle@.len(),
            ) != needle@ by {}
        }
        return false;
    }
    let hl = h.len();
    let mut start: usize = 0;
    while start <= h.len() - n.len()
        invariant
            h@ == hay@,
            n@ == needle@,
            hl == h@.len(),
            n@.len() <= h@.len(),
            0 <= start <= h@.len() - n@.len() + 1,
            forall|i: int| 0 <= i < start ==> #[trigger] hay@.subrange(i, i + needle@.len()) != needle@,
        decreases h@.len() - n@.len() + 1 - start,
    {
        let mut k: usize = 0;
        let mut same = true;
        while k < n.len()
            invariant
                h@ == hay@,
                n@ == needle@,
                hl == h@.len(),
                start + n@.len() <= h@.len(),
                0 <= k <= n@.len(),
                same == forall|j: int| 0 <= j < k ==> h@[start + j] == n@[j],
            decreases n@.len() - k,
        {
            assert(start + k < h@.len());
            if h[start + k] != n[k] {
                same = false;
            }
            k = k + 1;
        }
        if same {
            proof {
                assert(hay@.subrange(start as int, start + needle@.len()) =~= needle@);
            }
            return true;
        }
        proof {
            let j = choose|j: int| 0 <= j < n@.len() && h@[start + j] != n@[j];
            assert(hay@.subrange(start as int, start + needle@.len())[j] != needle@[j]);
        }
        start = start + 1;
    }
    false
}

/// The query words that take part in matching: those longer than three bytes.
pub open spec fn long_words(words: Seq<Seq<char>>) -> Seq<Seq<char>>
    decreases words.len(),
{
    if words.len() == 0 {
        Seq::empty()
    } else {
        let before = long_words(words.drop_last());
        if vstd::utf8::encode_utf8(words.last()).len() > 3 {
            before.push(words.last())
        } else {
            before
        }
    }
}

/// Whether a content mentions one of the words, ignoring case.
pub open spec fn mentions_any(content: Seq<char>, words: Seq<Seq<char>>) -> bool {
    exists|i: int| 0 <= i < words.len() && occurs_in(lowercase(#[trigger] words[i]), lowercase(content))
}

/// The words that take part in matching: those longer than three bytes, in order.
pub fn long_words_of(words: &Vec<String>) -> (r: Vec<String>)
    ensures
        r.deep_view() == long_words(words.deep_view()),
{
    let ghost all = words.deep_view();
    let mut out: Vec<String> = Vec::new();
    let mut i: usize = 0;
    while i < words.len()
        invariant
            0 <= i <= words@.len(),
            all == words.deep_view(),
            out.deep_view() == long_words(all.subrange(0, i as int)),
        decreases words@.len() - i,
    {
        proof {
            assert(all.subrange(0, i + 1).drop_last() =~= all.subrange(0, i as int));
        }
        if words[i].as_str().as_bytes().len() > 3 {
            out.push(words[i].clone());
            proof {
                assert(out.deep_view() =~= long_words(all.subrange(0, i as int)).push(all[i as int]));
            }
        }
        i = i + 1;
    }
    proof {
        assert(all.subrange(0, words@.len() as int) =~= all);
    }
    out
}

/// The words of a query that take part in matching.
pub fn query_words(query: &str) -> (r: Vec<String>)
    ensures
        r.deep_view() == long_words(whitespace_words(query@)),
{
    let words = split_words(query);
    long_words_of(&words)
}

/// Whether a content mentions one of the words, ignoring case.
pub fn mentions_any_word(content: &str, words: &Vec<String>) -> (r: bool)
    ensures
        r == mentions_any(content@, words.deep_view()),
{
    let lower = to_lower(content);
    let mut i: usize = 0;
    while i < words.len()
        invariant
            0 <= i <= words@.len(),
            lower@ == lowercase(content@),
            forall|j: int|
                0 <= j < i ==> !occurs_in(lowercase(#[trigger] words.deep_view()[j]), lowercase(content@)),
        decreases words@.len() - i,
    {
        let w = to_lower(words[i].as_str());
        if contains_text(lower.as_str(), w.as_str()) {
            proof {
                assert(occurs_in(lowercase(words.deep_view()[i as int]), lowercase(content@)));
            }
            return true;
        }
        i = i + 1;
    }
    false
}

/// The first `limit` positions among those satisfying `keep`.
pub open spec fn first_positions(n: nat, keep: spec_fn(int) -> bool, limit: nat) -> Seq<usize> {
    let all = positions_where(n, keep);
    if all.len() <= limit {
        all
    } else {
        all.subrange(0, limit as int)
    }
}

/// Positions found among fewer items are a prefix of those found among more.
pub proof fn lemma_positions_prefix(i: nat, n: nat, keep: spec_fn(int) -> bool)
    requires
        i <= n,
    ensures
        positions_where(i, keep).len() <= positions_where(n, keep).len(),
        positions_where(n, keep).subrange(0, positions_where(i, keep).len() as int)
            == positions_where(i, keep),
    decreases n - i,
{
    if i < n {
        lemma_positions_prefix(i, (n - 1) as nat, keep);
        let a = positions_where(i, keep);
        let b = positions_where((n - 1) as nat, keep);
        let c = positions_where(n, keep);
        assert(c.subrange(0, a.len() as int) =~= b.subrange(0, a.len() as int));
    }
}

/// Whether a memory takes part in the recall of an agent.
pub open spec fn recall_candidate(m: Memory, agent_id: u64, skip_conversation: bool) -> bool {
    m.agent_id == agent_id && !(skip_conversation && m.category@ == "conversation"@)
}

/// The memories a set of words recalls for an agent: the first `limit` candidates (in
/// storage order) whose content mentions one of the words.
pub open spec fn recalled(
    memories: Seq<Memory>,
    agent_id: u64,
    skip_conversation: bool,
    words: Seq<Seq<char>>,
    limit: nat,
) -> Seq<usize> {
    first_positions(
        memories.len(),
        |i: int|
            recall_candidate(memories[i], agent_id, skip_conversation) && mentions_any(
                memories[i].content@,
                words,
            ),
        limit,
    )
}

/// Selects the memories that `words` recall for an agent, at most `limit` of them.
/// With `skip_conversation`, memories of the "conversation" category are not recalled.
pub fn recall(
    memories: &Vec<Memory>,
    agent_id: u64,
    skip_conversation: bool,
    words: &Vec<String>,
    limit: usize,
) -> (r: Vec<usize>)
    ensures
        r@ == recalled(memories@, agent_id, skip_conversation, words.deep_view(), limit as nat),
{
    let ghost keep = |i: int|
        recall_candidate(memories@[i], agent_id, skip_conversation) && mentions_any(
            memories@[i].content@,
            words.deep_view(),
        );
    let mut out: Vec<usize> = Vec::new();
    if limit == 0 {
        proof {
            assert(recalled(memories@, agent_id, skip_conversation, words.deep_view(), 0) =~= Seq::<usize>::empty());
        }
        return out;
    }
    let mut i: usize = 0;
    while i < memories.len()
        invariant
            0 <= i <= memories@.len(),
            limit > 0,
            keep == (|i: int|
                recall_candidate(memories@[i], agent_id, skip_conversation) && mentions_any(
                    memories@[i].content@,
                    words.deep_view(),
                )),
            out@ == positions_where(i as nat, keep),
            out@.len() < limit,
        decreases memories@.len() - i,
    {
        let m = &memories[i];
        let candidate = m.agent_id == agent_id && !(skip_conversation && str_eq(
            m.category.as_str(),
            "conversation",
        ));
        if candidate && mentions_any_word(m.content.as_str(), words) {
            out.push(i);
        }
        i = i + 1;
        if out.len() == limit {
            proof {
                lemma_positions_prefix(i as nat, memories@.len(), keep);
                assert(positions_where(memories@.len(), keep).subrange(0, limit as int) == out@);
            }
            return out;
        }
    }
    out
}

/// Lines joined with a separator.
pub open spec fn joined(lines: Seq<Seq<char>>, sep: Seq<char>) -> Seq<char>
    decreases lines.len(),
{
    if lines.len() == 0 {
        Seq::empty()
    } else if lines.len() == 1 {
        lines[0]
    } else {
        joined(lines.drop_last(), sep) + sep + lines.last()
    }
}

/// Joins lines with a separator.
pub fn join_lines(lines: &Vec<String>, sep: &str) -> (r: String)
    ensures
        r@ == joined(lines.deep_view(), sep@),
{
    let mut out = String::new();
    let ghost all = lines.deep_view();
    let mut i: usize = 0;
    while i < lines.len()
        invariant
            0 <= i <= lines@.len(),
            all == lines.deep_view(),
            out@ == joined(all.subrange(0, i as int), sep@),
        decreases lines@.len() - i,
    {
        proof {
            assert(all.subrange(0, i + 1).drop_last() =~= all.subrange(0, i as int));
        }
        if i > 0 {
            push_str(&mut out, sep);
        }
        push_str(&mut out, lines[i].as_str());
        i = i + 1;
        proof {
            if i == 1 {
                assert(out@ =~= joined(all.subrange(0, 1), sep@));
            }
        }
    }
    proof {
        assert(all.subrange(0, lines@.len() as int) =~= all);
    }
    out
}

/// The line of a memory in the recall tool's output: `[key] (category): content`.
pub open spec fn recall_tool_line(m: Memory) -> Seq<char> {
    "["@ + m.key@ + "] ("@ + m.category@ + "): "@ + m.content@
}

/// The line of a memory in the recalled context: `- [key] content`.
pub open spec fn context_line(m: Memory) -> Seq<char> {
    "- ["@ + m.key@ + "] "@ + m.content@
}

/// The lines of the selected memories.
pub open spec fn lines_of(memories: Seq<Memory>, picks: Seq<usize>, for_tool: bool) -> Seq<Seq<char>> {
    Seq::new(
        picks.len(),
        |i: int|
            if for_tool {
                recall_tool_line(memories[picks[i] as int])
            } else {
                context_line(memories[picks[i] as int])
            },
    )
}

/// Renders the selected memories, one line each, joined by newlines.
pub fn render_memories(memories: &Vec<Memory>, picks: &Vec<usize>, for_tool: bool) -> (r: String)
    requires
        forall|i: int| 0 <= i < picks@.len() ==> #[trigger] picks@[i] < memories@.len(),
    ensures
        r@ == joined(lines_of(memories@, picks@, for_tool), "\n"@),
{
    let mut lines: Vec<String> = Vec::new();
    let mut i: usize = 0;
    while i < picks.len()
        invariant
            0 <= i <= picks@.len(),
            forall|j: int| 0 <= j < picks@.len() ==> #[trigger] picks@[j] < memories@.len(),
            lines.deep_view() =~= lines_of(memories@, picks@, for_tool).subrange(0, i as int),
        decreases picks@.len() - i,
    {
        let m = &memories[picks[i]];
        let ghost prev = lines.deep_view();
        let mut line: String;
        if for_tool {
            line = string_of("[");
            push_str(&mut line, m.key.as_str());
            push_str(&mut line, "] (");
            push_str(&mut line, m.category.as_str());
            push_str(&mut line, "): ");
            push_str(&mut line, m.content.as_str());
        } else {
            line = string_of("- [");
            push_str(&mut line, m.key.as_str());
            push_str(&mut line, "] ");
            push_str(&mut line, m.content.as_str());
        }
        proof {
            assert(line@ == lines_of(memories@, picks@, for_tool)[i as int]);
        }
        lines.push(line);
        proof {
            assert(lines.deep_view() =~= prev.push(lines_of(memories@, picks@, for_tool)[i as int]));
        }
        i = i + 1;
    }
    proof {
        assert(lines.deep_view() =~= lines_of(memories@, picks@, for_tool));
    }
    join_lines(&lines, "\n")
}

/// The memory recall tool's answer to a query for an agent: up to ten recalled memories,
/// one `[key] (category): content` line each, or a note that nothing matched.
pub fn memory_recall_answer(memories: &Vec<Memory>, agent_id: u64, query: &str) -> (r: String)
    ensures
        ({
            let picks = recalled(memories@, agent_id, false, long_words(whitespace_words(query@)), 10);
            r@ == if picks.len() == 0 {
                "No memories found matching query"@
            } else {
                joined(lines_of(memories@, picks, true), "\n"@)
            }
        }),
{
    let words = query_words(query);
    let picks = recall(memories, agent_id, false, &words, 10);
    proof {
        lemma_recalled_in_range(memories@, agent_id, false, words.deep_view(), 10);
    }
    if picks.len() == 0 {
        string_of("No memories found matching query")
    } else {
        render_memories(memories, &picks, true)
    }
}

/// Every recalled position is a position of a memory.
pub proof fn lemma_recalled_in_range(
    memories: Seq<Memory>,
    agent_id: u64,
    skip_conversation: bool,
    words: Seq<Seq<char>>,
    limit: nat,
)
    ensures
        forall|i: int|
            0 <= i < recalled(memories, agent_id, skip_conversation, words, limit).len()
                ==> #[trigger] recalled(memories, agent_id, skip_conversation, words, limit)[i]
                < memories.len(),
{
    let keep = |i: int|
        recall_candidate(memories[i], agent_id, skip_conversation) && mentions_any(
            memories[i].content@,
            words,
        );
    lemma_positions_below(memories.len(), keep);
}

/// Positions found among `n` items are below `n`.
pub proof fn lemma_positions_below(n: nat, keep: spec_fn(int) -> bool)
    ensures
        forall|i: int|
            0 <= i < positions_where(n, keep).len() ==> #[trigger] positions_where(n, keep)[i] < n,
    decreases n,
{
    if n > 0 {
        lemma_positions_below((n - 1) as nat, keep);
        let before = positions_where((n - 1) as nat, keep);
        assert forall|i: int| 0 <= i < positions_where(n, keep).len() implies #[trigger] positions_where(n, keep)[i] < n by {
            if i < before.len() {
                assert(before[i] < n - 1);
            }
        }
    }
}

/// The contents of the user messages of a conversation, in storage order.
pub open spec fn user_contents(messages: Seq<Message>, conversation_id: u64) -> Seq<Seq<char>>
    decreases messages.len(),
{
    if messages.len() == 0 {
        Seq::empty()
    } else {
        let before = user_contents(messages.drop_last(), conversation_id);
        let m = messages.last();
        if m.conversation_id == conversation_id && m.role@ == "user"@ {
            before.push(m.content@)
        } else {
            before
        }
    }
}

/// The user messages of a conversation, in storage order, joined by spaces.
pub fn user_text(messages: &Vec<Message>, conversation_id: u64) -> (r: String)
    ensures
        r@ == joined(user_contents(messages@, conversation_id), " "@),
{
    let mut contents: Vec<String> = Vec::new();
    let mut i: usize = 0;
    while i < messages.len()
        invariant
            0 <= i <= messages@.len(),
            contents.deep_view() == user_contents(messages@.subrange(0, i as int), conversation_id),
        decreases messages@.len() - i,
    {
        proof {
            assert(messages@.subrange(0, i + 1).drop_last() =~= messages@.subrange(0, i as int));
        }
        let m = &messages[i];
        if m.conversation_id == conversation_id && str_eq(m.role.as_str(), "user") {
            contents.push(m.content.clone());
            proof {
                assert(contents.deep_view() =~= user_contents(messages@.subrange(0, i as int), conversation_id).push(m.content@));
            }
        }
        i = i + 1;
    }
    proof {
        assert(messages@.subrange(0, messages@.len() as int) =~= messages@);
    }
    join_lines(&contents, " ")
}

/// The memory context recalled for a conversation: up to five memories of the agent
/// (none of the "conversation" category) that the conversation's user messages mention,
/// one `- [key] content` line each; empty when the conversation has no user text.
pub open spec fn recalled_context(
    messages: Seq<Message>,
    memories: Seq<Memory>,
    agent_id: u64,
    conversation_id: u64,
) -> Seq<char> {
    let recent = joined(user_contents(messages, conversation_id), " "@);
    if recent.len() == 0 {
        Seq::empty()
    } else {
        let picks = recalled(memories, agent_id, true, long_words(whitespace_words(recent)), 5);
        joined(lines_of(memories, picks, false), "\n"@)
    }
}

/// Recalls the memory context of a conversation.
pub fn recall_context(
    messages: &Vec<Message>,
    memories: &Vec<Memory>,
    agent_id: u64,
    conversation_id: u64,
) -> (r: String)
    ensures
        r@ == recalled_context(messages@, memories@, agent_id, conversation_id),
{
    let recent = user_text(messages, conversation_id);
    if recent.as_str().is_empty() {
        return String::new();
    }
    let words = query_words(recent.as_str());
    let picks = recall(memories, agent_id, true, &words, 5);
    proof {
        lemma_recalled_in_range(memories@, agent_id, true, words.deep_view(), 5);
    }
    render_memories(memories, &picks, false)
}

/// The system message that carries recalled memories, when there are any.
pub fn memory_context_message(context: &str) -> (r: Option<String>)
    ensures
        context@.len() == 0 ==> r is None,
        context@.len() > 0 ==> (r matches Some(m) && m@ == "Relevant memories:\n"@ + context@),
{
    if context.is_empty() {
        None
    } else {
        let mut s = string_of("Relevant memories:\n");
        push_str(&mut s, context);
        Some(s)
    }
}

} // verus!
