use zeroclaw::agent::memory::{
    contains_text, join_lines, long_words_of, memory_context_message, memory_recall_answer, mentions_any_word,
    query_words, recall, recall_context, render_memories, user_text,
};
use zeroclaw::agent::records::{Memory, Message};

fn memory(id: u64, agent_id: u64, key: &str, content: &str, category: &str) -> Memory {
    Memory {
        id,
        agent_id,
        key: key.to_string(),
        content: content.to_string(),
        category: category.to_string(),
        session_id: String::new(),
    }
}

fn message(id: u64, conversation_id: u64, role: &str, content: &str) -> Message {
    Message {
        id,
        conversation_id,
        role: role.to_string(),
        content: content.to_string(),
        tool_call_id: String::new(),
        tool_calls_json: String::new(),
    }
}

fn store() -> Vec<Memory> {
    vec![
        memory(1, 1, "lang", "Favourite language is Rust", "core"),
        memory(2, 1, "pet", "Has a cat named Miso", "core"),
        memory(3, 2, "other", "Rust is used by agent two", "core"),
        memory(4, 1, "chat", "We discussed Rust yesterday", "conversation"),
    ]
}

#[test]
fn substring_search() {
    assert!(contains_text("hello world", "lo w"));
    assert!(contains_text("abc", ""));
    assert!(!contains_text("abc", "abcd"));
    assert!(!contains_text("abc", "ac"));
}

#[test]
fn query_words_keep_words_longer_than_three_bytes() {
    assert_eq!(query_words("the quick brown fox jumps"), vec!["quick", "brown", "jumps"]);
    assert_eq!(query_words("  alpha\tbeta\n gamma "), vec!["alpha", "beta", "gamma"]);
    assert_eq!(query_words("a an the"), Vec::<String>::new());
}

#[test]
fn mentions_ignore_case() {
    let words = vec!["RUST".to_string()];
    assert!(mentions_any_word("I like Rust", &words));
    assert!(!mentions_any_word("I like Go", &words));
    assert!(!mentions_any_word("anything", &Vec::new()));
}

#[test]
fn recall_selects_agent_memories_in_order() {
    let words = vec!["rust".to_string()];
    assert_eq!(recall(&store(), 1, false, &words, 10), vec![0, 3]);
    assert_eq!(recall(&store(), 1, true, &words, 10), vec![0]);
    assert_eq!(recall(&store(), 1, false, &words, 1), vec![0]);
    assert_eq!(recall(&store(), 1, false, &words, 0), Vec::<usize>::new());
    assert_eq!(recall(&store(), 2, false, &words, 10), vec![2]);
}

#[test]
fn joining_lines() {
    let lines = vec!["a".to_string(), "b".to_string(), "c".to_string()];
    assert_eq!(join_lines(&lines, ", "), "a, b, c");
    assert_eq!(join_lines(&Vec::new(), ", "), "");
}

#[test]
fn rendering_memories() {
    let s = store();
    assert_eq!(
        render_memories(&s, &vec![0, 1], true),
        "[lang] (core): Favourite language is Rust\n[pet] (core): Has a cat named Miso"
    );
    assert_eq!(render_memories(&s, &vec![1], false), "- [pet] Has a cat named Miso");
}

#[test]
fn recall_tool_answers() {
    assert_eq!(
        memory_recall_answer(&store(), 1, "what about rust"),
        "[lang] (core): Favourite language is Rust\n[chat] (conversation): We discussed Rust yesterday"
    );
    assert_eq!(memory_recall_answer(&store(), 1, "dogs"), "No memories found matching query");
    assert_eq!(memory_recall_answer(&store(), 1, "cat"), "No memories found matching query");
}

#[test]
fn conversation_context_is_recalled_from_user_messages() {
    let msgs = vec![
        message(1, 5, "user", "tell me about Miso"),
        message(2, 5, "assistant", "Rust rules"),
        message(3, 6, "user", "unrelated Rust"),
    ];
    assert_eq!(user_text(&msgs, 5), "tell me about Miso");
    assert_eq!(recall_context(&msgs, &store(), 1, 5), "- [pet] Has a cat named Miso");
    assert_eq!(recall_context(&msgs, &store(), 1, 7), "");
    assert_eq!(recall_context(&msgs, &store(), 1, 6), "- [lang] Favourite language is Rust");
}

#[test]
fn context_message_only_when_something_was_recalled() {
    assert_eq!(memory_context_message(""), None);
    assert_eq!(
        memory_context_message("- [pet] cat"),
        Some("Relevant memories:\n- [pet] cat".to_string())
    );
}

#[test]
fn query_words_agree_with_std_split_whitespace() {
    let texts = [
        "alpha\u{3000}beta\u{85}gamma\u{A0}delta",
        "\tlead  trail\u{2028}words\u{200B}joined ",
        "\u{1680}ogham\u{205F}space\u{202F}narrow\u{FEFF}bom",
    ];
    for text in texts {
        let expected: Vec<String> =
            text.split_whitespace().filter(|w| w.len() > 3).map(|w| w.to_string()).collect();
        assert_eq!(query_words(text), expected, "text {:?}", text);
    }
}

#[test]
fn long_words_keep_those_longer_than_three_bytes() {
    let words = vec!["the".to_string(), "quick".to_string(), "añb".to_string(), "fox".to_string()];
    assert_eq!(long_words_of(&words), vec!["quick", "añb"]);
}
